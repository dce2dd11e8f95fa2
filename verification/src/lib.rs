//! Upload queue, upload session and startup logic of the FluxBooks desktop
//! client, with its contracts proved by Verus.

mod text;
pub mod chunking;
pub mod records;
pub mod queue;
pub mod parts;
pub mod session;
pub mod session_laws;
pub mod plaid;
pub mod progress;
pub mod startup;
pub mod orchestration;
