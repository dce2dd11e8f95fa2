//! Queuing a file: the identity it gets, the name under which its copy is
//! kept, the rows recorded for it; and the device's identity.
use vstd::prelude::*;
use crate::records::{UploadRecord, NewChunk, new_upload_record, chunk_rows, queued_record, planned_rows};

verus! {

/// A lower-case hexadecimal digit.
pub open spec fn is_lower_hex(c: char) -> bool {
    ('0' <= c && c <= '9') || ('a' <= c && c <= 'f')
}

/// The text of a random (version 4) UUID in its hyphenated form, such as
/// `67e55044-10b1-426f-9247-bb680e5fe0c8`: 36 characters, hyphens at
/// positions 8, 13, 18 and 23, lower-case hexadecimal digits elsewhere, the
/// version digit `4` at position 14 and one of `8`, `9`, `a`, `b` at 19.
pub open spec fn is_uuid_v4_text(s: Seq<char>) -> bool {
    &&& s.len() == 36
    &&& forall|i: int|
        0 <= i < 36 ==> if i == 8 || i == 13 || i == 18 || i == 23 {
            #[trigger] s[i] == '-'
        } else {
            is_lower_hex(s[i])
        }
    &&& s[14] == '4'
    &&& (s[19] == '8' || s[19] == '9' || s[19] == 'a' || s[19] == 'b')
}

/// A fresh random identifier.
///
/// Calls `uuid::Uuid::new_v4` and formats it with `to_string`. What is
/// claimed: the text is a hyphenated version-4 UUID (the crate's `new_v4`
/// sets the version and variant bits, and `Display` writes the lower-case
/// hyphenated form). Which identifier comes out is left free: it is random.
#[verifier::external_body]
fn new_v4_text() -> (id: String)
    ensures
        is_uuid_v4_text(id@),
{
    uuid::Uuid::new_v4().to_string()
}

/// The last component of a path, as `std::path::Path::file_name` finds it
/// (by the separators of the platform the crate is built for).
pub uninterp spec fn final_component(path: Seq<char>) -> Option<Seq<char>>;

/// The file name at the end of a path, if it has one.
///
/// Calls `std::path::Path::file_name` on the path and turns the component
/// back into text. What is claimed: the result is `final_component` of the
/// path; nothing is claimed of what that is.
#[verifier::external_body]
fn path_file_name(path: &str) -> (name: Option<String>)
    ensures
        match name {
            Some(n) => final_component(path@) == Some(n@),
            None => final_component(path@) is None,
        },
{
    match std::path::Path::new(path).file_name() {
        Some(n) => match n.to_str() {
            Some(s) => Some(s.to_string()),
            None => None,
        },
        None => None,
    }
}

/// A decimal digit.
pub open spec fn is_digit(c: char) -> bool {
    '0' <= c && c <= '9'
}

/// Two decimal digits at `i` and `i + 1`.
pub open spec fn two_digits(t: Seq<char>, i: int) -> bool {
    is_digit(t[i]) && is_digit(t[i + 1])
}

/// `t` is an RFC 3339 date and time whose year takes `y` characters and
/// whose fraction of a second takes `f` (the dot included): the year (four
/// digits, or a sign and at least four digits), `-MM-DDTHH:MM:SS`, no
/// fraction or a dot and 3, 6 or 9 digits, and the offset `+HH:MM` or
/// `-HH:MM`, such as `1996-12-19T16:39:57-08:00`.
pub open spec fn rfc3339_with(t: Seq<char>, y: int, f: int) -> bool {
    &&& y >= 4
    &&& (f == 0 || f == 4 || f == 7 || f == 10)
    &&& t.len() == y + 21 + f
    &&& forall|i: int|
        0 <= i < y ==> #[trigger] is_digit(t[i]) || (i == 0 && (t[i] == '+' || t[i] == '-'))
    &&& t[y] == '-' && two_digits(t, y + 1) && t[y + 3] == '-' && two_digits(t, y + 4)
    &&& t[y + 6] == 'T' && two_digits(t, y + 7) && t[y + 9] == ':' && two_digits(t, y + 10)
    &&& t[y + 12] == ':' && two_digits(t, y + 13)
    &&& f > 0 ==> t[y + 15] == '.' && forall|i: int|
        y + 16 <= i < y + 15 + f ==> #[trigger] is_digit(t[i])
    &&& t[y + 15 + f] == '+' || t[y + 15 + f] == '-'
    &&& two_digits(t, y + 16 + f) && t[y + 18 + f] == ':' && two_digits(t, y + 19 + f)
}

/// `t` is an RFC 3339 date and time with a numeric offset.
pub open spec fn is_rfc3339_text(t: Seq<char>) -> bool {
    exists|y: int, f: int| rfc3339_with(t, y, f)
}

/// The current local date and time in RFC 3339 form.
///
/// Calls `chrono::Local::now` and `to_rfc3339`. What is claimed: the text
/// has the shape that `to_rfc3339` writes (the year, the date and the time
/// in two-digit fields, an optional fraction of 3, 6 or 9 digits, and the
/// offset in hours and minutes). Which date and time it holds is left free:
/// it depends on the clock and the machine's time zone.
#[verifier::external_body]
fn local_timestamp() -> (t: String)
    ensures
        is_rfc3339_text(t@),
{
    chrono::Local::now().to_rfc3339()
}

/// The current local date and time, in RFC 3339 form, as it is recorded
/// when a file is queued, when a chunk is sent and when an upload completes.
pub fn current_timestamp() -> (t: String)
    ensures
        is_rfc3339_text(t@),
{
    local_timestamp()
}

/// The name shown for a file: the last component of its path, or
/// `unknown` where the path has none.
pub open spec fn display_name(path: Seq<char>) -> Seq<char> {
    match final_component(path) {
        Some(n) => n,
        None => "unknown"@,
    }
}

/// A file about to be queued: its identifier, its name, and the name under
/// which its copy is kept in the uploads directory.
pub struct QueuedFile {
    pub id: String,
    pub file_name: String,
    pub local_file_name: String,
}

/// The name of the kept copy: the identifier, an underscore, the name.
pub open spec fn local_file_name(id: Seq<char>, name: Seq<char>) -> Seq<char> {
    id + "_"@ + name
}

/// A file to be queued under identifier `id`, whose path's last component
/// is `name` (`unknown` when there is none).
pub fn queued_file_from(id: String, name: Option<String>) -> (q: QueuedFile)
    ensures
        q.id@ == id@,
        q.file_name@ == match name {
            Some(n) => n@,
            None => "unknown"@,
        },
        q.local_file_name@ == local_file_name(id@, q.file_name@),
{
    let file_name = match name {
        Some(n) => n,
        None => String::from_str("unknown"),
    };
    let local = id.clone().concat("_").concat(file_name.as_str());
    QueuedFile { id, file_name, local_file_name: local }
}

/// A file at `file_path` about to be queued, under a fresh identifier.
pub fn prepare_queued_file(file_path: &str) -> (q: QueuedFile)
    ensures
        is_uuid_v4_text(q.id@),
        q.file_name@ == display_name(file_path@),
        q.local_file_name@ == local_file_name(q.id@, q.file_name@),
{
    let id = new_v4_text();
    let name = path_file_name(file_path);
    queued_file_from(id, name)
}

/// What is recorded when a file is queued: its record and its chunk rows.
pub struct QueueEntry {
    pub record: UploadRecord,
    pub chunks: Vec<NewChunk>,
}

/// What is recorded for `file`, kept at `local_path`, of `file_size` bytes,
/// queued at `queued_at`.
pub fn queue_entry_at(file: QueuedFile, local_path: String, file_size: i64, queued_at: String) -> (e: QueueEntry)
    ensures
        queued_record(e.record, file.id@, file.file_name@, local_path@, file_size as int, queued_at@),
        planned_rows(e.chunks@, file.id@, file_size as int),
{
    let chunks = chunk_rows(&file.id, file_size);
    let record = new_upload_record(file.id, file.file_name, local_path, file_size, queued_at);
    QueueEntry { record, chunks }
}

/// What is recorded for `file`, kept at `local_path`, of `file_size` bytes,
/// queued now.
pub fn queue_entry(file: QueuedFile, local_path: String, file_size: i64) -> (e: QueueEntry)
    ensures
        queued_record(e.record, file.id@, file.file_name@, local_path@, file_size as int, e.record.queued_at@),
        is_rfc3339_text(e.record.queued_at@),
        planned_rows(e.chunks@, file.id@, file_size as int),
{
    let queued_at = local_timestamp();
    queue_entry_at(file, local_path, file_size, queued_at)
}

/// What looking the device's identifier up in the settings gave.
pub enum DeviceLookup {
    /// The database could not be opened.
    NoDatabase,
    /// An identifier is stored.
    Found(String),
    /// None is stored (or it could not be read).
    Missing,
}

/// The device's identifier, and whether it is to be stored.
pub struct DeviceId {
    pub id: String,
    pub store: bool,
}

/// The device's identifier after `lookup`: the stored one when there is
/// one, else `fresh`, which is to be stored only when the database opened.
pub fn device_id_from(lookup: DeviceLookup, fresh: String) -> (d: DeviceId)
    ensures
        match lookup {
            DeviceLookup::Found(id) => d.id@ == id@ && !d.store,
            DeviceLookup::NoDatabase => d.id@ == fresh@ && !d.store,
            DeviceLookup::Missing => d.id@ == fresh@ && d.store,
        },
{
    match lookup {
        DeviceLookup::Found(id) => DeviceId { id, store: false },
        DeviceLookup::NoDatabase => DeviceId { id: fresh, store: false },
        DeviceLookup::Missing => DeviceId { id: fresh, store: true },
    }
}

/// The device's identifier after `lookup`, drawing a fresh random one when
/// none is stored.
pub fn resolve_device_id(lookup: DeviceLookup) -> (d: DeviceId)
    ensures
        match lookup {
            DeviceLookup::Found(id) => d.id@ == id@ && !d.store,
            DeviceLookup::NoDatabase => is_uuid_v4_text(d.id@) && !d.store,
            DeviceLookup::Missing => is_uuid_v4_text(d.id@) && d.store,
        },
{
    match lookup {
        DeviceLookup::Found(id) => DeviceId { id, store: false },
        other => {
            let fresh = new_v4_text();
            device_id_from(other, fresh)
        },
    }
}

} // verus!
