//! The rows of the upload queue: one record per queued file and one per
//! chunk of it, and the statuses they go through.
use vstd::prelude::*;
use crate::chunking::{planned_total, planned_size, total_chunks_for, chunk_size_at};

verus! {

/// A queued file, as the queue lists it.
pub struct UploadRecord {
    pub id: String,
    pub file_name: String,
    pub local_path: String,
    pub file_size: i64,
    pub status: String,
    pub progress: i64,
    pub total_chunks: i64,
    pub done_chunks: i64,
    pub error_msg: Option<String>,
    pub queued_at: String,
    pub uploaded_at: Option<String>,
}

/// One chunk of a queued file, as the queue lists it.
pub struct ChunkRecord {
    pub id: i64,
    pub upload_id: String,
    pub chunk_index: i64,
    pub total: i64,
    pub status: String,
    pub size_bytes: i64,
    pub sent_at: Option<String>,
    pub error_msg: Option<String>,
}

/// A chunk row to be recorded when a file is queued (its status is
/// "pending").
pub struct NewChunk {
    pub upload_id: String,
    pub chunk_index: i64,
    pub total: i64,
    pub size_bytes: i64,
}

/// Where an upload stands.
#[derive(Clone, Copy, Debug, PartialEq, Eq, Structural)]
pub enum UploadStatus {
    Pending,
    Uploading,
    Completed,
    Failed,
}

/// Where one chunk of an upload stands.
#[derive(Clone, Copy, Debug, PartialEq, Eq, Structural)]
pub enum ChunkStatus {
    Pending,
    Uploading,
    Done,
    Failed,
}

/// The text under which an upload status is stored.
pub open spec fn upload_status_text(s: UploadStatus) -> Seq<char> {
    match s {
        UploadStatus::Pending => "pending"@,
        UploadStatus::Uploading => "uploading"@,
        UploadStatus::Completed => "completed"@,
        UploadStatus::Failed => "failed"@,
    }
}

/// The text under which a chunk status is stored.
pub open spec fn chunk_status_text(s: ChunkStatus) -> Seq<char> {
    match s {
        ChunkStatus::Pending => "pending"@,
        ChunkStatus::Uploading => "uploading"@,
        ChunkStatus::Done => "done"@,
        ChunkStatus::Failed => "failed"@,
    }
}

impl UploadStatus {
    /// The stored text of this status.
    pub fn text(&self) -> (t: String)
        ensures
            t@ == upload_status_text(*self),
    {
        match self {
            UploadStatus::Pending => String::from_str("pending"),
            UploadStatus::Uploading => String::from_str("uploading"),
            UploadStatus::Completed => String::from_str("completed"),
            UploadStatus::Failed => String::from_str("failed"),
        }
    }
}

impl ChunkStatus {
    /// The stored text of this status.
    pub fn text(&self) -> (t: String)
        ensures
            t@ == chunk_status_text(*self),
    {
        match self {
            ChunkStatus::Pending => String::from_str("pending"),
            ChunkStatus::Uploading => String::from_str("uploading"),
            ChunkStatus::Done => String::from_str("done"),
            ChunkStatus::Failed => String::from_str("failed"),
        }
    }
}

/// An upload is picked up again by a retry when it is pending or failed.
pub open spec fn retryable(r: UploadRecord) -> bool {
    r.status@ == "pending"@ || r.status@ == "failed"@
}

/// Whether a retry picks this upload up again.
pub fn is_retryable(r: &UploadRecord) -> (b: bool)
    ensures
        b == retryable(*r),
{
    let pending = String::from_str("pending");
    let failed = String::from_str("failed");
    r.status == pending || r.status == failed
}

/// The uploads that a retry starts again: those that are pending or failed,
/// in the order of the queue.
pub fn retryable_uploads(records: Vec<UploadRecord>) -> (picked: Vec<UploadRecord>)
    ensures
        picked@ == records@.filter(|r: UploadRecord| retryable(r)),
{
    let ghost all = records@;
    let ghost pred = |r: UploadRecord| retryable(r);
    let mut picked: Vec<UploadRecord> = Vec::new();
    let mut rest = records;
    proof {
        assert(all.take(0) =~= Seq::<UploadRecord>::empty());
        reveal_with_fuel(Seq::<_>::filter, 1);
    }
    let ghost mut done: int = 0;
    while rest.len() > 0
        invariant
            0 <= done <= all.len(),
            rest@.len() == all.len() - done,
            rest@ == all.skip(done),
            pred == (|r: UploadRecord| retryable(r)),
            picked@ == all.take(done).filter(pred),
        decreases rest@.len(),
    {
        let r = rest.remove(0);
        proof {
            assert(r == all[done]);
            assert(all.take(done + 1) =~= all.take(done).push(r));
            all.take(done).lemma_filter_push(r, pred);
        }
        let keep = is_retryable(&r);
        assert(pred(r) == keep);
        if keep {
            picked.push(r);
        }
        proof {
            done = done + 1;
        }
    }
    proof {
        assert(all.take(all.len() as int) =~= all);
    }
    picked
}

/// The record of a file just queued: pending, nothing sent yet, with as
/// many chunks as the plan for its size holds.
pub open spec fn queued_record(
    r: UploadRecord,
    id: Seq<char>,
    file_name: Seq<char>,
    local_path: Seq<char>,
    file_size: int,
    queued_at: Seq<char>,
) -> bool {
    &&& r.id@ == id
    &&& r.file_name@ == file_name
    &&& r.local_path@ == local_path
    &&& r.file_size == file_size
    &&& r.status@ == "pending"@
    &&& r.progress == 0
    &&& r.total_chunks == planned_total(file_size)
    &&& r.done_chunks == 0
    &&& r.error_msg is None
    &&& r.queued_at@ == queued_at
    &&& r.uploaded_at is None
}

/// The record of a file just queued.
pub fn new_upload_record(
    id: String,
    file_name: String,
    local_path: String,
    file_size: i64,
    queued_at: String,
) -> (r: UploadRecord)
    ensures
        queued_record(r, id@, file_name@, local_path@, file_size as int, queued_at@),
{
    let total_chunks = total_chunks_for(file_size);
    UploadRecord {
        id,
        file_name,
        local_path,
        file_size,
        status: String::from_str("pending"),
        progress: 0,
        total_chunks,
        done_chunks: 0,
        error_msg: None,
        queued_at,
        uploaded_at: None,
    }
}

/// The chunk rows recorded for a queued file: one per planned chunk, in
/// order, each with its index, the total and its planned size.
pub open spec fn planned_rows(rows: Seq<NewChunk>, upload_id: Seq<char>, file_size: int) -> bool {
    &&& rows.len() == planned_total(file_size)
    &&& forall|i: int|
        0 <= i < rows.len() ==> {
            &&& (#[trigger] rows[i]).upload_id@ == upload_id
            &&& rows[i].chunk_index == i
            &&& rows[i].total == planned_total(file_size)
            &&& rows[i].size_bytes == planned_size(file_size, i)
        }
}

/// The chunk rows recorded for a queued file of `file_size` bytes.
pub fn chunk_rows(upload_id: &String, file_size: i64) -> (rows: Vec<NewChunk>)
    ensures
        planned_rows(rows@, upload_id@, file_size as int),
{
    let total = total_chunks_for(file_size);
    let mut rows: Vec<NewChunk> = Vec::new();
    let mut i: i64 = 0;
    while i < total
        invariant
            0 <= i <= total,
            total == planned_total(file_size as int),
            rows@.len() == i,
            forall|j: int|
                0 <= j < i ==> {
                    &&& (#[trigger] rows@[j]).upload_id@ == upload_id@
                    &&& rows@[j].chunk_index == j
                    &&& rows@[j].total == total
                    &&& rows@[j].size_bytes == planned_size(file_size as int, j)
                },
        decreases total - i,
    {
        let size = chunk_size_at(file_size, i);
        rows.push(NewChunk { upload_id: upload_id.clone(), chunk_index: i, total, size_bytes: size });
        i = i + 1;
    }
    rows
}

} // verus!
