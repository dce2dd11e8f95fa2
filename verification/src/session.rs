//! One attempt to upload a queued file to the document server.
//!
//! The attempt alternates work outside (reading the file, posting to the
//! server, writing the queue) and decisions. The decisions are a state
//! machine: `UploadSession::step` takes what the last request gave and
//! returns the next writes and request to make. A file of one chunk is
//! posted whole; a longer one (or an empty one) goes through the multipart
//! protocol: init, one request per chunk not yet sent, complete.
use vstd::prelude::*;
use crate::text::text_of;
use crate::chunking::{slices_of, split_chunks};
use crate::parts::{Part, PartView, parts_view, sort_by_number, sort_parts};
use crate::records::UploadStatus;

verus! {

/// The largest number of chunks (already sent and still to send) for which
/// a progress percentage is computed without overflow.
pub open spec fn progress_limit() -> int {
    0x7fff_ffff_ffff_ffffint / 100int
}

/// The document server.
pub open spec fn server_url() -> Seq<char> {
    "http://192.168.1.81:3002"@
}

/// Where a file of one chunk is posted whole.
pub open spec fn whole_url() -> Seq<char> {
    server_url() + "/documents/upload"@
}

/// Where a multipart upload starts.
pub open spec fn init_url() -> Seq<char> {
    server_url() + "/documents/multipart/init"@
}

/// Where each part of a multipart upload goes.
pub open spec fn part_url() -> Seq<char> {
    server_url() + "/documents/multipart/part"@
}

/// Where a multipart upload is completed.
pub open spec fn complete_url() -> Seq<char> {
    server_url() + "/documents/multipart/complete"@
}

/// The content type under which every byte is sent.
pub open spec fn octet_stream() -> Seq<char> {
    "application/octet-stream"@
}

/// Where an attempt stands.
#[derive(Clone, Copy, Debug, PartialEq, Eq, Structural)]
pub enum Phase {
    /// Nothing done yet.
    Start,
    /// Waiting for the file's bytes.
    Reading,
    /// Waiting for the reply to the whole-file post.
    SendingWhole,
    /// Waiting for the device's identifier.
    AwaitingDeviceId,
    /// Waiting for the reply to the multipart init.
    Initiating,
    /// Waiting for the chunks already sent in an earlier attempt.
    LoadingDone,
    /// Waiting for the reply to the part at the cursor.
    SendingPart,
    /// Waiting for the reply to the multipart complete.
    Completing,
    /// The attempt is over.
    Finished,
}

/// A server's reply to a post whose body is not read on success.
pub enum Reply {
    /// A success status.
    Success,
    /// Another status (as the server's status line gives it) and the body.
    Status { status: String, body: String },
    /// The request did not complete.
    Transport { error: String },
}

/// The server's reply to the multipart init.
pub enum InitReply {
    /// The upload started under these names.
    Started { upload_id: String, object_name: String },
    /// A success status whose body could not be read.
    Unreadable { error: String },
    /// Another status and the body.
    Status { status: String, body: String },
    /// The request did not complete.
    Transport { error: String },
}

/// The server's reply to one part.
pub enum PartReply {
    /// The part was accepted.
    Accepted(Part),
    /// A success status whose body could not be read.
    Unreadable { error: String },
    /// Another status.
    Status { status: String },
    /// The request did not complete.
    Transport { error: String },
}

/// What the outside work last gave.
pub enum SessionEvent {
    /// The attempt starts.
    Begin,
    /// The file's bytes.
    FileRead(Vec<u8>),
    /// The file could not be read.
    FileUnreadable(String),
    /// The reply to the whole-file post.
    WholeSent(Reply),
    /// The device's identifier.
    DeviceId(String),
    /// The reply to the multipart init.
    InitReplied(InitReply),
    /// The chunks recorded as done: their indices, and their parts.
    DoneChunks { indices: Vec<i64>, parts: Vec<Part> },
    /// The queue could not be read.
    DoneChunksUnavailable,
    /// The reply to the part at the cursor.
    PartReplied(PartReply),
    /// The reply to the multipart complete.
    CompleteReplied(Reply),
}

/// Work to be done outside, in order.
pub enum SessionAction {
    /// Set the upload uploading and clear its error.
    MarkUploading,
    /// Read the file kept at `path`.
    ReadFile { path: String },
    /// Post the whole file.
    SendWhole { url: String, file_name: String, content_type: String, bytes: Vec<u8> },
    /// Set the upload completed (progress 100, `done_chunks`, uploaded now);
    /// with `chunks_done`, set all its chunks done, sent now.
    MarkCompleted { done_chunks: i64, chunks_done: bool },
    /// Set the upload's status, progress, done chunks and error.
    SetStatus { status: UploadStatus, progress: i64, done_chunks: i64, error: Option<String> },
    /// Find the device's identifier.
    FetchDeviceId,
    /// Start a multipart upload.
    SendInit { url: String, file_name: String, content_type: String, client_id: String },
    /// Read the chunks of this upload recorded as done, and their parts.
    LoadDoneChunks,
    /// Set a chunk uploading.
    MarkChunkUploading { chunk_index: i64 },
    /// Post one part.
    SendPart {
        url: String,
        upload_id: String,
        object_name: String,
        part_number: i64,
        content_length: u64,
        file_name: String,
        content_type: String,
        bytes: Vec<u8>,
    },
    /// Set a chunk done, sent now, with the server's entity tag.
    MarkChunkDone { chunk_index: i64, etag: String },
    /// Set a chunk failed with an error.
    MarkChunkFailed { chunk_index: i64, error: String },
    /// Complete the multipart upload with these parts.
    SendComplete { url: String, object_name: String, upload_id: String, parts: Vec<Part>, content_type: String },
}

pub enum ReplyView {
    Success,
    Status { status: Seq<char>, body: Seq<char> },
    Transport { error: Seq<char> },
}

pub enum InitReplyView {
    Started { upload_id: Seq<char>, object_name: Seq<char> },
    Unreadable { error: Seq<char> },
    Status { status: Seq<char>, body: Seq<char> },
    Transport { error: Seq<char> },
}

pub enum PartReplyView {
    Accepted(PartView),
    Unreadable { error: Seq<char> },
    Status { status: Seq<char> },
    Transport { error: Seq<char> },
}

pub enum EventView {
    Begin,
    FileRead(Seq<u8>),
    FileUnreadable(Seq<char>),
    WholeSent(ReplyView),
    DeviceId(Seq<char>),
    InitReplied(InitReplyView),
    DoneChunks { indices: Seq<i64>, parts: Seq<PartView> },
    DoneChunksUnavailable,
    PartReplied(PartReplyView),
    CompleteReplied(ReplyView),
}

pub enum ActionView {
    MarkUploading,
    ReadFile { path: Seq<char> },
    SendWhole { url: Seq<char>, file_name: Seq<char>, content_type: Seq<char>, bytes: Seq<u8> },
    MarkCompleted { done_chunks: i64, chunks_done: bool },
    SetStatus { status: UploadStatus, progress: i64, done_chunks: i64, error: Option<Seq<char>> },
    FetchDeviceId,
    SendInit { url: Seq<char>, file_name: Seq<char>, content_type: Seq<char>, client_id: Seq<char> },
    LoadDoneChunks,
    MarkChunkUploading { chunk_index: i64 },
    SendPart {
        url: Seq<char>,
        upload_id: Seq<char>,
        object_name: Seq<char>,
        part_number: i64,
        content_length: u64,
        file_name: Seq<char>,
        content_type: Seq<char>,
        bytes: Seq<u8>,
    },
    MarkChunkDone { chunk_index: i64, etag: Seq<char> },
    MarkChunkFailed { chunk_index: i64, error: Seq<char> },
    SendComplete {
        url: Seq<char>,
        object_name: Seq<char>,
        upload_id: Seq<char>,
        parts: Seq<PartView>,
        content_type: Seq<char>,
    },
}

impl View for Reply {
    type V = ReplyView;

    open spec fn view(&self) -> ReplyView {
        match self {
            Reply::Success => ReplyView::Success,
            Reply::Status { status, body } => ReplyView::Status { status: status@, body: body@ },
            Reply::Transport { error } => ReplyView::Transport { error: error@ },
        }
    }
}

impl View for InitReply {
    type V = InitReplyView;

    open spec fn view(&self) -> InitReplyView {
        match self {
            InitReply::Started { upload_id, object_name } => InitReplyView::Started {
                upload_id: upload_id@,
                object_name: object_name@,
            },
            InitReply::Unreadable { error } => InitReplyView::Unreadable { error: error@ },
            InitReply::Status { status, body } => InitReplyView::Status { status: status@, body: body@ },
            InitReply::Transport { error } => InitReplyView::Transport { error: error@ },
        }
    }
}

impl View for PartReply {
    type V = PartReplyView;

    open spec fn view(&self) -> PartReplyView {
        match self {
            PartReply::Accepted(p) => PartReplyView::Accepted(p@),
            PartReply::Unreadable { error } => PartReplyView::Unreadable { error: error@ },
            PartReply::Status { status } => PartReplyView::Status { status: status@ },
            PartReply::Transport { error } => PartReplyView::Transport { error: error@ },
        }
    }
}

impl View for SessionEvent {
    type V = EventView;

    open spec fn view(&self) -> EventView {
        match self {
            SessionEvent::Begin => EventView::Begin,
            SessionEvent::FileRead(b) => EventView::FileRead(b@),
            SessionEvent::FileUnreadable(e) => EventView::FileUnreadable(e@),
            SessionEvent::WholeSent(r) => EventView::WholeSent(r@),
            SessionEvent::DeviceId(c) => EventView::DeviceId(c@),
            SessionEvent::InitReplied(r) => EventView::InitReplied(r@),
            SessionEvent::DoneChunks { indices, parts } => EventView::DoneChunks {
                indices: indices@,
                parts: parts_view(parts@),
            },
            SessionEvent::DoneChunksUnavailable => EventView::DoneChunksUnavailable,
            SessionEvent::PartReplied(r) => EventView::PartReplied(r@),
            SessionEvent::CompleteReplied(r) => EventView::CompleteReplied(r@),
        }
    }
}

impl View for SessionAction {
    type V = ActionView;

    open spec fn view(&self) -> ActionView {
        match self {
            SessionAction::MarkUploading => ActionView::MarkUploading,
            SessionAction::ReadFile { path } => ActionView::ReadFile { path: path@ },
            SessionAction::SendWhole { url, file_name, content_type, bytes } => ActionView::SendWhole {
                url: url@,
                file_name: file_name@,
                content_type: content_type@,
                bytes: bytes@,
            },
            SessionAction::MarkCompleted { done_chunks, chunks_done } => ActionView::MarkCompleted {
                done_chunks: *done_chunks,
                chunks_done: *chunks_done,
            },
            SessionAction::SetStatus { status, progress, done_chunks, error } => ActionView::SetStatus {
                status: *status,
                progress: *progress,
                done_chunks: *done_chunks,
                error: match error {
                    Some(e) => Some(e@),
                    None => None,
                },
            },
            SessionAction::FetchDeviceId => ActionView::FetchDeviceId,
            SessionAction::SendInit { url, file_name, content_type, client_id } => ActionView::SendInit {
                url: url@,
                file_name: file_name@,
                content_type: content_type@,
                client_id: client_id@,
            },
            SessionAction::LoadDoneChunks => ActionView::LoadDoneChunks,
            SessionAction::MarkChunkUploading { chunk_index } => ActionView::MarkChunkUploading {
                chunk_index: *chunk_index,
            },
            SessionAction::SendPart {
                url,
                upload_id,
                object_name,
                part_number,
                content_length,
                file_name,
                content_type,
                bytes,
            } => ActionView::SendPart {
                url: url@,
                upload_id: upload_id@,
                object_name: object_name@,
                part_number: *part_number,
                content_length: *content_length,
                file_name: file_name@,
                content_type: content_type@,
                bytes: bytes@,
            },
            SessionAction::MarkChunkDone { chunk_index, etag } => ActionView::MarkChunkDone {
                chunk_index: *chunk_index,
                etag: etag@,
            },
            SessionAction::MarkChunkFailed { chunk_index, error } => ActionView::MarkChunkFailed {
                chunk_index: *chunk_index,
                error: error@,
            },
            SessionAction::SendComplete { url, object_name, upload_id, parts, content_type } =>
                ActionView::SendComplete {
                url: url@,
                object_name: object_name@,
                upload_id: upload_id@,
                parts: parts_view(parts@),
                content_type: content_type@,
            },
        }
    }
}

/// The plain values of a list of actions.
pub open spec fn actions_view(v: Seq<SessionAction>) -> Seq<ActionView> {
    v.map_values(|a: SessionAction| a@)
}

/// An attempt, as plain values.
#[verifier::ext_equal]
pub struct SessionView {
    pub id: Seq<char>,
    pub file_name: Seq<char>,
    pub local_path: Seq<char>,
    pub phase: Phase,
    /// The file's bytes, once read.
    pub file: Seq<u8>,
    /// Its slices.
    pub chunks: Seq<Seq<u8>>,
    pub upload_id: Seq<char>,
    pub object_name: Seq<char>,
    /// Chunks recorded as done before this attempt sent any.
    pub done_indices: Seq<i64>,
    /// Parts to hand in at completion: those recorded, then those accepted.
    pub parts: Seq<PartView>,
    /// Chunks accepted in this attempt, in order.
    pub uploaded: Seq<i64>,
    /// Chunks counted as done.
    pub done_count: int,
    /// The chunk being sent (in `SendingPart`), or where sending stopped.
    pub cursor: int,
}

/// The attempt is over.
pub open spec fn finish(s: SessionView) -> SessionView {
    SessionView { phase: Phase::Finished, ..s }
}

/// The attempt ends with the upload failed: progress 0, `done` chunks, the
/// error.
pub open spec fn fail(s: SessionView, done: int, error: Seq<char>) -> (SessionView, Seq<ActionView>) {
    (
        finish(s),
        seq![
            ActionView::SetStatus {
                status: UploadStatus::Failed,
                progress: 0,
                done_chunks: done as i64,
                error: Some(error),
            },
        ],
    )
}

/// The attempt ends with the part at the cursor failed.
pub open spec fn part_failed(s: SessionView, error: Seq<char>) -> (SessionView, Seq<ActionView>) {
    (
        finish(s),
        seq![
            ActionView::MarkChunkFailed { chunk_index: s.cursor as i64, error },
            ActionView::SetStatus {
                status: UploadStatus::Failed,
                progress: 0,
                done_chunks: s.done_count as i64,
                error: Some(error),
            },
        ],
    )
}

/// The first chunk index from `from` on (below `total`) that is not
/// recorded as done; `total` when there is none.
pub open spec fn next_pending(done: Seq<i64>, from: int, total: int) -> int
    decreases total - from,
{
    if from >= total {
        total
    } else if done.contains(from as i64) {
        next_pending(done, from + 1, total)
    } else {
        from
    }
}

/// The requests for chunk `j`: mark it uploading, post it as part `j + 1`.
pub open spec fn part_requests(s: SessionView, j: int) -> Seq<ActionView> {
    seq![
        ActionView::MarkChunkUploading { chunk_index: j as i64 },
        ActionView::SendPart {
            url: part_url(),
            upload_id: s.upload_id,
            object_name: s.object_name,
            part_number: (j + 1) as i64,
            content_length: s.chunks[j].len() as u64,
            file_name: s.file_name,
            content_type: octet_stream(),
            bytes: s.chunks[j],
        },
    ]
}

/// The request that completes the upload: the parts ordered by number.
pub open spec fn complete_request(s: SessionView) -> ActionView {
    ActionView::SendComplete {
        url: complete_url(),
        object_name: s.object_name,
        upload_id: s.upload_id,
        parts: sort_by_number(s.parts),
        content_type: octet_stream(),
    }
}

/// Going on from chunk `from`: post the next chunk not recorded as done, or
/// complete when there is none left (the parts then stand ordered by
/// number).
pub open spec fn advance(s: SessionView, from: int) -> (SessionView, Seq<ActionView>) {
    let j = next_pending(s.done_indices, from, s.chunks.len() as int);
    if j < s.chunks.len() {
        (SessionView { phase: Phase::SendingPart, cursor: j, ..s }, part_requests(s, j))
    } else {
        (
            SessionView {
                phase: Phase::Completing,
                cursor: s.chunks.len() as int,
                parts: sort_by_number(s.parts),
                ..s
            },
            seq![complete_request(s)],
        )
    }
}

/// What an attempt does with an event: its next state and the work to do,
/// in order. An event the attempt is not waiting for changes nothing.
pub open spec fn session_step(s: SessionView, e: EventView) -> (SessionView, Seq<ActionView>) {
    let ignore = (s, Seq::<ActionView>::empty());
    match e {
        EventView::Begin => if s.phase == Phase::Start {
            (
                SessionView { phase: Phase::Reading, ..s },
                seq![ActionView::MarkUploading, ActionView::ReadFile { path: s.local_path }],
            )
        } else {
            ignore
        },
        EventView::FileRead(bytes) => if s.phase == Phase::Reading {
            let chunks = slices_of(bytes);
            if chunks.len() == 1 {
                (
                    SessionView { phase: Phase::SendingWhole, file: bytes, chunks, ..s },
                    seq![
                        ActionView::SendWhole {
                            url: whole_url(),
                            file_name: s.file_name,
                            content_type: octet_stream(),
                            bytes,
                        },
                    ],
                )
            } else {
                (
                    SessionView { phase: Phase::AwaitingDeviceId, file: bytes, chunks, ..s },
                    seq![ActionView::FetchDeviceId],
                )
            }
        } else {
            ignore
        },
        EventView::FileUnreadable(error) => if s.phase == Phase::Reading {
            fail(s, 0, error)
        } else {
            ignore
        },
        EventView::WholeSent(r) => if s.phase == Phase::SendingWhole {
            match r {
                ReplyView::Success => (
                    finish(s),
                    seq![ActionView::MarkCompleted { done_chunks: 1, chunks_done: true }],
                ),
                ReplyView::Status { status, body } => fail(s, 0, "Upload failed: status="@ + status),
                ReplyView::Transport { error } => fail(s, 0, error),
            }
        } else {
            ignore
        },
        EventView::DeviceId(client_id) => if s.phase == Phase::AwaitingDeviceId {
            (
                SessionView { phase: Phase::Initiating, ..s },
                seq![
                    ActionView::SendInit {
                        url: init_url(),
                        file_name: s.file_name,
                        content_type: octet_stream(),
                        client_id,
                    },
                ],
            )
        } else {
            ignore
        },
        EventView::InitReplied(r) => if s.phase == Phase::Initiating {
            match r {
                InitReplyView::Started { upload_id, object_name } => (
                    SessionView { phase: Phase::LoadingDone, upload_id, object_name, ..s },
                    seq![ActionView::LoadDoneChunks],
                ),
                InitReplyView::Unreadable { error } => fail(s, 0, error),
                InitReplyView::Status { status, body } => fail(
                    s,
                    0,
                    "Init failed: status="@ + status + " body="@ + body,
                ),
                InitReplyView::Transport { error } => fail(s, 0, error),
            }
        } else {
            ignore
        },
        EventView::DoneChunks { indices, parts } => if s.phase == Phase::LoadingDone {
            advance(
                SessionView {
                    done_indices: indices,
                    parts,
                    uploaded: Seq::empty(),
                    done_count: indices.len() as int,
                    ..s
                },
                0,
            )
        } else {
            ignore
        },
        EventView::DoneChunksUnavailable => if s.phase == Phase::LoadingDone {
            (finish(s), Seq::empty())
        } else {
            ignore
        },
        EventView::PartReplied(r) => if s.phase == Phase::SendingPart {
            match r {
                PartReplyView::Accepted(p) => {
                    let done = s.done_count + 1;
                    let i = s.cursor;
                    let s2 = SessionView {
                        parts: s.parts.push(p),
                        uploaded: s.uploaded.push(i as i64),
                        done_count: done,
                        ..s
                    };
                    let next = advance(s2, i + 1);
                    (
                        next.0,
                        seq![
                            ActionView::MarkChunkDone { chunk_index: i as i64, etag: p.etag },
                            ActionView::SetStatus {
                                status: UploadStatus::Uploading,
                                progress: (done * 100 / (s.chunks.len() as int)) as i64,
                                done_chunks: done as i64,
                                error: None,
                            },
                        ] + next.1,
                    )
                },
                PartReplyView::Unreadable { error } => part_failed(s, error),
                PartReplyView::Status { status } => part_failed(s, "Part failed: status="@ + status),
                PartReplyView::Transport { error } => part_failed(s, error),
            }
        } else {
            ignore
        },
        EventView::CompleteReplied(r) => if s.phase == Phase::Completing {
            match r {
                ReplyView::Success => (
                    finish(s),
                    seq![
                        ActionView::MarkCompleted {
                            done_chunks: s.chunks.len() as i64,
                            chunks_done: false,
                        },
                    ],
                ),
                ReplyView::Status { status, body } => fail(
                    s,
                    s.done_count,
                    "Complete failed: status="@ + status + " body="@ + body,
                ),
                ReplyView::Transport { error } => fail(s, s.done_count, error),
            }
        } else {
            ignore
        },
    }
}

/// Events the attempt can take without its counts overflowing: the chunks
/// recorded as done, together with the file's chunks, must be few enough
/// for a percentage of them to be computed.
pub open spec fn event_fits(s: SessionView, e: EventView) -> bool {
    match e {
        EventView::DoneChunks { indices, parts } => indices.len() + s.chunks.len() <= progress_limit(),
        _ => true,
    }
}

/// The state of an attempt.
struct SessionState {
    id: String,
    file_name: String,
    local_path: String,
    phase: Phase,
    file: Ghost<Seq<u8>>,
    chunks: Vec<Vec<u8>>,
    upload_id: String,
    object_name: String,
    done_indices: Vec<i64>,
    parts: Vec<Part>,
    uploaded: Vec<i64>,
    done_count: i64,
    cursor: usize,
}

impl View for SessionState {
    type V = SessionView;

    closed spec fn view(&self) -> SessionView {
        SessionView {
            id: self.id@,
            file_name: self.file_name@,
            local_path: self.local_path@,
            phase: self.phase,
            file: self.file@,
            chunks: self.chunks@.map_values(|c: Vec<u8>| c@),
            upload_id: self.upload_id@,
            object_name: self.object_name@,
            done_indices: self.done_indices@,
            parts: parts_view(self.parts@),
            uploaded: self.uploaded@,
            done_count: self.done_count as int,
            cursor: self.cursor as int,
        }
    }
}

/// The state in which an attempt on the file `id`, named `file_name`, kept
/// at `local_path`, starts.
pub open spec fn initial_session(id: Seq<char>, file_name: Seq<char>, local_path: Seq<char>) -> SessionView {
    SessionView {
        id,
        file_name,
        local_path,
        phase: Phase::Start,
        file: Seq::empty(),
        chunks: Seq::empty(),
        upload_id: Seq::empty(),
        object_name: Seq::empty(),
        done_indices: Seq::empty(),
        parts: Seq::empty(),
        uploaded: Seq::empty(),
        done_count: 0,
        cursor: 0,
    }
}

fn copy_part(p: &Part) -> (q: Part)
    ensures
        q@ == p@,
{
    Part { part_number: p.part_number, etag: p.etag.clone() }
}

fn copy_parts(v: &Vec<Part>) -> (w: Vec<Part>)
    ensures
        parts_view(w@) == parts_view(v@),
{
    let mut w: Vec<Part> = Vec::new();
    let mut i: usize = 0;
    while i < v.len()
        invariant
            i <= v@.len(),
            w@.len() == i,
            forall|k: int| 0 <= k < i ==> (#[trigger] w@[k])@ == v@[k]@,
        decreases v@.len() - i,
    {
        w.push(copy_part(&v[i]));
        i = i + 1;
    }
    assert(parts_view(w@) =~= parts_view(v@));
    w
}

fn contains_index(v: &Vec<i64>, x: i64) -> (b: bool)
    ensures
        b == v@.contains(x),
{
    let mut i: usize = 0;
    while i < v.len()
        invariant
            i <= v@.len(),
            forall|k: int| 0 <= k < i ==> v@[k] != x,
        decreases v@.len() - i,
    {
        if v[i] == x {
            return true;
        }
        i = i + 1;
    }
    false
}

proof fn lemma_next_pending_skip(done: Seq<i64>, j: int, total: int)
    requires
        j < total,
        done.contains(j as i64),
    ensures
        next_pending(done, j, total) == next_pending(done, j + 1, total),
{
}

impl SessionState {
    /// The chunks are the file's slices, and the chunks counted as done are
    /// those recorded before plus those accepted since.
    spec fn wf_core(&self) -> bool {
        &&& self@.chunks == slices_of(self@.file)
        &&& self@.file.len() <= usize::MAX
        &&& self.done_count as int == self.done_indices@.len() + self.uploaded@.len()
    }

    /// The bounds under which the attempt's counts stay exact.
    spec fn wf(&self) -> bool {
        &&& self.wf_core()
        &&& (self.phase == Phase::SendingPart || self.phase == Phase::Completing) ==> {
            &&& self.done_indices@.len() + self.chunks@.len() <= progress_limit()
            &&& self.uploaded@.len() <= self.cursor <= self.chunks@.len()
        }
        &&& self.phase == Phase::SendingPart ==> self.cursor < self.chunks@.len()
    }

    /// An attempt on the file `id`, named `file_name`, kept at `local_path`.
    fn new(id: String, file_name: String, local_path: String) -> (s: SessionState)
        ensures
            s.wf(),
            s@ == initial_session(id@, file_name@, local_path@),
    {
        let s = SessionState {
            id,
            file_name,
            local_path,
            phase: Phase::Start,
            file: Ghost(Seq::empty()),
            chunks: Vec::new(),
            upload_id: String::new(),
            object_name: String::new(),
            done_indices: Vec::new(),
            parts: Vec::new(),
            uploaded: Vec::new(),
            done_count: 0,
            cursor: 0,
        };
        proof {
            assert(slices_of(Seq::<u8>::empty()) =~= Seq::<Seq<u8>>::empty());
            assert(s@ =~= initial_session(s.id@, s.file_name@, s.local_path@));
        }
        s
    }


    /// Posts the next chunk from `from` on that is not recorded as done, or
    /// completes.
    fn advance_from(&mut self, from: usize, actions: &mut Vec<SessionAction>)
        requires
            old(self).wf_core(),
            old(self).done_indices@.len() + old(self).chunks@.len() <= progress_limit(),
            old(self).uploaded@.len() <= from <= old(self).chunks@.len(),
        ensures
            final(self).wf(),
            final(self)@ == advance(old(self)@, from as int).0,
            actions_view(final(actions)@) == actions_view(old(actions)@) + advance(old(self)@, from as int).1,
    {
        let total = self.chunks.len();
        let mut j = from;
        while j < total && contains_index(&self.done_indices, j as i64)
            invariant
                total == self.chunks@.len(),
                total <= progress_limit(),
                from <= j <= total,
                next_pending(self.done_indices@, from as int, total as int) == next_pending(
                    self.done_indices@,
                    j as int,
                    total as int,
                ),
            decreases total - j,
        {
            proof {
                lemma_next_pending_skip(self.done_indices@, j as int, total as int);
            }
            j = j + 1;
        }
        let ghost old_self = self@;
        let ghost old_actions = actions@;
        if j < total {
            assert(next_pending(self.done_indices@, j as int, total as int) == j);
            let bytes = vstd::slice::slice_to_vec(self.chunks[j].as_slice());
            let len = self.chunks[j].len();
            assert(self@.chunks[j as int] == self.chunks@[j as int]@);
            self.phase = Phase::SendingPart;
            self.cursor = j;
            actions.push(SessionAction::MarkChunkUploading { chunk_index: j as i64 });
            actions.push(
                SessionAction::SendPart {
                    url: text_of("http://192.168.1.81:3002").concat("/documents/multipart/part"),
                    upload_id: self.upload_id.clone(),
                    object_name: self.object_name.clone(),
                    part_number: (j + 1) as i64,
                    content_length: len as u64,
                    file_name: self.file_name.clone(),
                    content_type: text_of("application/octet-stream"),
                    bytes,
                },
            );
            proof {
                assert(self@ =~= advance(old_self, from as int).0);
                assert(actions_view(actions@) =~= actions_view(old_actions) + advance(old_self, from as int).1);
            }
        } else {
            let sorted = sort_parts(copy_parts(&self.parts));
            let handed = copy_parts(&sorted);
            self.parts = sorted;
            self.phase = Phase::Completing;
            self.cursor = total;
            actions.push(
                SessionAction::SendComplete {
                    url: text_of("http://192.168.1.81:3002").concat("/documents/multipart/complete"),
                    object_name: self.object_name.clone(),
                    upload_id: self.upload_id.clone(),
                    parts: handed,
                    content_type: text_of("application/octet-stream"),
                },
            );
            proof {
                assert(self@ =~= advance(old_self, from as int).0);
                assert(actions_view(actions@) =~= actions_view(old_actions) + advance(old_self, from as int).1);
            }
        }
    }

    /// Takes what the last request gave (or `Begin`), and returns the work
    /// to do next, in order; the last item, if the attempt is not over, is
    /// the request whose result is the next event.
    fn step(&mut self, event: SessionEvent) -> (actions: Vec<SessionAction>)
        requires
            old(self).wf(),
            event_fits(old(self)@, event@),
        ensures
            final(self).wf(),
            final(self)@ == session_step(old(self)@, event@).0,
            actions_view(actions@) == session_step(old(self)@, event@).1,
    {
        let ghost s0 = self@;
        let ghost e0 = event@;
        let mut actions: Vec<SessionAction> = Vec::new();
        match event {
            SessionEvent::Begin => {
                if self.phase == Phase::Start {
                    self.phase = Phase::Reading;
                    actions.push(SessionAction::MarkUploading);
                    actions.push(SessionAction::ReadFile { path: self.local_path.clone() });
                }
            },
            SessionEvent::FileRead(bytes) => {
                if self.phase == Phase::Reading {
                    let file_len = bytes.len();
                    assert(bytes@.len() == file_len);
                    let chunks = split_chunks(bytes.as_slice());
                    self.chunks = chunks;
                    self.file = Ghost(bytes@);
                    if self.chunks.len() == 1 {
                        self.phase = Phase::SendingWhole;
                        actions.push(
                            SessionAction::SendWhole {
                                url: text_of("http://192.168.1.81:3002").concat("/documents/upload"),
                                file_name: self.file_name.clone(),
                                content_type: text_of("application/octet-stream"),
                                bytes,
                            },
                        );
                    } else {
                        self.phase = Phase::AwaitingDeviceId;
                        actions.push(SessionAction::FetchDeviceId);
                    }
                }
            },
            SessionEvent::FileUnreadable(error) => {
                if self.phase == Phase::Reading {
                    self.fail(0, error, &mut actions);
                }
            },
            SessionEvent::WholeSent(reply) => {
                if self.phase == Phase::SendingWhole {
                    match reply {
                        Reply::Success => {
                            self.phase = Phase::Finished;
                            actions.push(SessionAction::MarkCompleted { done_chunks: 1, chunks_done: true });
                        },
                        Reply::Status { status, body } => {
                            let msg = text_of("Upload failed: status=").concat(status.as_str());
                            self.fail(0, msg, &mut actions);
                        },
                        Reply::Transport { error } => {
                            self.fail(0, error, &mut actions);
                        },
                    }
                }
            },
            SessionEvent::DeviceId(client_id) => {
                if self.phase == Phase::AwaitingDeviceId {
                    self.phase = Phase::Initiating;
                    actions.push(
                        SessionAction::SendInit {
                            url: text_of("http://192.168.1.81:3002").concat("/documents/multipart/init"),
                            file_name: self.file_name.clone(),
                            content_type: text_of("application/octet-stream"),
                            client_id,
                        },
                    );
                }
            },
            SessionEvent::InitReplied(reply) => {
                if self.phase == Phase::Initiating {
                    match reply {
                        InitReply::Started { upload_id, object_name } => {
                            self.phase = Phase::LoadingDone;
                            self.upload_id = upload_id;
                            self.object_name = object_name;
                            actions.push(SessionAction::LoadDoneChunks);
                        },
                        InitReply::Unreadable { error } => {
                            self.fail(0, error, &mut actions);
                        },
                        InitReply::Status { status, body } => {
                            let msg = text_of("Init failed: status=").concat(status.as_str()).concat(
                                " body=",
                            ).concat(body.as_str());
                            self.fail(0, msg, &mut actions);
                        },
                        InitReply::Transport { error } => {
                            self.fail(0, error, &mut actions);
                        },
                    }
                }
            },
            SessionEvent::DoneChunks { indices, parts } => {
                if self.phase == Phase::LoadingDone {
                    let n = indices.len();
                    let ghost e_indices = indices@;
                    let ghost e_parts = parts_view(parts@);
                    self.done_indices = indices;
                    self.parts = parts;
                    self.uploaded = Vec::new();
                    self.done_count = n as i64;
                    proof {
                        assert(self@ =~= SessionView {
                            done_indices: e_indices,
                            parts: e_parts,
                            uploaded: Seq::empty(),
                            done_count: e_indices.len() as int,
                            ..s0
                        });
                    }
                    self.advance_from(0, &mut actions);
                }
            },
            SessionEvent::DoneChunksUnavailable => {
                if self.phase == Phase::LoadingDone {
                    self.phase = Phase::Finished;
                }
            },
            SessionEvent::PartReplied(reply) => {
                if self.phase == Phase::SendingPart {
                    match reply {
                        PartReply::Accepted(part) => {
                            let i = self.cursor;
                            let total = self.chunks.len();
                            let done = self.done_count + 1;
                            let etag = part.etag.clone();
                            let ghost part_v = part@;
                            self.parts.push(part);
                            self.uploaded.push(i as i64);
                            self.done_count = done;
                            actions.push(SessionAction::MarkChunkDone { chunk_index: i as i64, etag });
                            actions.push(
                                SessionAction::SetStatus {
                                    status: UploadStatus::Uploading,
                                    progress: done * 100 / (total as i64),
                                    done_chunks: done,
                                    error: None,
                                },
                            );
                            proof {
                                assert(parts_view(self.parts@) =~= s0.parts.push(part_v));
                                assert(self@ =~= SessionView {
                                    parts: s0.parts.push(part_v),
                                    uploaded: s0.uploaded.push(i as i64),
                                    done_count: s0.done_count + 1,
                                    ..s0
                                });
                            }
                            self.advance_from(i + 1, &mut actions);
                        },
                        PartReply::Unreadable { error } => {
                            self.part_failed(error, &mut actions);
                        },
                        PartReply::Status { status } => {
                            let msg = text_of("Part failed: status=").concat(status.as_str());
                            self.part_failed(msg, &mut actions);
                        },
                        PartReply::Transport { error } => {
                            self.part_failed(error, &mut actions);
                        },
                    }
                }
            },
            SessionEvent::CompleteReplied(reply) => {
                if self.phase == Phase::Completing {
                    match reply {
                        Reply::Success => {
                            self.phase = Phase::Finished;
                            actions.push(
                                SessionAction::MarkCompleted {
                                    done_chunks: self.chunks.len() as i64,
                                    chunks_done: false,
                                },
                            );
                        },
                        Reply::Status { status, body } => {
                            let msg = text_of("Complete failed: status=").concat(
                                status.as_str(),
                            ).concat(" body=").concat(body.as_str());
                            let done = self.done_count;
                            self.fail(done, msg, &mut actions);
                        },
                        Reply::Transport { error } => {
                            let done = self.done_count;
                            self.fail(done, error, &mut actions);
                        },
                    }
                }
            },
        }
        proof {
            assert(self@ =~= session_step(s0, e0).0);
            assert(actions_view(actions@) =~= session_step(s0, e0).1);
        }
        actions
    }

    /// Ends the attempt with the upload failed.
    fn fail(&mut self, done: i64, error: String, actions: &mut Vec<SessionAction>)
        requires
            old(self).wf(),
            old(actions)@.len() == 0,
        ensures
            final(self).wf(),
            final(self)@ == fail(old(self)@, done as int, error@).0,
            actions_view(final(actions)@) == fail(old(self)@, done as int, error@).1,
    {
        let ghost s0 = self@;
        self.phase = Phase::Finished;
        actions.push(
            SessionAction::SetStatus { status: UploadStatus::Failed, progress: 0, done_chunks: done, error: Some(error) },
        );
        proof {
            assert(self@ =~= fail(s0, done as int, error@).0);
            assert(actions_view(actions@) =~= fail(s0, done as int, error@).1);
        }
    }

    /// Ends the attempt with the part at the cursor failed.
    fn part_failed(&mut self, error: String, actions: &mut Vec<SessionAction>)
        requires
            old(self).wf(),
            old(self).phase == Phase::SendingPart,
            old(actions)@.len() == 0,
        ensures
            final(self).wf(),
            final(self)@ == part_failed(old(self)@, error@).0,
            actions_view(final(actions)@) == part_failed(old(self)@, error@).1,
    {
        let ghost s0 = self@;
        let i = self.cursor;
        self.phase = Phase::Finished;
        actions.push(SessionAction::MarkChunkFailed { chunk_index: i as i64, error: error.clone() });
        actions.push(
            SessionAction::SetStatus {
                status: UploadStatus::Failed,
                progress: 0,
                done_chunks: self.done_count,
                error: Some(error),
            },
        );
        proof {
            assert(self@ =~= part_failed(s0, error@).0);
            assert(actions_view(actions@) =~= part_failed(s0, error@).1);
        }
    }
}

/// One attempt to upload a queued file.
pub struct UploadSession {
    state: SessionState,
}

impl UploadSession {
    /// The attempt's counts stay within their bounds.
    #[verifier::type_invariant]
    spec fn well_formed(self) -> bool {
        self.state.wf()
    }
}

impl View for UploadSession {
    type V = SessionView;

    closed spec fn view(&self) -> SessionView {
        self.state@
    }
}

impl UploadSession {
    /// An attempt on the file `id`, named `file_name`, kept at `local_path`.
    pub fn new(id: String, file_name: String, local_path: String) -> (s: UploadSession)
        ensures
            s@ == initial_session(id@, file_name@, local_path@),
    {
        UploadSession { state: SessionState::new(id, file_name, local_path) }
    }

    /// Where the attempt stands.
    pub fn phase(&self) -> (p: Phase)
        ensures
            p == self@.phase,
    {
        self.state.phase
    }

    /// The number of chunks of the file, once read.
    pub fn chunk_count(&self) -> (n: usize)
        ensures
            n == self@.chunks.len(),
    {
        self.state.chunks.len()
    }

    /// Takes what the last request gave (or `Begin`), and returns the work
    /// to do next, in order; the last item, if the attempt is not over, is
    /// the request whose result is the next event.
    pub fn step(&mut self, event: SessionEvent) -> (actions: Vec<SessionAction>)
        requires
            event_fits(old(self)@, event@),
        ensures
            final(self)@ == session_step(old(self)@, event@).0,
            actions_view(actions@) == session_step(old(self)@, event@).1,
    {
        proof {
            use_type_invariant(&*self);
        }
        let mut st = SessionState::new(String::new(), String::new(), String::new());
        std::mem::swap(&mut st, &mut self.state);
        let actions = st.step(event);
        self.state = st;
        actions
    }
}

} // verus!
