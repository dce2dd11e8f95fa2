use fluxbooks::parts::{sort_parts, Part};
use fluxbooks::records::UploadStatus;
use fluxbooks::session::{
    InitReply, PartReply, Phase, Reply, SessionAction, SessionEvent, UploadSession,
};

const MIB: usize = 1024 * 1024;

fn session() -> UploadSession {
    UploadSession::new("rec1".to_string(), "doc.pdf".to_string(), "/up/rec1_doc.pdf".to_string())
}

fn failed_with(a: &SessionAction, done: i64, msg: &str) -> bool {
    match a {
        SessionAction::SetStatus { status, progress, done_chunks, error } => {
            *status == UploadStatus::Failed
                && *progress == 0
                && *done_chunks == done
                && error.as_deref() == Some(msg)
        }
        _ => false,
    }
}

#[test]
fn begin_marks_uploading_then_reads() {
    let mut s = session();
    let acts = s.step(SessionEvent::Begin);
    assert_eq!(acts.len(), 2);
    assert!(matches!(acts[0], SessionAction::MarkUploading));
    assert!(matches!(&acts[1], SessionAction::ReadFile { path } if path == "/up/rec1_doc.pdf"));
    assert_eq!(s.phase(), Phase::Reading);
}

#[test]
fn unreadable_file_fails_the_upload() {
    let mut s = session();
    s.step(SessionEvent::Begin);
    let acts = s.step(SessionEvent::FileUnreadable("No such file".to_string()));
    assert_eq!(acts.len(), 1);
    assert!(failed_with(&acts[0], 0, "No such file"));
    assert_eq!(s.phase(), Phase::Finished);
}

#[test]
fn small_file_is_posted_whole() {
    let mut s = session();
    s.step(SessionEvent::Begin);
    let acts = s.step(SessionEvent::FileRead(vec![7, 8, 9]));
    assert_eq!(acts.len(), 1);
    match &acts[0] {
        SessionAction::SendWhole { url, file_name, content_type, bytes } => {
            assert_eq!(url, "http://192.168.1.81:3002/documents/upload");
            assert_eq!(file_name, "doc.pdf");
            assert_eq!(content_type, "application/octet-stream");
            assert_eq!(bytes, &vec![7u8, 8, 9]);
        }
        _ => panic!("expected a whole-file post"),
    }
    let acts = s.step(SessionEvent::WholeSent(Reply::Success));
    assert_eq!(acts.len(), 1);
    assert!(matches!(acts[0], SessionAction::MarkCompleted { done_chunks: 1, chunks_done: true }));
    assert_eq!(s.phase(), Phase::Finished);
}

#[test]
fn whole_post_rejected_reports_status() {
    let mut s = session();
    s.step(SessionEvent::Begin);
    s.step(SessionEvent::FileRead(vec![1]));
    let acts = s.step(SessionEvent::WholeSent(Reply::Status {
        status: "500 Internal Server Error".to_string(),
        body: String::new(),
    }));
    assert!(failed_with(&acts[0], 0, "Upload failed: status=500 Internal Server Error"));
}

#[test]
fn whole_post_transport_error_reported_as_is() {
    let mut s = session();
    s.step(SessionEvent::Begin);
    s.step(SessionEvent::FileRead(vec![1]));
    let acts = s.step(SessionEvent::WholeSent(Reply::Transport { error: "timed out".to_string() }));
    assert!(failed_with(&acts[0], 0, "timed out"));
}

fn to_multipart(s: &mut UploadSession, bytes: Vec<u8>) {
    s.step(SessionEvent::Begin);
    let acts = s.step(SessionEvent::FileRead(bytes));
    assert!(matches!(acts[0], SessionAction::FetchDeviceId));
    let acts = s.step(SessionEvent::DeviceId("dev-9".to_string()));
    match &acts[0] {
        SessionAction::SendInit { url, file_name, content_type, client_id } => {
            assert_eq!(url, "http://192.168.1.81:3002/documents/multipart/init");
            assert_eq!(file_name, "doc.pdf");
            assert_eq!(content_type, "application/octet-stream");
            assert_eq!(client_id, "dev-9");
        }
        _ => panic!("expected init"),
    }
    let acts = s.step(SessionEvent::InitReplied(InitReply::Started {
        upload_id: "mu-1".to_string(),
        object_name: "obj/doc.pdf".to_string(),
    }));
    assert!(matches!(acts[0], SessionAction::LoadDoneChunks));
}

fn file_of(len: usize) -> Vec<u8> {
    (0..len).map(|i| (i % 253) as u8).collect()
}

#[test]
fn multipart_resumes_skipping_done_chunks() {
    let bytes = file_of(11 * MIB);
    let mut s = session();
    to_multipart(&mut s, bytes.clone());
    let acts = s.step(SessionEvent::DoneChunks {
        indices: vec![1],
        parts: vec![Part { part_number: 2, etag: "e2".to_string() }],
    });
    assert_eq!(acts.len(), 2);
    assert!(matches!(acts[0], SessionAction::MarkChunkUploading { chunk_index: 0 }));
    match &acts[1] {
        SessionAction::SendPart { url, upload_id, object_name, part_number, content_length, bytes: b, .. } => {
            assert_eq!(url, "http://192.168.1.81:3002/documents/multipart/part");
            assert_eq!(upload_id, "mu-1");
            assert_eq!(object_name, "obj/doc.pdf");
            assert_eq!(*part_number, 1);
            assert_eq!(*content_length, (5 * MIB) as u64);
            assert_eq!(b[..], bytes[..5 * MIB]);
        }
        _ => panic!("expected part 1"),
    }
    let acts = s.step(SessionEvent::PartReplied(PartReply::Accepted(Part {
        part_number: 1,
        etag: "e1".to_string(),
    })));
    assert_eq!(acts.len(), 4);
    assert!(matches!(&acts[0], SessionAction::MarkChunkDone { chunk_index: 0, etag } if etag == "e1"));
    assert!(matches!(
        acts[1],
        SessionAction::SetStatus { status: UploadStatus::Uploading, progress: 66, done_chunks: 2, error: None }
    ));
    assert!(matches!(acts[2], SessionAction::MarkChunkUploading { chunk_index: 2 }));
    match &acts[3] {
        SessionAction::SendPart { part_number, content_length, bytes: b, .. } => {
            assert_eq!(*part_number, 3);
            assert_eq!(*content_length, MIB as u64);
            assert_eq!(b[..], bytes[10 * MIB..]);
        }
        _ => panic!("expected part 3"),
    }
    let acts = s.step(SessionEvent::PartReplied(PartReply::Accepted(Part {
        part_number: 3,
        etag: "e3".to_string(),
    })));
    assert_eq!(acts.len(), 3);
    assert!(matches!(
        acts[1],
        SessionAction::SetStatus { status: UploadStatus::Uploading, progress: 100, done_chunks: 3, error: None }
    ));
    match &acts[2] {
        SessionAction::SendComplete { url, object_name, upload_id, parts, content_type } => {
            assert_eq!(url, "http://192.168.1.81:3002/documents/multipart/complete");
            assert_eq!(object_name, "obj/doc.pdf");
            assert_eq!(upload_id, "mu-1");
            assert_eq!(content_type, "application/octet-stream");
            let nums: Vec<(i64, String)> = parts.iter().map(|p| (p.part_number, p.etag.clone())).collect();
            assert_eq!(
                nums,
                vec![(1, "e1".to_string()), (2, "e2".to_string()), (3, "e3".to_string())]
            );
        }
        _ => panic!("expected complete"),
    }
    assert_eq!(s.phase(), Phase::Completing);
    let acts = s.step(SessionEvent::CompleteReplied(Reply::Success));
    assert!(matches!(acts[0], SessionAction::MarkCompleted { done_chunks: 3, chunks_done: false }));
    assert_eq!(s.phase(), Phase::Finished);
}

#[test]
fn part_rejected_fails_chunk_and_upload() {
    let mut s = session();
    to_multipart(&mut s, file_of(6 * MIB));
    s.step(SessionEvent::DoneChunks { indices: vec![], parts: vec![] });
    let acts = s.step(SessionEvent::PartReplied(PartReply::Status { status: "502 Bad Gateway".to_string() }));
    assert_eq!(acts.len(), 2);
    assert!(matches!(&acts[0], SessionAction::MarkChunkFailed { chunk_index: 0, error }
        if error == "Part failed: status=502 Bad Gateway"));
    assert!(failed_with(&acts[1], 0, "Part failed: status=502 Bad Gateway"));
    assert_eq!(s.phase(), Phase::Finished);
}

#[test]
fn part_unreadable_fails_with_its_error() {
    let mut s = session();
    to_multipart(&mut s, file_of(6 * MIB));
    s.step(SessionEvent::DoneChunks { indices: vec![0], parts: vec![] });
    let acts = s.step(SessionEvent::PartReplied(PartReply::Unreadable { error: "bad json".to_string() }));
    assert!(matches!(&acts[0], SessionAction::MarkChunkFailed { chunk_index: 1, error } if error == "bad json"));
    assert!(failed_with(&acts[1], 1, "bad json"));
}

#[test]
fn init_rejected_reports_status_and_body() {
    let mut s = session();
    s.step(SessionEvent::Begin);
    s.step(SessionEvent::FileRead(file_of(6 * MIB)));
    s.step(SessionEvent::DeviceId("d".to_string()));
    let acts = s.step(SessionEvent::InitReplied(InitReply::Status {
        status: "400 Bad Request".to_string(),
        body: "nope".to_string(),
    }));
    assert!(failed_with(&acts[0], 0, "Init failed: status=400 Bad Request body=nope"));
    let acts = s.step(SessionEvent::Begin);
    assert!(acts.is_empty());
    assert_eq!(s.phase(), Phase::Finished);
}

#[test]
fn init_unreadable_and_transport_errors() {
    let mut s = session();
    s.step(SessionEvent::Begin);
    s.step(SessionEvent::FileRead(file_of(6 * MIB)));
    s.step(SessionEvent::DeviceId("d".to_string()));
    let acts = s.step(SessionEvent::InitReplied(InitReply::Unreadable { error: "missing field".to_string() }));
    assert!(failed_with(&acts[0], 0, "missing field"));
    let mut s = session();
    s.step(SessionEvent::Begin);
    s.step(SessionEvent::FileRead(file_of(6 * MIB)));
    s.step(SessionEvent::DeviceId("d".to_string()));
    let acts = s.step(SessionEvent::InitReplied(InitReply::Transport { error: "refused".to_string() }));
    assert!(failed_with(&acts[0], 0, "refused"));
}

#[test]
fn unreadable_queue_ends_silently() {
    let mut s = session();
    to_multipart(&mut s, file_of(6 * MIB));
    let acts = s.step(SessionEvent::DoneChunksUnavailable);
    assert!(acts.is_empty());
    assert_eq!(s.phase(), Phase::Finished);
}

#[test]
fn empty_file_goes_multipart_with_no_part() {
    let mut s = session();
    to_multipart(&mut s, Vec::new());
    let acts = s.step(SessionEvent::DoneChunks { indices: vec![], parts: vec![] });
    assert_eq!(acts.len(), 1);
    assert!(matches!(&acts[0], SessionAction::SendComplete { parts, .. } if parts.is_empty()));
    let acts = s.step(SessionEvent::CompleteReplied(Reply::Status {
        status: "500 Internal Server Error".to_string(),
        body: "boom".to_string(),
    }));
    assert!(failed_with(&acts[0], 0, "Complete failed: status=500 Internal Server Error body=boom"));
}

#[test]
fn all_chunks_done_completes_at_once() {
    let mut s = session();
    to_multipart(&mut s, file_of(6 * MIB));
    let acts = s.step(SessionEvent::DoneChunks {
        indices: vec![1, 0],
        parts: vec![
            Part { part_number: 2, etag: "b".to_string() },
            Part { part_number: 1, etag: "a".to_string() },
        ],
    });
    assert_eq!(acts.len(), 1);
    match &acts[0] {
        SessionAction::SendComplete { parts, .. } => {
            let nums: Vec<i64> = parts.iter().map(|p| p.part_number).collect();
            assert_eq!(nums, vec![1, 2]);
        }
        _ => panic!("expected complete"),
    }
    let acts = s.step(SessionEvent::CompleteReplied(Reply::Transport { error: "reset".to_string() }));
    assert!(failed_with(&acts[0], 2, "reset"));
}

#[test]
fn unexpected_event_changes_nothing() {
    let mut s = session();
    let acts = s.step(SessionEvent::DeviceId("d".to_string()));
    assert!(acts.is_empty());
    assert_eq!(s.phase(), Phase::Start);
}

#[test]
fn sort_parts_is_stable() {
    let parts = vec![
        Part { part_number: 3, etag: "c".to_string() },
        Part { part_number: 1, etag: "a1".to_string() },
        Part { part_number: 2, etag: "b".to_string() },
        Part { part_number: 1, etag: "a2".to_string() },
    ];
    let sorted = sort_parts(parts);
    let got: Vec<(i64, String)> = sorted.into_iter().map(|p| (p.part_number, p.etag)).collect();
    assert_eq!(
        got,
        vec![(1, "a1".to_string()), (1, "a2".to_string()), (2, "b".to_string()), (3, "c".to_string())]
    );
}

#[test]
fn done_parts_number_chunks_from_one() {
    let parts = fluxbooks::parts::done_parts(vec![(0, "a".to_string()), (4, String::new())]);
    let got: Vec<(i64, String)> = parts.into_iter().map(|p| (p.part_number, p.etag)).collect();
    assert_eq!(got, vec![(1, "a".to_string()), (5, String::new())]);
}

#[test]
fn resumed_completion_numbers_parts_one_to_n() {
    let mut s = session();
    to_multipart(&mut s, file_of(16 * MIB));
    assert_eq!(s.chunk_count(), 4);
    let rows = vec![(2i64, "t2".to_string()), (0i64, "t0".to_string())];
    let parts = fluxbooks::parts::done_parts(rows);
    let acts = s.step(SessionEvent::DoneChunks { indices: vec![2, 0], parts });
    assert!(matches!(acts[0], SessionAction::MarkChunkUploading { chunk_index: 1 }));
    let acts = s.step(SessionEvent::PartReplied(PartReply::Accepted(Part {
        part_number: 2,
        etag: "t1".to_string(),
    })));
    assert!(matches!(acts[2], SessionAction::MarkChunkUploading { chunk_index: 3 }));
    let acts = s.step(SessionEvent::PartReplied(PartReply::Accepted(Part {
        part_number: 4,
        etag: "t3".to_string(),
    })));
    match acts.last().unwrap() {
        SessionAction::SendComplete { parts, .. } => {
            let nums: Vec<i64> = parts.iter().map(|p| p.part_number).collect();
            assert_eq!(nums, vec![1, 2, 3, 4]);
        }
        _ => panic!("expected complete"),
    }
}
