use fluxbooks::records::{
    is_retryable, new_upload_record, retryable_uploads, ChunkStatus, UploadRecord, UploadStatus,
};

fn record(id: &str, status: &str) -> UploadRecord {
    UploadRecord {
        id: id.to_string(),
        file_name: "f.pdf".to_string(),
        local_path: "/tmp/f.pdf".to_string(),
        file_size: 10,
        status: status.to_string(),
        progress: 0,
        total_chunks: 1,
        done_chunks: 0,
        error_msg: None,
        queued_at: "2024-01-01T00:00:00+00:00".to_string(),
        uploaded_at: None,
    }
}

#[test]
fn status_texts() {
    assert_eq!(UploadStatus::Pending.text(), "pending");
    assert_eq!(UploadStatus::Uploading.text(), "uploading");
    assert_eq!(UploadStatus::Completed.text(), "completed");
    assert_eq!(UploadStatus::Failed.text(), "failed");
    assert_eq!(ChunkStatus::Pending.text(), "pending");
    assert_eq!(ChunkStatus::Uploading.text(), "uploading");
    assert_eq!(ChunkStatus::Done.text(), "done");
    assert_eq!(ChunkStatus::Failed.text(), "failed");
}

#[test]
fn retry_picks_pending_and_failed_in_order() {
    let recs = vec![
        record("a", "completed"),
        record("b", "failed"),
        record("c", "uploading"),
        record("d", "pending"),
        record("e", "Pending"),
    ];
    assert!(!is_retryable(&recs[0]));
    assert!(is_retryable(&recs[1]));
    let picked: Vec<String> = retryable_uploads(recs).into_iter().map(|r| r.id).collect();
    assert_eq!(picked, vec!["b".to_string(), "d".to_string()]);
}

#[test]
fn retry_of_empty_queue_is_empty() {
    assert!(retryable_uploads(Vec::new()).is_empty());
}

#[test]
fn new_record_is_pending() {
    let r = new_upload_record(
        "id1".to_string(),
        "scan.png".to_string(),
        "/data/uploads/id1_scan.png".to_string(),
        6 * 1024 * 1024,
        "t0".to_string(),
    );
    assert_eq!(r.id, "id1");
    assert_eq!(r.file_name, "scan.png");
    assert_eq!(r.local_path, "/data/uploads/id1_scan.png");
    assert_eq!(r.file_size, 6 * 1024 * 1024);
    assert_eq!(r.status, "pending");
    assert_eq!(r.progress, 0);
    assert_eq!(r.total_chunks, 2);
    assert_eq!(r.done_chunks, 0);
    assert_eq!(r.error_msg, None);
    assert_eq!(r.queued_at, "t0");
    assert_eq!(r.uploaded_at, None);
}
