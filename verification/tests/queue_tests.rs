use fluxbooks::queue::{
    current_timestamp,
    device_id_from, prepare_queued_file, queue_entry, queue_entry_at, queued_file_from,
    resolve_device_id, DeviceLookup, QueuedFile,
};

fn is_uuid_v4(s: &str) -> bool {
    let b: Vec<char> = s.chars().collect();
    b.len() == 36
        && b.iter().enumerate().all(|(i, c)| {
            if [8, 13, 18, 23].contains(&i) {
                *c == '-'
            } else {
                c.is_ascii_digit() || ('a'..='f').contains(c)
            }
        })
        && b[14] == '4'
        && "89ab".contains(b[19])
}

#[test]
fn queued_file_names_its_copy() {
    let q = queued_file_from("1234".to_string(), Some("report.pdf".to_string()));
    assert_eq!(q.id, "1234");
    assert_eq!(q.file_name, "report.pdf");
    assert_eq!(q.local_file_name, "1234_report.pdf");
}

#[test]
fn queued_file_without_name_is_unknown() {
    let q = queued_file_from("x".to_string(), None);
    assert_eq!(q.file_name, "unknown");
    assert_eq!(q.local_file_name, "x_unknown");
}

#[test]
fn prepare_takes_last_component_and_fresh_id() {
    let q = prepare_queued_file("/home/user/docs/invoice 2024.pdf");
    assert!(is_uuid_v4(&q.id), "{}", q.id);
    assert_eq!(q.file_name, "invoice 2024.pdf");
    assert_eq!(q.local_file_name, format!("{}_invoice 2024.pdf", q.id));
    let q2 = prepare_queued_file("/home/user/docs/invoice 2024.pdf");
    assert_ne!(q.id, q2.id);
}

#[test]
fn prepare_of_parent_path_is_unknown() {
    let q = prepare_queued_file("/home/user/..");
    assert_eq!(q.file_name, "unknown");
}

#[test]
fn queue_entry_records_plan() {
    let file = QueuedFile {
        id: "u1".to_string(),
        file_name: "a.bin".to_string(),
        local_file_name: "u1_a.bin".to_string(),
    };
    let e = queue_entry_at(file, "/up/u1_a.bin".to_string(), 10 * 1024 * 1024 + 1, "now".to_string());
    assert_eq!(e.record.total_chunks, 3);
    assert_eq!(e.record.queued_at, "now");
    assert_eq!(e.chunks.len(), 3);
    assert_eq!(e.chunks[2].size_bytes, 1);
    assert_eq!(e.chunks[0].upload_id, "u1");
}

#[test]
fn queue_entry_takes_a_timestamp() {
    let file = QueuedFile {
        id: "u2".to_string(),
        file_name: "b".to_string(),
        local_file_name: "u2_b".to_string(),
    };
    let e = queue_entry(file, "/up/u2_b".to_string(), 0);
    assert!(is_rfc3339(&e.record.queued_at), "{}", e.record.queued_at);
    assert_eq!(e.record.status, "pending");
    assert_eq!(e.chunks.len(), 1);
    assert_eq!(e.chunks[0].size_bytes, 0);
}

#[test]
fn device_id_found_is_kept() {
    let d = device_id_from(DeviceLookup::Found("dev-1".to_string()), "fresh".to_string());
    assert_eq!(d.id, "dev-1");
    assert!(!d.store);
    let d = resolve_device_id(DeviceLookup::Found("dev-2".to_string()));
    assert_eq!(d.id, "dev-2");
    assert!(!d.store);
}

#[test]
fn device_id_missing_is_fresh_and_stored() {
    let d = device_id_from(DeviceLookup::Missing, "fresh".to_string());
    assert_eq!(d.id, "fresh");
    assert!(d.store);
    let d = resolve_device_id(DeviceLookup::Missing);
    assert!(is_uuid_v4(&d.id));
    assert!(d.store);
}

#[test]
fn device_id_without_database_is_fresh_not_stored() {
    let d = device_id_from(DeviceLookup::NoDatabase, "fresh".to_string());
    assert_eq!(d.id, "fresh");
    assert!(!d.store);
    let d = resolve_device_id(DeviceLookup::NoDatabase);
    assert!(is_uuid_v4(&d.id));
    assert!(!d.store);
}

fn is_rfc3339(t: &str) -> bool {
    let c: Vec<char> = t.chars().collect();
    if c.len() < 25 {
        return false;
    }
    let y = 4;
    let d = |i: usize| c[i].is_ascii_digit();
    let date_time = (0..y).all(d)
        && c[y] == '-' && d(y + 1) && d(y + 2) && c[y + 3] == '-' && d(y + 4) && d(y + 5)
        && c[y + 6] == 'T' && d(y + 7) && d(y + 8) && c[y + 9] == ':' && d(y + 10) && d(y + 11)
        && c[y + 12] == ':' && d(y + 13) && d(y + 14);
    let f = c.len() - y - 21;
    let fraction = f == 0 || ([4, 7, 10].contains(&f) && c[y + 15] == '.' && (y + 16..y + 15 + f).all(d));
    let o = y + 15 + f;
    let offset = (c[o] == '+' || c[o] == '-') && d(o + 1) && d(o + 2) && c[o + 3] == ':' && d(o + 4) && d(o + 5);
    date_time && fraction && offset
}

#[test]
fn current_timestamp_is_rfc3339() {
    let t = current_timestamp();
    assert!(is_rfc3339(&t), "{}", t);
}
