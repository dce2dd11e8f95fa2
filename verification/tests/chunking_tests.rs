use fluxbooks::chunking::{chunk_size_at, split_chunks, total_chunks_for, CHUNK_SIZE, CHUNK_SIZE_BYTES};
use fluxbooks::records::chunk_rows;

const MIB: i64 = 1024 * 1024;

#[test]
fn total_chunks_of_empty_file_is_one() {
    assert_eq!(total_chunks_for(0), 1);
    assert_eq!(chunk_size_at(0, 0), 0);
}

#[test]
fn total_chunks_rounds_up() {
    assert_eq!(CHUNK_SIZE, 5 * MIB);
    assert_eq!(total_chunks_for(1), 1);
    assert_eq!(total_chunks_for(5 * MIB), 1);
    assert_eq!(total_chunks_for(5 * MIB + 1), 2);
    assert_eq!(total_chunks_for(12 * MIB), 3);
    assert_eq!(total_chunks_for(i64::MAX), i64::MAX / (5 * MIB) + 1);
}

#[test]
fn negative_size_gives_one_chunk_of_that_size() {
    assert_eq!(total_chunks_for(-7), 1);
    assert_eq!(chunk_size_at(-7, 0), -7);
}

#[test]
fn chunk_sizes_of_twelve_mib() {
    let size = 12 * MIB;
    assert_eq!(chunk_size_at(size, 0), 5 * MIB);
    assert_eq!(chunk_size_at(size, 1), 5 * MIB);
    assert_eq!(chunk_size_at(size, 2), 2 * MIB);
}

#[test]
fn planned_sizes_add_up_to_file_size() {
    for size in [0i64, 1, 5 * MIB - 1, 5 * MIB, 5 * MIB + 1, 17 * MIB + 3] {
        let total = total_chunks_for(size);
        let sum: i64 = (0..total).map(|i| chunk_size_at(size, i)).sum();
        assert_eq!(sum, size);
    }
}

#[test]
fn chunk_rows_follow_the_plan() {
    let id = String::from("abc");
    let rows = chunk_rows(&id, 11 * MIB);
    assert_eq!(rows.len(), 3);
    for (i, r) in rows.iter().enumerate() {
        assert_eq!(r.upload_id, "abc");
        assert_eq!(r.chunk_index, i as i64);
        assert_eq!(r.total, 3);
    }
    assert_eq!(rows[2].size_bytes, MIB);
}

#[test]
fn split_of_empty_buffer_has_no_slice() {
    assert!(split_chunks(&[]).is_empty());
}

#[test]
fn split_small_buffer_is_one_slice() {
    let bytes = vec![1u8, 2, 3];
    let chunks = split_chunks(&bytes);
    assert_eq!(chunks, vec![vec![1u8, 2, 3]]);
}

#[test]
fn split_rebuilds_bytes_and_matches_plan() {
    let len = 2 * CHUNK_SIZE_BYTES + 10;
    let bytes: Vec<u8> = (0..len).map(|i| (i % 251) as u8).collect();
    let chunks = split_chunks(&bytes);
    assert_eq!(chunks.len(), 3);
    assert_eq!(chunks[0].len(), CHUNK_SIZE_BYTES);
    assert_eq!(chunks[1].len(), CHUNK_SIZE_BYTES);
    assert_eq!(chunks[2].len(), 10);
    assert_eq!(chunks.concat(), bytes);
    assert_eq!(total_chunks_for(len as i64), chunks.len() as i64);
    for (i, c) in chunks.iter().enumerate() {
        assert_eq!(chunk_size_at(len as i64, i as i64), c.len() as i64);
    }
    let std_chunks: Vec<Vec<u8>> = bytes.chunks(CHUNK_SIZE_BYTES).map(|c| c.to_vec()).collect();
    assert_eq!(chunks, std_chunks);
}
