//! How a file is cut into upload chunks.
//!
//! Two views of the same cut exist: the plan that is recorded when a file is
//! queued (computed from its size alone, always at least one chunk), and the
//! actual slices of the file's bytes that are sent when it is uploaded.
use vstd::prelude::*;

verus! {

/// The size of every chunk but the last: 5 MiB.
pub const CHUNK_SIZE: i64 = 5242880;

/// `CHUNK_SIZE` as a `usize`, for slicing byte buffers.
pub const CHUNK_SIZE_BYTES: usize = 5242880;

/// Ceiling of `n / d` for `n >= 0`, `d > 0`.
pub open spec fn ceil_div(n: int, d: int) -> int {
    (n + d - 1) / d
}

/// Number of chunks recorded when a file of `file_size` bytes is queued:
/// the ceiling of `file_size / CHUNK_SIZE`, and never fewer than one. The
/// ceiling is the exact integer one; a floating-point computation of it can
/// round differently for sizes above 2^53 bytes.
pub open spec fn planned_total(file_size: int) -> int {
    if file_size <= 0 {
        1
    } else {
        ceil_div(file_size, CHUNK_SIZE as int)
    }
}

/// Recorded size of chunk `i` of a file of `file_size` bytes: the end of the
/// chunk (`(i + 1) * CHUNK_SIZE`, cut at the file's size) minus its start.
pub open spec fn planned_size(file_size: int, i: int) -> int {
    let end = if (i + 1) * CHUNK_SIZE <= file_size { (i + 1) * CHUNK_SIZE } else { file_size };
    end - i * CHUNK_SIZE
}

/// Number of slices that cutting `len` bytes into pieces of `CHUNK_SIZE`
/// gives: the ceiling of `len / CHUNK_SIZE` (none for an empty buffer).
pub open spec fn slice_count(len: int) -> int {
    ceil_div(len, CHUNK_SIZE as int)
}

/// Start offset of slice `k`.
pub open spec fn slice_start(k: int) -> int {
    k * CHUNK_SIZE
}

/// End offset (exclusive) of slice `k` of a buffer of `len` bytes.
pub open spec fn slice_end(len: int, k: int) -> int {
    if (k + 1) * CHUNK_SIZE <= len { (k + 1) * CHUNK_SIZE } else { len }
}

/// The slices of `bytes`, in order: slice `k` holds the bytes from
/// `slice_start(k)` to `slice_end(len, k)`.
pub open spec fn is_slicing(bytes: Seq<u8>, chunks: Seq<Seq<u8>>) -> bool {
    &&& chunks.len() == slice_count(bytes.len() as int)
    &&& forall|k: int|
        0 <= k < chunks.len() ==> #[trigger] chunks[k] == bytes.subrange(
            slice_start(k),
            slice_end(bytes.len() as int, k),
        )
}

/// The slices of `bytes`, as a sequence.
pub open spec fn slices_of(bytes: Seq<u8>) -> Seq<Seq<u8>> {
    Seq::new(
        slice_count(bytes.len() as int) as nat,
        |k: int| bytes.subrange(slice_start(k), slice_end(bytes.len() as int, k)),
    )
}

/// Number of chunks recorded for a file of `file_size` bytes.
pub fn total_chunks_for(file_size: i64) -> (total: i64)
    ensures
        total == planned_total(file_size as int),
        total >= 1,
{
    if file_size <= 0 {
        1
    } else {
        let q = file_size / CHUNK_SIZE;
        let r = file_size % CHUNK_SIZE;
        let total = if r != 0 { q + 1 } else { q };
        assert(total == ceil_div(file_size as int, CHUNK_SIZE as int));
        total
    }
}

/// Recorded size of chunk `i` of a file of `file_size` bytes.
pub fn chunk_size_at(file_size: i64, i: i64) -> (size: i64)
    requires
        0 <= i < planned_total(file_size as int),
    ensures
        size == planned_size(file_size as int, i as int),
{
    if file_size <= 0 {
        file_size
    } else {
        assert(i * CHUNK_SIZE <= file_size);
        let start = i * CHUNK_SIZE;
        let rest = file_size - start;
        if rest < CHUNK_SIZE {
            rest
        } else {
            CHUNK_SIZE
        }
    }
}

/// Cuts `bytes` into consecutive slices of `CHUNK_SIZE` bytes; the last one
/// holds what is left. An empty buffer gives no slice.
pub fn split_chunks(bytes: &[u8]) -> (chunks: Vec<Vec<u8>>)
    ensures
        is_slicing(bytes@, chunks@.map_values(|c: Vec<u8>| c@)),
        chunks@.map_values(|c: Vec<u8>| c@) == slices_of(bytes@),
{
    let len = bytes.len();
    let mut chunks: Vec<Vec<u8>> = Vec::new();
    let mut start: usize = 0;
    while start < len
        invariant
            len == bytes@.len(),
            start <= len,
            start == chunks.len() * CHUNK_SIZE || start == len,
            start < len ==> start == chunks.len() * CHUNK_SIZE,
            chunks.len() == if start == len { slice_count(len as int) } else { chunks.len() as int },
            start < len ==> chunks.len() < slice_count(len as int),
            forall|k: int|
                0 <= k < chunks.len() ==> #[trigger] chunks[k]@ == bytes@.subrange(
                    slice_start(k),
                    slice_end(len as int, k),
                ),
        decreases len - start,
    {
        let end = if len - start <= CHUNK_SIZE_BYTES { len } else { start + CHUNK_SIZE_BYTES };
        let piece = vstd::slice::slice_to_vec(vstd::slice::slice_subrange(bytes, start, end));
        chunks.push(piece);
        start = end;
    }
    assert(chunks@.map_values(|c: Vec<u8>| c@).len() == chunks.len());
    assert(chunks@.map_values(|c: Vec<u8>| c@) =~= slices_of(bytes@));
    chunks
}

/// Sum of the recorded sizes of the first `n` chunks of a file.
pub open spec fn planned_sum(file_size: int, n: nat) -> int
    decreases n,
{
    if n == 0 {
        0
    } else {
        planned_sum(file_size, (n - 1) as nat) + planned_size(file_size, n - 1)
    }
}

/// Bounds of the ceiling: `(t - 1) * CHUNK_SIZE < n <= t * CHUNK_SIZE`.
proof fn lemma_ceil_bounds(n: int)
    requires
        n > 0,
    ensures
        ceil_div(n, CHUNK_SIZE as int) >= 1,
        (ceil_div(n, CHUNK_SIZE as int) - 1) * CHUNK_SIZE < n,
        n <= ceil_div(n, CHUNK_SIZE as int) * CHUNK_SIZE,
{
    let t = ceil_div(n, CHUNK_SIZE as int);
    assert(t == (n + 5242879) / 5242880);
    assert((n + 5242879) == t * 5242880 + (n + 5242879) % 5242880);
}

proof fn lemma_planned_prefix(file_size: int, n: nat)
    requires
        file_size > 0,
        n <= planned_total(file_size),
    ensures
        planned_sum(file_size, n) == if n * CHUNK_SIZE <= file_size { n * CHUNK_SIZE } else { file_size },
    decreases n,
{
    lemma_ceil_bounds(file_size);
    if n > 0 {
        lemma_planned_prefix(file_size, (n - 1) as nat);
    }
}

/// The recorded chunk sizes of a queued file add up to the file's size, and
/// when the file is not empty each of them lies between 1 and `CHUNK_SIZE`.
pub proof fn lemma_planned_sizes_cover_file(file_size: int)
    ensures
        planned_sum(file_size, planned_total(file_size) as nat) == file_size,
        file_size > 0 ==> forall|i: int|
            0 <= i < planned_total(file_size) ==> 0 < #[trigger] planned_size(file_size, i)
                <= CHUNK_SIZE,
{
    if file_size > 0 {
        lemma_ceil_bounds(file_size);
        lemma_planned_prefix(file_size, planned_total(file_size) as nat);
    } else {
        assert(planned_sum(file_size, 1) == planned_sum(file_size, 0) + planned_size(file_size, 0));
    }
}

/// The slices of a buffer, joined in order, give back the buffer; each of
/// them holds between 1 and `CHUNK_SIZE` bytes.
pub proof fn lemma_slices_rebuild_bytes(bytes: Seq<u8>, chunks: Seq<Seq<u8>>)
    requires
        is_slicing(bytes, chunks),
    ensures
        chunks.flatten() == bytes,
        forall|k: int| 0 <= k < chunks.len() ==> 0 < #[trigger] chunks[k].len() <= CHUNK_SIZE,
{
    let len = bytes.len() as int;
    if len > 0 {
        lemma_ceil_bounds(len);
    }
    assert forall|k: int| 0 <= k < chunks.len() implies 0 < #[trigger] chunks[k].len() <= CHUNK_SIZE by {
        assert(k * CHUNK_SIZE < len);
    }
    lemma_slices_prefix(bytes, chunks, chunks.len() as nat);
    assert(chunks.take(chunks.len() as int) =~= chunks);
    if len > 0 {
        assert(bytes.subrange(0, len) =~= bytes);
    } else {
        assert(bytes =~= Seq::<u8>::empty());
    }
}

proof fn lemma_slices_prefix(bytes: Seq<u8>, chunks: Seq<Seq<u8>>, n: nat)
    requires
        is_slicing(bytes, chunks),
        n <= chunks.len(),
    ensures
        chunks.take(n as int).flatten() == bytes.subrange(
            0,
            if n * CHUNK_SIZE <= bytes.len() { n * CHUNK_SIZE } else { bytes.len() as int },
        ),
    decreases n,
{
    let len = bytes.len() as int;
    if len > 0 {
        lemma_ceil_bounds(len);
    }
    if n == 0 {
        assert(chunks.take(0) =~= Seq::<Seq<u8>>::empty());
        assert(bytes.subrange(0, 0) =~= Seq::<u8>::empty());
    } else {
        let m = (n - 1) as nat;
        lemma_slices_prefix(bytes, chunks, m);
        assert(chunks.take(n as int) =~= chunks.take(m as int).push(chunks[m as int]));
        chunks.take(m as int).lemma_flatten_push(chunks[m as int]);
        assert(m * CHUNK_SIZE < len);
        let e = if n * CHUNK_SIZE <= len { n * CHUNK_SIZE } else { len };
        assert(bytes.subrange(0, e) =~= bytes.subrange(0, m * CHUNK_SIZE) + bytes.subrange(
            m * CHUNK_SIZE,
            e,
        ));
    }
}

/// For a file that is not empty, the chunks recorded when it is queued and
/// the slices sent when it is uploaded agree: as many of them, each of the
/// same size. (An empty file is recorded as one chunk of size 0, and has no
/// slice.)
pub proof fn lemma_plan_matches_slices(file_size: int)
    requires
        file_size > 0,
    ensures
        planned_total(file_size) == slice_count(file_size),
        forall|i: int|
            0 <= i < planned_total(file_size) ==> #[trigger] planned_size(file_size, i) == slice_end(
                file_size,
                i,
            ) - slice_start(i),
{
}

} // verus!
