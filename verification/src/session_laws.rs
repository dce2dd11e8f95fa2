//! What holds of every upload attempt, whatever the server and the queue
//! answer.
use vstd::prelude::*;
use vstd::set_lib::{set_int_range, lemma_int_range, lemma_len_subset};
use crate::chunking::{slices_of, slice_count, CHUNK_SIZE, lemma_slices_rebuild_bytes, is_slicing};
use crate::parts::{
    lemma_sort_by_number_is_stable_sort, lemma_sort_distinct_numbers, numbers_ascending, sort_by_number,
    PartView,
};
use crate::records::UploadStatus;
use crate::session::{
    SessionView, EventView, ActionView, PartReplyView, Phase, session_step, advance, next_pending,
    part_requests,
    progress_limit, event_fits, initial_session,
};

verus! {

/// Chunk `k` is recorded as done.
pub open spec fn recorded(done: Seq<i64>, k: int) -> bool {
    done.contains(k as i64)
}

/// Chunk `k` is recorded as done or was accepted in this attempt.
pub open spec fn covered(s: SessionView, k: int) -> bool {
    recorded(s.done_indices, k) || s.uploaded.contains(k as i64)
}

/// The attempt is sending parts or completing.
pub open spec fn sending(s: SessionView) -> bool {
    s.phase == Phase::SendingPart || s.phase == Phase::Completing
}

/// What holds of every state an attempt reaches.
pub open spec fn session_inv(s: SessionView) -> bool {
    &&& s.chunks == slices_of(s.file)
    &&& sending(s) ==> {
        &&& s.done_indices.len() + s.chunks.len() <= progress_limit()
        &&& 0 <= s.cursor <= s.chunks.len()
        &&& s.done_count == s.done_indices.len() + s.uploaded.len()
        &&& forall|a: int, b: int| 0 <= a < b < s.uploaded.len() ==> s.uploaded[a] < s.uploaded[b]
        &&& forall|a: int|
            0 <= a < s.uploaded.len() ==> 0 <= #[trigger] s.uploaded[a] < s.cursor
                && !s.done_indices.contains(s.uploaded[a])
        &&& forall|k: int| 0 <= k < s.cursor ==> #[trigger] covered(s, k)
        &&& s.phase == Phase::SendingPart ==> s.cursor < s.chunks.len()
            && !s.done_indices.contains(s.cursor as i64)
        &&& s.phase == Phase::Completing ==> s.cursor == s.chunks.len()
    }
}

/// The chunks recorded as done are distinct chunk indices of the file.
pub open spec fn sane_done(done: Seq<i64>, total: int) -> bool {
    &&& done.no_duplicates()
    &&& forall|a: int| 0 <= a < done.len() ==> 0 <= #[trigger] done[a] < total
}

/// Every attempt starts in a state where the invariant holds.
pub proof fn lemma_initial_inv(id: Seq<char>, file_name: Seq<char>, local_path: Seq<char>)
    ensures
        session_inv(initial_session(id, file_name, local_path)),
{
    assert(slices_of(Seq::<u8>::empty()) =~= Seq::<Seq<u8>>::empty());
}

proof fn lemma_next_pending(done: Seq<i64>, from: int, total: int)
    requires
        0 <= from,
        total <= 0x7fff_ffff_ffff_ffff,
    ensures
        from <= total ==> from <= next_pending(done, from, total) <= total,
        forall|k: int| from <= k < next_pending(done, from, total) ==> #[trigger] recorded(done, k),
        next_pending(done, from, total) < total ==> !done.contains(
            next_pending(done, from, total) as i64,
        ),
        from > total ==> next_pending(done, from, total) == total,
    decreases total - from,
{
    if from < total && done.contains(from as i64) {
        lemma_next_pending(done, from + 1, total);
    }
}

proof fn lemma_advance_inv(s: SessionView, from: int)
    requires
        s.chunks == slices_of(s.file),
        s.done_indices.len() + s.chunks.len() <= progress_limit(),
        0 <= from <= s.chunks.len(),
        s.done_count == s.done_indices.len() + s.uploaded.len(),
        forall|a: int, b: int| 0 <= a < b < s.uploaded.len() ==> s.uploaded[a] < s.uploaded[b],
        forall|a: int|
            0 <= a < s.uploaded.len() ==> 0 <= #[trigger] s.uploaded[a] < from
                && !s.done_indices.contains(s.uploaded[a]),
        forall|k: int| 0 <= k < from ==> #[trigger] covered(s, k),
    ensures
        session_inv(advance(s, from).0),
        sending(advance(s, from).0),
{
    let total = s.chunks.len() as int;
    lemma_next_pending(s.done_indices, from, total);
    let j = next_pending(s.done_indices, from, total);
    let r = advance(s, from).0;
    assert forall|k: int| 0 <= k < r.cursor implies #[trigger] covered(r, k) by {
        if k >= from {
            assert(recorded(s.done_indices, k));
        } else {
            assert(covered(s, k));
        }
    }
}

/// Every step keeps the invariant.
pub proof fn lemma_step_keeps_inv(s: SessionView, e: EventView)
    requires
        session_inv(s),
        event_fits(s, e),
    ensures
        session_inv(session_step(s, e).0),
{
    match e {
        EventView::DoneChunks { indices, parts } => {
            if s.phase == Phase::LoadingDone {
                let s2 = SessionView {
                    done_indices: indices,
                    parts,
                    uploaded: Seq::empty(),
                    done_count: indices.len() as int,
                    ..s
                };
                lemma_advance_inv(s2, 0);
            }
        },
        EventView::PartReplied(r) => {
            if s.phase == Phase::SendingPart {
                match r {
                    PartReplyView::Accepted(p) => {
                        let i = s.cursor;
                        let s2 = SessionView {
                            parts: s.parts.push(p),
                            uploaded: s.uploaded.push(i as i64),
                            done_count: s.done_count + 1,
                            ..s
                        };
                        assert forall|k: int| 0 <= k < i + 1 implies #[trigger] covered(s2, k) by {
                            if k < i {
                                assert(covered(s, k));
                                if s.uploaded.contains(k as i64) {
                                    let a = choose|a: int|
                                        0 <= a < s.uploaded.len() && s.uploaded[a] == k as i64;
                                    assert(s2.uploaded[a] == k as i64);
                                }
                            } else {
                                assert(s2.uploaded[s.uploaded.len() as int] == k as i64);
                            }
                        }
                        lemma_advance_inv(s2, i + 1);
                    },
                    _ => {},
                }
            }
        },
        EventView::FileRead(bytes) => {},
        _ => {},
    }
}

/// The chunks accepted in this attempt are fewer than the cursor.
proof fn lemma_uploaded_len(s: SessionView)
    requires
        session_inv(s),
        sending(s),
    ensures
        s.uploaded.len() <= s.cursor,
{
    let u = s.uploaded.map_values(|x: i64| x as int);
    assert forall|i: int, j: int| 0 <= i < u.len() && 0 <= j < u.len() && i != j implies u[i]
        != u[j] by {
        if i < j {
            assert(s.uploaded[i] < s.uploaded[j]);
        } else {
            assert(s.uploaded[j] < s.uploaded[i]);
        }
    }
    assert forall|i: int| 0 <= i < u.len() implies 0 <= #[trigger] u[i] < s.cursor by {
        assert(0 <= s.uploaded[i] < s.cursor);
    }
    lemma_distinct_in_range(u, s.cursor);
}

proof fn lemma_distinct_in_range(a: Seq<int>, n: int)
    requires
        0 <= n,
        a.no_duplicates(),
        forall|i: int| 0 <= i < a.len() ==> 0 <= #[trigger] a[i] < n,
    ensures
        a.len() <= n,
{
    a.unique_seq_to_set();
    lemma_int_range(0, n);
    assert(a.to_set().subset_of(set_int_range(0, n)));
    lemma_len_subset(a.to_set(), set_int_range(0, n));
}

/// While chunks are being sent, the chunks counted as done never outnumber
/// the file's chunks, provided those recorded as done are distinct chunk
/// indices of the file.
pub proof fn lemma_done_count_bounded(s: SessionView)
    requires
        session_inv(s),
        sending(s),
        sane_done(s.done_indices, s.chunks.len() as int),
    ensures
        0 <= s.done_count <= s.chunks.len(),
{
    lemma_done_count_bounded_at(s);
}

/// Every progress an attempt reports is the share, in percent (rounded
/// down), of the file's chunks counted as done; and when the chunks recorded
/// as done are distinct chunk indices of the file, it lies between 0 and
/// 100.
pub proof fn lemma_reported_progress(s: SessionView, e: EventView, k: int)
    requires
        session_inv(s),
        event_fits(s, e),
        0 <= k < session_step(s, e).1.len(),
        session_step(s, e).1[k] matches ActionView::SetStatus { status, .. } && status
            == UploadStatus::Uploading,
    ensures
        session_step(s, e).1[k] matches ActionView::SetStatus { progress, done_chunks, .. } && {
            &&& progress == done_chunks * 100 / (s.chunks.len() as int)
            &&& done_chunks == s.done_count + 1
            &&& sane_done(s.done_indices, s.chunks.len() as int) ==> 0 <= progress <= 100
        },
{
    lemma_step_keeps_inv(s, e);
    match e {
        EventView::PartReplied(PartReplyView::Accepted(p)) => {
            if s.phase == Phase::SendingPart {
                let i = s.cursor;
                let s2 = SessionView {
                    parts: s.parts.push(p),
                    uploaded: s.uploaded.push(i as i64),
                    done_count: s.done_count + 1,
                    cursor: i + 1,
                    ..s
                };
                let n = s.chunks.len() as int;
                let next = advance(SessionView {
                    parts: s.parts.push(p),
                    uploaded: s.uploaded.push(i as i64),
                    done_count: s.done_count + 1,
                    ..s
                }, i + 1);
                assert forall|m: int| 0 <= m < next.1.len() implies !(next.1[m] is SetStatus) by {
                }
                if k >= 2 {
                    assert(session_step(s, e).1[k] == next.1[k - 2]);
                }
                assert(k == 1);
                let done = s.done_count + 1;
                lemma_uploaded_len(s);
                assert(0 <= done <= progress_limit());
                assert(done * 100 / n <= done * 100) by (nonlinear_arith)
                    requires
                        0 <= done,
                        n > 0,
                ;
                assert(done * 100 / n >= 0) by (nonlinear_arith)
                    requires
                        0 <= done,
                        n > 0,
                ;
                if sane_done(s.done_indices, n) {
                    // the counts after this part, with the cursor past it
                    lemma_done_count_bounded_at(s2);
                    assert((s.done_count + 1) * 100 / n <= 100) by (nonlinear_arith)
                        requires
                            0 <= s.done_count + 1 <= n,
                            n > 0,
                    ;
                    assert((s.done_count + 1) * 100 / n >= 0) by (nonlinear_arith)
                        requires
                            0 <= s.done_count + 1,
                            n > 0,
                    ;
                }
            }
        },
        _ => {},
    }
}

proof fn lemma_done_count_bounded_at(s: SessionView)
    requires
        s.done_indices.len() + s.chunks.len() <= progress_limit(),
        0 <= s.cursor <= s.chunks.len(),
        s.done_count == s.done_indices.len() + s.uploaded.len(),
        forall|a: int, b: int| 0 <= a < b < s.uploaded.len() ==> s.uploaded[a] < s.uploaded[b],
        forall|a: int|
            0 <= a < s.uploaded.len() ==> 0 <= #[trigger] s.uploaded[a] < s.cursor
                && !s.done_indices.contains(s.uploaded[a]),
        sane_done(s.done_indices, s.chunks.len() as int),
    ensures
        0 <= s.done_count <= s.chunks.len(),
{
    let both = (s.done_indices + s.uploaded).map_values(|x: i64| x as int);
    let d = s.done_indices.len() as int;
    assert forall|i: int, j: int|
        0 <= i < both.len() && 0 <= j < both.len() && i != j implies both[i] != both[j] by {
        if i < d && j >= d {
            assert(s.done_indices.contains(s.uploaded[j - d]) == false);
        } else if i >= d && j < d {
            assert(s.done_indices.contains(s.uploaded[i - d]) == false);
        } else if i >= d && j >= d {
            if i < j {
                assert(s.uploaded[i - d] < s.uploaded[j - d]);
            } else {
                assert(s.uploaded[j - d] < s.uploaded[i - d]);
            }
        }
    }
    assert forall|i: int| 0 <= i < both.len() implies 0 <= #[trigger] both[i] < s.chunks.len() by {
        if i >= d {
            assert(s.uploaded[i - d] < s.cursor);
        }
    }
    lemma_distinct_in_range(both, s.chunks.len() as int);
}

/// An attempt that is over does nothing more, whatever it is told.
pub proof fn lemma_finished_is_final(s: SessionView, e: EventView)
    requires
        s.phase == Phase::Finished,
    ensures
        session_step(s, e).0 == s,
        session_step(s, e).1 == Seq::<ActionView>::empty(),
{
}

/// An attempt ends whenever it records the upload failed or completed.
pub proof fn lemma_failure_and_completion_end(s: SessionView, e: EventView, k: int)
    requires
        session_inv(s),
        event_fits(s, e),
        0 <= k < session_step(s, e).1.len(),
        (session_step(s, e).1[k] matches ActionView::SetStatus { status, .. } && status
            == UploadStatus::Failed) || session_step(s, e).1[k] is MarkCompleted,
    ensures
        session_step(s, e).0.phase == Phase::Finished,
{
    match e {
        EventView::DoneChunks { indices, parts } => {
            if s.phase == Phase::LoadingDone {
                let s2 = SessionView {
                    done_indices: indices,
                    parts,
                    uploaded: Seq::empty(),
                    done_count: indices.len() as int,
                    ..s
                };
                let next = advance(s2, 0);
                assert(!(next.1[k] is SetStatus) && !(next.1[k] is MarkCompleted));
            }
        },
        EventView::PartReplied(PartReplyView::Accepted(p)) => {
            if s.phase == Phase::SendingPart {
                let i = s.cursor;
                let next = advance(SessionView {
                    parts: s.parts.push(p),
                    uploaded: s.uploaded.push(i as i64),
                    done_count: s.done_count + 1,
                    ..s
                }, i + 1);
                if k >= 2 {
                    assert(session_step(s, e).1[k] == next.1[k - 2]);
                    assert(!(next.1[k - 2] is SetStatus) && !(next.1[k - 2] is MarkCompleted));
                }
            }
        },
        _ => {},
    }
}

/// A file is posted whole exactly when it holds between 1 and `CHUNK_SIZE`
/// bytes; an empty or a larger one goes through the multipart protocol.
pub proof fn lemma_whole_post_iff_one_chunk(s: SessionView, bytes: Seq<u8>)
    requires
        s.phase == Phase::Reading,
    ensures
        session_step(s, EventView::FileRead(bytes)).0.phase == Phase::SendingWhole <==> 0
            < bytes.len() <= CHUNK_SIZE,
        session_step(s, EventView::FileRead(bytes)).0.phase == Phase::SendingWhole
            || session_step(s, EventView::FileRead(bytes)).0.phase == Phase::AwaitingDeviceId,
{
    let n = bytes.len() as int;
    assert(slices_of(bytes).len() == slice_count(n));
    if n > CHUNK_SIZE {
        assert((n + CHUNK_SIZE - 1) / (CHUNK_SIZE as int) >= 2);
    }
}

/// Each part an attempt posts is a chunk of the file not recorded as done
/// and not yet accepted in this attempt; it carries the bytes of that
/// chunk's slice of the file, their number, and the chunk's index plus one.
pub proof fn lemma_posted_part(s: SessionView, e: EventView, m: int)
    requires
        session_inv(s),
        event_fits(s, e),
        0 <= m < session_step(s, e).1.len(),
        session_step(s, e).1[m] is SendPart,
    ensures
        ({
            let r = session_step(s, e).0;
            let a = session_step(s, e).1[m];
            let j = r.cursor;
            &&& r.phase == Phase::SendingPart
            &&& a == part_requests(r, j)[1]
            &&& 0 <= j < slices_of(r.file).len()
            &&& a->SendPart_bytes == slices_of(r.file)[j]
            &&& a->SendPart_content_length == a->SendPart_bytes.len()
            &&& a->SendPart_part_number == j + 1
            &&& !recorded(r.done_indices, j)
            &&& !r.uploaded.contains(j as i64)
        }),
{
    lemma_step_keeps_inv(s, e);
    let r = session_step(s, e).0;
    match e {
        EventView::DoneChunks { indices, parts } => {},
        EventView::PartReplied(PartReplyView::Accepted(p)) => {
            if s.phase == Phase::SendingPart {
                let i = s.cursor;
                let next = advance(SessionView {
                    parts: s.parts.push(p),
                    uploaded: s.uploaded.push(i as i64),
                    done_count: s.done_count + 1,
                    ..s
                }, i + 1);
                assert(m >= 2);
                assert(session_step(s, e).1[m] == next.1[m - 2]);
            }
        },
        _ => {},
    }
    let j = r.cursor;
    assert(r.chunks[j].len() <= CHUNK_SIZE) by {
        lemma_slices_rebuild_bytes(r.file, r.chunks);
    }
    if r.uploaded.contains(j as i64) {
        let a = choose|a: int| 0 <= a < r.uploaded.len() && r.uploaded[a] == j as i64;
        assert(r.uploaded[a] < r.cursor);
    }
}

/// When an attempt completes a multipart upload, every chunk of the file was
/// recorded as done before or accepted in this attempt, the file is the
/// chunks joined in order, and the parts handed in are ordered by number
/// (equal numbers in the order they came).
pub proof fn lemma_completion(s: SessionView, e: EventView, m: int)
    requires
        session_inv(s),
        event_fits(s, e),
        0 <= m < session_step(s, e).1.len(),
        session_step(s, e).1[m] is SendComplete,
    ensures
        ({
            let r = session_step(s, e).0;
            let a = session_step(s, e).1[m];
            &&& r.phase == Phase::Completing
            &&& forall|k: int| 0 <= k < r.chunks.len() ==> #[trigger] covered(r, k)
            &&& r.chunks.flatten() == r.file
            &&& a->SendComplete_parts == r.parts
            &&& numbers_ascending(a->SendComplete_parts)
        }),
{
    lemma_step_keeps_inv(s, e);
    let r = session_step(s, e).0;
    match e {
        EventView::DoneChunks { indices, parts } => {
            if s.phase == Phase::LoadingDone {
                let s2 = SessionView {
                    done_indices: indices,
                    parts,
                    uploaded: Seq::empty(),
                    done_count: indices.len() as int,
                    ..s
                };
                lemma_sort_by_number_is_stable_sort(s2.parts);
            }
        },
        EventView::PartReplied(PartReplyView::Accepted(p)) => {
            if s.phase == Phase::SendingPart {
                let i = s.cursor;
                let s2 = SessionView {
                    parts: s.parts.push(p),
                    uploaded: s.uploaded.push(i as i64),
                    done_count: s.done_count + 1,
                    ..s
                };
                let next = advance(s2, i + 1);
                assert(m >= 2);
                assert(session_step(s, e).1[m] == next.1[m - 2]);
                lemma_sort_by_number_is_stable_sort(s2.parts);
            }
        },
        _ => {},
    }
    assert(is_slicing(r.file, r.chunks));
    lemma_slices_rebuild_bytes(r.file, r.chunks);
}

/// Each part carries the number of its chunk: the chunk index plus one.
pub open spec fn parts_numbered_by(parts: Seq<PartView>, indices: Seq<i64>) -> bool {
    &&& parts.len() == indices.len()
    &&& forall|k: int| 0 <= k < parts.len() ==> #[trigger] parts[k].part_number == indices[k] + 1
}

/// The parts an event hands over carry the numbers of their chunks: those
/// recorded as done the index plus one, and an accepted part the number it
/// was sent with.
pub open spec fn event_numbered(s: SessionView, e: EventView) -> bool {
    match e {
        EventView::DoneChunks { indices, parts } => parts_numbered_by(parts, indices),
        EventView::PartReplied(PartReplyView::Accepted(p)) => p.part_number == s.cursor + 1,
        _ => true,
    }
}

/// While sending, the parts held are numbered by the chunks recorded as
/// done followed by those accepted.
pub open spec fn numbered(s: SessionView) -> bool {
    s.phase == Phase::SendingPart ==> parts_numbered_by(s.parts, s.done_indices + s.uploaded)
}

/// The chunks recorded as done and those accepted are distinct chunk
/// indices of the file.
proof fn lemma_done_and_uploaded_distinct(s: SessionView)
    requires
        0 <= s.cursor <= s.chunks.len(),
        forall|a: int, b: int| 0 <= a < b < s.uploaded.len() ==> s.uploaded[a] < s.uploaded[b],
        forall|a: int|
            0 <= a < s.uploaded.len() ==> 0 <= #[trigger] s.uploaded[a] < s.cursor
                && !s.done_indices.contains(s.uploaded[a]),
        sane_done(s.done_indices, s.chunks.len() as int),
    ensures
        (s.done_indices + s.uploaded).no_duplicates(),
        forall|i: int|
            0 <= i < (s.done_indices + s.uploaded).len() ==> 0 <= #[trigger] (s.done_indices
                + s.uploaded)[i] < s.chunks.len(),
{
    let both = s.done_indices + s.uploaded;
    let d = s.done_indices.len() as int;
    assert forall|i: int, j: int|
        0 <= i < both.len() && 0 <= j < both.len() && i != j implies both[i] != both[j] by {
        if i < d && j >= d {
            assert(s.done_indices.contains(s.uploaded[j - d]) == false);
        } else if i >= d && j < d {
            assert(s.done_indices.contains(s.uploaded[i - d]) == false);
        } else if i >= d && j >= d {
            if i < j {
                assert(s.uploaded[i - d] < s.uploaded[j - d]);
            } else {
                assert(s.uploaded[j - d] < s.uploaded[i - d]);
            }
        }
    }
    assert forall|i: int| 0 <= i < both.len() implies 0 <= #[trigger] both[i] < s.chunks.len() by {
        if i >= d {
            assert(s.uploaded[i - d] < s.cursor);
        }
    }
}

/// Distinct chunk indices below `n` that cover every one of them are `n`.
proof fn lemma_covering_len(all: Seq<i64>, n: int)
    requires
        0 <= n <= progress_limit(),
        all.no_duplicates(),
        forall|i: int| 0 <= i < all.len() ==> 0 <= #[trigger] all[i] < n,
        forall|k: int| 0 <= k < n ==> #[trigger] all.contains(k as i64),
    ensures
        all.len() == n,
{
    let a = all.map_values(|x: i64| x as int);
    assert forall|i: int| 0 <= i < a.len() implies 0 <= #[trigger] a[i] < n by {}
    assert(a.no_duplicates());
    lemma_distinct_in_range(a, n);
    a.unique_seq_to_set();
    lemma_int_range(0, n);
    assert forall|k: int| #[trigger] set_int_range(0, n).contains(k) implies a.to_set().contains(k) by {
        assert(all.contains(k as i64));
        let j = choose|j: int| 0 <= j < all.len() && all[j] == k as i64;
        assert(a[j] == k);
    }
    assert(set_int_range(0, n).subset_of(a.to_set()));
    vstd::seq_lib::seq_to_set_is_finite(a);
    lemma_len_subset(set_int_range(0, n), a.to_set());
}

/// A completing attempt whose chunks recorded as done are distinct chunk
/// indices counts every chunk as done, once.
proof fn lemma_completing_count(r: SessionView)
    requires
        session_inv(r),
        r.phase == Phase::Completing,
        sane_done(r.done_indices, r.chunks.len() as int),
    ensures
        (r.done_indices + r.uploaded).len() == r.chunks.len(),
        forall|k: int| 0 <= k < r.chunks.len() ==> #[trigger] (r.done_indices + r.uploaded).contains(
            k as i64,
        ),
        r.done_count == r.chunks.len(),
{
    lemma_done_and_uploaded_distinct(r);
    let both = r.done_indices + r.uploaded;
    assert forall|k: int| 0 <= k < r.chunks.len() implies #[trigger] both.contains(k as i64) by {
        assert(covered(r, k));
        if r.done_indices.contains(k as i64) {
            let j = choose|j: int| 0 <= j < r.done_indices.len() && r.done_indices[j] == k as i64;
            assert(both[j] == k as i64);
        } else {
            let j = choose|j: int| 0 <= j < r.uploaded.len() && r.uploaded[j] == k as i64;
            assert(both[r.done_indices.len() + j] == k as i64);
        }
    }
    lemma_covering_len(both, r.chunks.len() as int);
}

/// Parts numbered by distinct chunk indices that cover every chunk of a
/// file of `n` chunks come out of the ordering numbered 1 to `n` in turn.
proof fn lemma_covering_parts(parts: Seq<PartView>, all: Seq<i64>, n: int)
    requires
        0 <= n <= progress_limit(),
        parts_numbered_by(parts, all),
        all.no_duplicates(),
        forall|i: int| 0 <= i < all.len() ==> 0 <= #[trigger] all[i] < n,
        all.len() == n,
    ensures
        sort_by_number(parts).len() == n,
        forall|i: int| 0 <= i < n ==> #[trigger] sort_by_number(parts)[i].part_number == i + 1,
{
    assert forall|i: int, j: int| 0 <= i < j < parts.len() implies parts[i].part_number
        != parts[j].part_number by {
        assert(all[i] != all[j]);
    }
    lemma_sort_distinct_numbers(parts);
}

/// When the parts handed over carry the numbers of their chunks (those
/// recorded as done their index plus one, each accepted part the number it
/// was sent with) and the chunks recorded as done are distinct chunk
/// indices of the file, an attempt keeps its parts numbered by their
/// chunks, and the parts it hands in to complete a multipart upload are
/// numbered exactly 1, 2, ..., up to the number of chunks, in that order,
/// with every chunk counted as done.
pub proof fn lemma_completion_numbers(s: SessionView, e: EventView, m: int)
    requires
        session_inv(s),
        event_fits(s, e),
        numbered(s),
        event_numbered(s, e),
        sane_done(session_step(s, e).0.done_indices, session_step(s, e).0.chunks.len() as int),
    ensures
        numbered(session_step(s, e).0),
        session_step(s, e).0.phase == Phase::Completing ==> session_step(s, e).0.done_count
            == s.chunks.len(),
        0 <= m < session_step(s, e).1.len() && session_step(s, e).1[m] is SendComplete ==> {
            let parts = session_step(s, e).1[m]->SendComplete_parts;
            &&& parts.len() == s.chunks.len()
            &&& forall|i: int| 0 <= i < parts.len() ==> #[trigger] parts[i].part_number == i + 1
        },
{
    lemma_step_keeps_inv(s, e);
    let r = session_step(s, e).0;
    let n = s.chunks.len() as int;
    match e {
        EventView::DoneChunks { indices, parts } => {
            if s.phase == Phase::LoadingDone {
                let s2 = SessionView {
                    done_indices: indices,
                    parts,
                    uploaded: Seq::empty(),
                    done_count: indices.len() as int,
                    ..s
                };
                assert(indices + Seq::<i64>::empty() =~= indices);
                if r.phase == Phase::Completing {
                    lemma_completing_count(r);
                    lemma_done_and_uploaded_distinct(r);
                    assert(r.done_indices + r.uploaded =~= indices);
                    lemma_covering_parts(parts, indices, n);
                }
            }
        },
        EventView::PartReplied(PartReplyView::Accepted(p)) => {
            if s.phase == Phase::SendingPart {
                let i = s.cursor;
                let s2 = SessionView {
                    parts: s.parts.push(p),
                    uploaded: s.uploaded.push(i as i64),
                    done_count: s.done_count + 1,
                    ..s
                };
                assert(s.done_indices + s2.uploaded =~= (s.done_indices + s.uploaded).push(i as i64));
                assert(parts_numbered_by(s2.parts, s2.done_indices + s2.uploaded));
                let next = advance(s2, i + 1);
                if r.phase == Phase::Completing {
                    lemma_completing_count(r);
                    lemma_done_and_uploaded_distinct(r);
                    lemma_covering_parts(s2.parts, r.done_indices + r.uploaded, n);
                }
                if m >= 2 && m < session_step(s, e).1.len() {
                    assert(session_step(s, e).1[m] == next.1[m - 2]);
                }
            }
        },
        _ => {},
    }
    if r.phase == Phase::Completing {
        lemma_completing_count(r);
    }
}

/// The server's reply to a posted part is recorded against the chunk of that
/// part. After a step that posts the part numbered `n`, the next step, given
/// the reply to it, marks chunk `n - 1` and no other: done, with the entity
/// tag the server gave, when the part was accepted; failed, with the same
/// error the upload is then failed with, when it was refused, its reply
/// could not be read, or it was not sent.
pub proof fn lemma_reply_marks_posted_chunk(s: SessionView, e: EventView, m: int, reply: PartReplyView)
    requires
        session_inv(s),
        event_fits(s, e),
        0 <= m < session_step(s, e).1.len(),
        session_step(s, e).1[m] is SendPart,
    ensures
        ({
            let s1 = session_step(s, e).0;
            let n = session_step(s, e).1[m]->SendPart_part_number;
            let out = session_step(s1, EventView::PartReplied(reply)).1;
            let failed_with = |err: Seq<char>|
                out == seq![
                    ActionView::MarkChunkFailed { chunk_index: (n - 1) as i64, error: err },
                    ActionView::SetStatus {
                        status: UploadStatus::Failed,
                        progress: 0,
                        done_chunks: s1.done_count as i64,
                        error: Some(err),
                    },
                ];
            &&& s1.phase == Phase::SendingPart
            &&& match reply {
                PartReplyView::Accepted(p) => {
                    &&& out.len() >= 2
                    &&& out[0] == ActionView::MarkChunkDone { chunk_index: (n - 1) as i64, etag: p.etag }
                    &&& forall|k: int|
                        1 <= k < out.len() ==> !(#[trigger] out[k] is MarkChunkDone) && !(
                        out[k] is MarkChunkFailed)
                },
                PartReplyView::Unreadable { error } => failed_with(error),
                PartReplyView::Status { status } => failed_with("Part failed: status="@ + status),
                PartReplyView::Transport { error } => failed_with(error),
            }
        }),
{
    lemma_posted_part(s, e, m);
    lemma_step_keeps_inv(s, e);
    let s1 = session_step(s, e).0;
    let out = session_step(s1, EventView::PartReplied(reply)).1;
    match reply {
        PartReplyView::Accepted(p) => {
            let i = s1.cursor;
            let next = advance(SessionView {
                parts: s1.parts.push(p),
                uploaded: s1.uploaded.push(i as i64),
                done_count: s1.done_count + 1,
                ..s1
            }, i + 1);
            assert forall|k: int| 1 <= k < out.len() implies !(#[trigger] out[k] is MarkChunkDone) && !(
            out[k] is MarkChunkFailed) by {
                if k >= 2 {
                    assert(out[k] == next.1[k - 2]);
                }
            }
        },
        _ => {},
    }
}

} // verus!
