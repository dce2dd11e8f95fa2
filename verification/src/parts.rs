//! The parts of a multipart upload, and the order in which they are handed
//! to the server to complete it.
use vstd::prelude::*;

verus! {

/// A part the server accepted: its number (chunk index plus one) and the
/// entity tag the server gave it.
pub struct Part {
    pub part_number: i64,
    pub etag: String,
}

/// A part, as plain values.
pub struct PartView {
    pub part_number: i64,
    pub etag: Seq<char>,
}

impl View for Part {
    type V = PartView;

    open spec fn view(&self) -> PartView {
        PartView { part_number: self.part_number, etag: self.etag@ }
    }
}

/// The plain values of a list of parts.
pub open spec fn parts_view(ps: Seq<Part>) -> Seq<PartView> {
    ps.map_values(|p: Part| p@)
}

/// `p` inserted into `sorted` after every part whose number is not larger.
pub open spec fn insert_by_number(sorted: Seq<PartView>, p: PartView) -> Seq<PartView>
    decreases sorted.len(),
{
    if sorted.len() == 0 || sorted.last().part_number <= p.part_number {
        sorted.push(p)
    } else {
        insert_by_number(sorted.drop_last(), p).push(sorted.last())
    }
}

/// The parts ordered by part number, equal numbers keeping their order.
pub open spec fn sort_by_number(ps: Seq<PartView>) -> Seq<PartView>
    decreases ps.len(),
{
    if ps.len() == 0 {
        ps
    } else {
        insert_by_number(sort_by_number(ps.drop_last()), ps.last())
    }
}

/// Part numbers never decrease along the sequence.
pub open spec fn numbers_ascending(ps: Seq<PartView>) -> bool {
    forall|i: int, j: int| 0 <= i < j < ps.len() ==> ps[i].part_number <= ps[j].part_number
}

/// The parts of `ps` that carry number `n`, in order.
pub open spec fn with_number(ps: Seq<PartView>, n: i64) -> Seq<PartView> {
    ps.filter(|p: PartView| p.part_number == n)
}

proof fn lemma_insert_split(sorted: Seq<PartView>, p: PartView, k: int)
    requires
        numbers_ascending(sorted),
        0 <= k <= sorted.len(),
        forall|i: int| 0 <= i < k ==> sorted[i].part_number <= p.part_number,
        forall|i: int| k <= i < sorted.len() ==> sorted[i].part_number > p.part_number,
    ensures
        insert_by_number(sorted, p) == sorted.take(k).push(p) + sorted.skip(k),
    decreases sorted.len(),
{
    if sorted.len() == 0 || sorted.last().part_number <= p.part_number {
        assert(k == sorted.len());
        assert(sorted.take(k) =~= sorted);
        assert(sorted.skip(k) =~= Seq::<PartView>::empty());
        assert(sorted.take(k).push(p) + sorted.skip(k) =~= sorted.push(p));
    } else {
        let d = sorted.drop_last();
        assert(k < sorted.len());
        lemma_insert_split(d, p, k);
        assert(d.take(k) =~= sorted.take(k));
        assert((d.take(k).push(p) + d.skip(k)).push(sorted.last()) =~= sorted.take(k).push(p)
            + sorted.skip(k));
    }
}

/// Where `p` goes: after the last part whose number is not larger.
proof fn lemma_insert_sorted(sorted: Seq<PartView>, p: PartView)
    requires
        numbers_ascending(sorted),
    ensures
        numbers_ascending(insert_by_number(sorted, p)),
        insert_by_number(sorted, p).len() == sorted.len() + 1,
        forall|n: i64| #[trigger] with_number(insert_by_number(sorted, p), n) == if p.part_number == n {
            with_number(sorted, n).push(p)
        } else {
            with_number(sorted, n)
        },
    decreases sorted.len(),
{
    broadcast use Seq::lemma_filter_push;
    if sorted.len() == 0 || sorted.last().part_number <= p.part_number {
    } else {
        let d = sorted.drop_last();
        let l = sorted.last();
        lemma_insert_sorted(d, p);
        let r = insert_by_number(d, p);
        assert forall|i: int, j: int| 0 <= i < j < r.push(l).len() implies r.push(l)[i].part_number
            <= r.push(l)[j].part_number by {
            if j == r.len() {
                if i < r.len() {
                    // every element of r is either p (smaller than l) or from d (not larger than l)
                    lemma_insert_elements(d, p, i);
                }
            }
        }
        assert(sorted =~= d.push(l));
        assert forall|n: i64| #[trigger] with_number(r.push(l), n) == if p.part_number == n {
            with_number(sorted, n).push(p)
        } else {
            with_number(sorted, n)
        } by {
            assert(with_number(r, n) == if p.part_number == n {
                with_number(d, n).push(p)
            } else {
                with_number(d, n)
            });
            let pred = |q: PartView| q.part_number == n;
            d.lemma_filter_push(l, pred);
            r.lemma_filter_push(l, pred);
            if p.part_number == n {
                // l has a larger number than p, so it is not kept
                assert(l.part_number != n);
            }
        }
    }
}

/// Every part of `insert_by_number(sorted, p)` is `p` or a part of `sorted`.
proof fn lemma_insert_elements(sorted: Seq<PartView>, p: PartView, i: int)
    requires
        0 <= i < insert_by_number(sorted, p).len(),
        insert_by_number(sorted, p).len() == sorted.len() + 1,
    ensures
        insert_by_number(sorted, p)[i] == p || exists|j: int|
            0 <= j < sorted.len() && insert_by_number(sorted, p)[i] == sorted[j],
    decreases sorted.len(),
{
    if sorted.len() == 0 || sorted.last().part_number <= p.part_number {
        if i < sorted.len() {
            assert(insert_by_number(sorted, p)[i] == sorted[i]);
        }
    } else {
        let d = sorted.drop_last();
        if i == sorted.len() {
            assert(insert_by_number(sorted, p)[i] == sorted[sorted.len() - 1]);
        } else {
            lemma_insert_len(d, p);
            lemma_insert_elements(d, p, i);
            if insert_by_number(d, p)[i] != p {
                let j = choose|j: int| 0 <= j < d.len() && insert_by_number(d, p)[i] == d[j];
                assert(insert_by_number(sorted, p)[i] == sorted[j]);
            }
        }
    }
}

proof fn lemma_insert_len(sorted: Seq<PartView>, p: PartView)
    ensures
        insert_by_number(sorted, p).len() == sorted.len() + 1,
    decreases sorted.len(),
{
    if sorted.len() == 0 || sorted.last().part_number <= p.part_number {
    } else {
        lemma_insert_len(sorted.drop_last(), p);
    }
}

/// Ordering parts by number puts them in ascending order of number, and
/// keeps, for each number, exactly the parts that carry it in the order in
/// which they came (a stable sort): nothing is lost, added or reordered
/// among equals.
pub proof fn lemma_sort_by_number_is_stable_sort(ps: Seq<PartView>)
    ensures
        numbers_ascending(sort_by_number(ps)),
        sort_by_number(ps).len() == ps.len(),
        forall|n: i64| #[trigger] with_number(sort_by_number(ps), n) == with_number(ps, n),
    decreases ps.len(),
{
    broadcast use Seq::lemma_filter_push;
    if ps.len() == 0 {
    } else {
        let d = ps.drop_last();
        lemma_sort_by_number_is_stable_sort(d);
        lemma_insert_sorted(sort_by_number(d), ps.last());
        assert(ps =~= d.push(ps.last()));
        assert forall|n: i64| #[trigger] with_number(sort_by_number(ps), n) == with_number(ps, n) by {
            d.lemma_filter_push(ps.last(), |q: PartView| q.part_number == n);
        }
    }
}

/// Orders the parts by part number; parts with equal numbers keep their
/// order.
pub fn sort_parts(parts: Vec<Part>) -> (sorted: Vec<Part>)
    ensures
        parts_view(sorted@) == sort_by_number(parts_view(parts@)),
{
    let ghost input = parts_view(parts@);
    let mut rest = parts;
    let mut out: Vec<Part> = Vec::new();
    let ghost mut done: int = 0;
    proof {
        assert(input.take(0) =~= Seq::<PartView>::empty());
    }
    while rest.len() > 0
        invariant
            0 <= done <= input.len(),
            parts_view(rest@) == input.skip(done),
            rest@.len() == input.len() - done,
            parts_view(out@) == sort_by_number(input.take(done)),
        decreases rest@.len(),
    {
        proof {
            lemma_sort_by_number_is_stable_sort(input.take(done));
        }
        let ghost old_rest = rest@;
        proof {
            assert(parts_view(old_rest)[0] == old_rest[0]@);
        }
        let p = rest.remove(0);
        proof {
            assert forall|i: int| 0 <= i < rest@.len() implies parts_view(rest@)[i] == input.skip(
                done + 1,
            )[i] by {
                assert(rest@[i] == old_rest[i + 1]);
                assert(parts_view(old_rest)[i + 1] == old_rest[i + 1]@);
            }
            assert(parts_view(rest@) =~= input.skip(done + 1));
            assert(p@ == input[done]);
            assert(input.take(done + 1).drop_last() =~= input.take(done));
        }
        let mut k: usize = out.len();
        while k > 0 && out[k - 1].part_number > p.part_number
            invariant
                k <= out@.len(),
                forall|i: int| k <= i < out@.len() ==> out@[i].part_number > p.part_number,
            decreases k,
        {
            k = k - 1;
        }
        let ghost before = parts_view(out@);
        proof {
            assert forall|i: int| 0 <= i < k implies before[i].part_number <= p.part_number by {
                if k > 0 {
                    assert(before[k - 1].part_number <= p.part_number);
                    assert(before[i].part_number <= before[k - 1].part_number);
                }
            }
            lemma_insert_split(before, p@, k as int);
        }
        out.insert(k, p);
        proof {
            assert(parts_view(out@) =~= before.take(k as int).push(p@) + before.skip(k as int));
            done = done + 1;
        }
    }
    proof {
        assert(input.take(input.len() as int) =~= input);
    }
    out
}

/// The parts of the chunks recorded as done, from their rows of chunk index
/// and entity tag: each part's number is the chunk index plus one.
pub fn done_parts(rows: Vec<(i64, String)>) -> (parts: Vec<Part>)
    requires
        forall|k: int| 0 <= k < rows@.len() ==> #[trigger] rows@[k].0 < i64::MAX,
    ensures
        parts@.len() == rows@.len(),
        forall|k: int|
            0 <= k < rows@.len() ==> (#[trigger] parts@[k]).part_number == rows@[k].0 + 1
                && parts@[k].etag@ == rows@[k].1@,
{
    let ghost input = rows@;
    let mut rest = rows;
    let mut parts: Vec<Part> = Vec::new();
    let ghost mut done: int = 0;
    while rest.len() > 0
        invariant
            0 <= done <= input.len(),
            rest@ == input.skip(done),
            parts@.len() == done,
            forall|k: int| 0 <= k < input.len() ==> #[trigger] input[k].0 < i64::MAX,
            forall|k: int|
                0 <= k < done ==> (#[trigger] parts@[k]).part_number == input[k].0 + 1
                    && parts@[k].etag@ == input[k].1@,
        decreases rest@.len(),
    {
        let (index, etag) = rest.remove(0);
        proof {
            assert(input[done] == (index, etag));
        }
        parts.push(Part { part_number: index + 1, etag });
        proof {
            done = done + 1;
            assert(rest@ =~= input.skip(done));
        }
    }
    parts
}

/// The parts with number `n` of a sequence where no two parts share `n`
/// are at most one.
proof fn lemma_with_number_at_most_one(s: Seq<PartView>, n: i64)
    requires
        forall|i: int, j: int|
            0 <= i < j < s.len() ==> !(s[i].part_number == n && s[j].part_number == n),
    ensures
        with_number(s, n).len() <= 1,
    decreases s.len(),
{
    broadcast use Seq::lemma_filter_push;
    if s.len() > 0 {
        let d = s.drop_last();
        let pred = |p: PartView| p.part_number == n;
        lemma_with_number_at_most_one(d, n);
        assert(s =~= d.push(s.last()));
        d.lemma_filter_push(s.last(), pred);
        if s.last().part_number == n && d.filter(pred).len() > 0 {
            let x = d.filter(pred)[0];
            d.lemma_filter_pred(pred, 0);
            assert(d.filter(pred).contains(x));
            d.lemma_filter_contains_rev(pred, x);
            let i = choose|i: int| 0 <= i < d.len() && d[i] == x;
            assert(s[i] == x);
        }
    }
}

/// Two parts that carry number `n` make `with_number(s, n)` hold at least
/// two.
proof fn lemma_with_number_two(s: Seq<PartView>, n: i64, i: int, j: int)
    requires
        0 <= i < j < s.len(),
        s[i].part_number == n,
        s[j].part_number == n,
    ensures
        with_number(s, n).len() >= 2,
    decreases s.len(),
{
    broadcast use Seq::lemma_filter_push;
    let d = s.drop_last();
    let pred = |p: PartView| p.part_number == n;
    assert(s =~= d.push(s.last()));
    d.lemma_filter_push(s.last(), pred);
    if j == s.len() - 1 {
        d.lemma_filter_contains(pred, i);
    } else {
        lemma_with_number_two(d, n, i, j);
    }
}

proof fn lemma_lower_bound(q: Seq<PartView>, i: int)
    requires
        0 <= i < q.len(),
        forall|a: int, b: int| 0 <= a < b < q.len() ==> q[a].part_number < q[b].part_number,
        forall|a: int| 0 <= a < q.len() ==> 1 <= #[trigger] q[a].part_number,
    ensures
        q[i].part_number >= i + 1,
    decreases i,
{
    if i > 0 {
        lemma_lower_bound(q, i - 1);
    }
}

proof fn lemma_upper_bound(q: Seq<PartView>, i: int)
    requires
        0 <= i < q.len(),
        forall|a: int, b: int| 0 <= a < b < q.len() ==> q[a].part_number < q[b].part_number,
        forall|a: int| 0 <= a < q.len() ==> #[trigger] q[a].part_number <= q.len(),
    ensures
        q[i].part_number <= i + 1,
    decreases q.len() - i,
{
    if i < q.len() - 1 {
        lemma_upper_bound(q, i + 1);
    }
}

/// Parts whose numbers are distinct and all between 1 and their count come
/// out of the ordering numbered 1, 2, ... in turn.
pub proof fn lemma_sort_distinct_numbers(ps: Seq<PartView>)
    requires
        forall|i: int, j: int| 0 <= i < j < ps.len() ==> ps[i].part_number != ps[j].part_number,
        forall|i: int| 0 <= i < ps.len() ==> 1 <= #[trigger] ps[i].part_number <= ps.len(),
    ensures
        sort_by_number(ps).len() == ps.len(),
        forall|i: int| 0 <= i < ps.len() ==> #[trigger] sort_by_number(ps)[i].part_number == i + 1,
{
    lemma_sort_by_number_is_stable_sort(ps);
    let q = sort_by_number(ps);
    assert forall|a: int| 0 <= a < q.len() implies 1 <= #[trigger] q[a].part_number <= q.len() by {
        let m = q[a].part_number;
        let pred = |p: PartView| p.part_number == m;
        q.lemma_filter_contains(pred, a);
        assert(with_number(q, m) == with_number(ps, m));
        ps.lemma_filter_contains_rev(pred, q[a]);
        let k = choose|k: int| 0 <= k < ps.len() && ps[k] == q[a];
    }
    assert forall|a: int, b: int| 0 <= a < b < q.len() implies q[a].part_number < q[b].part_number by {
        if q[a].part_number == q[b].part_number {
            let m = q[a].part_number;
            lemma_with_number_two(q, m, a, b);
            assert(with_number(q, m) == with_number(ps, m));
            lemma_with_number_at_most_one(ps, m);
        }
    }
    assert forall|i: int| 0 <= i < ps.len() implies #[trigger] q[i].part_number == i + 1 by {
        lemma_lower_bound(q, i);
        lemma_upper_bound(q, i);
    }
}

} // verus!
