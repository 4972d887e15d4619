//! The scheduler's in-memory queue: a binary min-heap of scheduled jobs,
//! ordered by the instant each one is due.
use vstd::prelude::*;
use vstd::multiset::Multiset;

verus! {

broadcast use vstd::seq_lib::group_to_multiset_ensures;

/// A job waiting in the scheduler's queue: its id and the instant
/// (microseconds since the epoch) at which it is due.
#[derive(Debug, Clone, Copy, PartialEq, Eq, Structural)]
pub struct ScheduledJob {
    pub id: u128,
    pub scheduled_at: i64,
}

/// Whether `j` is in `m` and no job in `m` is due before it.
pub open spec fn is_earliest(m: Multiset<ScheduledJob>, j: ScheduledJob) -> bool {
    &&& m.contains(j)
    &&& forall|k: ScheduledJob| m.contains(k) ==> j.scheduled_at <= k.scheduled_at
}

pub open spec fn parent(i: int) -> int {
    (i - 1) / 2
}

/// Every job is due no earlier than its parent in the implicit binary tree.
pub open spec fn heap_ordered(s: Seq<ScheduledJob>) -> bool {
    forall|i: int| #![trigger s[i]] 0 < i < s.len() ==> s[parent(i)].scheduled_at <= s[i].scheduled_at
}

/// A min-heap of scheduled jobs; its view is the multiset of jobs it holds.
pub struct JobHeap {
    items: Vec<ScheduledJob>,
}

impl View for JobHeap {
    type V = Multiset<ScheduledJob>;

    closed spec fn view(&self) -> Multiset<ScheduledJob> {
        self.items@.to_multiset()
    }
}

/// In a heap-ordered sequence the first job is due no later than any other.
proof fn lemma_root_is_earliest(s: Seq<ScheduledJob>, j: int)
    requires
        heap_ordered(s),
        0 <= j < s.len(),
    ensures
        s[0].scheduled_at <= s[j].scheduled_at,
    decreases j,
{
    if j > 0 {
        let p = parent(j);
        lemma_root_is_earliest(s, p);
        assert(s[p].scheduled_at <= s[j].scheduled_at);
    }
}

proof fn lemma_root_is_earliest_all(s: Seq<ScheduledJob>)
    requires
        heap_ordered(s),
        s.len() > 0,
    ensures
        is_earliest(s.to_multiset(), s[0]),
{
    assert forall|k: ScheduledJob| s.to_multiset().contains(k) implies s[0].scheduled_at
        <= k.scheduled_at by {
        assert(s.contains(k));
        let j = choose|j: int| 0 <= j < s.len() && s[j] == k;
        lemma_root_is_earliest(s, j);
    }
    assert(s.contains(s[0]));
}

/// Writing `x` at position `i` trades one copy of the old element for `x`.
proof fn lemma_update_multiset(s: Seq<ScheduledJob>, i: int, x: ScheduledJob)
    requires
        0 <= i < s.len(),
    ensures
        s.update(i, x).to_multiset() =~= s.to_multiset().remove(s[i]).insert(x),
{
    let t = s.update(i, x);
    vstd::seq_lib::to_multiset_remove(t, i);
    vstd::seq_lib::to_multiset_remove(s, i);
    assert(t.remove(i) =~= s.remove(i));
    assert(t.contains(x)) by {
        assert(t[i] == x);
    }
    assert(t.to_multiset().count(x) > 0);
}

/// Exchanging two positions leaves the multiset unchanged.
proof fn lemma_swap_multiset(s: Seq<ScheduledJob>, i: int, j: int)
    requires
        0 <= i < s.len(),
        0 <= j < s.len(),
    ensures
        s.update(i, s[j]).update(j, s[i]).to_multiset() =~= s.to_multiset(),
{
    let t = s.update(i, s[j]);
    lemma_update_multiset(s, i, s[j]);
    lemma_update_multiset(t, j, s[i]);
    assert(s.contains(s[i]));
    assert(s.to_multiset().count(s[i]) > 0);
    if i != j {
        assert(t[j] == s[j]);
    }
}

fn swap_items(v: &mut Vec<ScheduledJob>, i: usize, j: usize)
    requires
        i < old(v).len(),
        j < old(v).len(),
    ensures
        final(v)@ == old(v)@.update(i as int, old(v)@[j as int]).update(j as int, old(v)@[i as int]),
        final(v)@.to_multiset() =~= old(v)@.to_multiset(),
{
    proof {
        lemma_swap_multiset(v@, i as int, j as int);
    }
    let a = v[i];
    let b = v[j];
    v.set(i, b);
    v.set(j, a);
}

/// Moves the job at `start` towards the root until its parent is due no later.
fn sift_up(v: &mut Vec<ScheduledJob>, start: usize)
    requires
        start < old(v).len(),
        forall|k: int|
            #![trigger old(v)@[k]]
            0 < k < old(v)@.len() && k != start ==> old(v)@[parent(k)].scheduled_at
                <= old(v)@[k].scheduled_at,
        forall|c: int|
            #![trigger old(v)@[c]]
            0 < c < old(v)@.len() && parent(c) == start && start > 0 ==> old(v)@[parent(
                start as int,
            )].scheduled_at <= old(v)@[c].scheduled_at,
    ensures
        heap_ordered(final(v)@),
        final(v)@.to_multiset() =~= old(v)@.to_multiset(),
{
    let mut i = start;
    while i > 0
        invariant_except_break
            i < v@.len(),
            v@.len() == old(v)@.len(),
            v@.to_multiset() =~= old(v)@.to_multiset(),
            forall|k: int|
                #![trigger v@[k]]
                0 < k < v@.len() && k != i ==> v@[parent(k)].scheduled_at <= v@[k].scheduled_at,
            forall|c: int|
                #![trigger v@[c]]
                0 < c < v@.len() && parent(c) == i && i > 0 ==> v@[parent(i as int)].scheduled_at
                    <= v@[c].scheduled_at,
        ensures
            heap_ordered(v@),
            v@.to_multiset() =~= old(v)@.to_multiset(),
        decreases i,
    {
        let p = (i - 1) / 2;
        if v[p].scheduled_at <= v[i].scheduled_at {
            break;
        }
        let ghost before = v@;
        swap_items(v, i, p);
        proof {
            assert forall|k: int| #![trigger v@[k]] 0 < k < v@.len() && k != p implies v@[parent(
                k,
            )].scheduled_at <= v@[k].scheduled_at by {
                if k == i {
                } else if parent(k) == p {
                    assert(before[parent(k)].scheduled_at <= before[k].scheduled_at);
                } else if parent(k) == i {
                    assert(before[parent(i as int)].scheduled_at <= before[k].scheduled_at);
                } else {
                    assert(before[parent(k)].scheduled_at <= before[k].scheduled_at);
                }
            }
            assert forall|c: int|
                #![trigger v@[c]]
                0 < c < v@.len() && parent(c) == p && p > 0 implies v@[parent(
                    p as int,
                )].scheduled_at <= v@[c].scheduled_at by {
                assert(before[parent(p as int)].scheduled_at <= before[p as int].scheduled_at);
                if c != i {
                    assert(before[p as int].scheduled_at <= before[c].scheduled_at);
                }
            }
        }
        i = p;
    }
}

/// Moves the job at `start` towards the leaves until no child is due before it.
fn sift_down(v: &mut Vec<ScheduledJob>, start: usize)
    requires
        start < old(v).len(),
        forall|k: int|
            #![trigger old(v)@[k]]
            0 < k < old(v)@.len() && parent(k) != start ==> old(v)@[parent(k)].scheduled_at
                <= old(v)@[k].scheduled_at,
        forall|c: int|
            #![trigger old(v)@[c]]
            0 < c < old(v)@.len() && parent(c) == start && start > 0 ==> old(v)@[parent(
                start as int,
            )].scheduled_at <= old(v)@[c].scheduled_at,
    ensures
        heap_ordered(final(v)@),
        final(v)@.to_multiset() =~= old(v)@.to_multiset(),
{
    let n = v.len();
    let mut i = start;
    loop
        invariant_except_break
            n == v@.len(),
            i < n,
            v@.to_multiset() =~= old(v)@.to_multiset(),
            forall|k: int|
                #![trigger v@[k]]
                0 < k < v@.len() && parent(k) != i ==> v@[parent(k)].scheduled_at
                    <= v@[k].scheduled_at,
            forall|c: int|
                #![trigger v@[c]]
                0 < c < v@.len() && parent(c) == i && i > 0 ==> v@[parent(i as int)].scheduled_at
                    <= v@[c].scheduled_at,
        ensures
            heap_ordered(v@),
            v@.to_multiset() =~= old(v)@.to_multiset(),
        decreases n - i,
    {
        if i >= n / 2 {
            assert forall|k: int| #![trigger v@[k]] 0 < k < v@.len() implies v@[parent(
                k,
            )].scheduled_at <= v@[k].scheduled_at by {
                assert(parent(k) != i);
            }
            break;
        }
        let l = 2 * i + 1;
        let r = l + 1;
        let m = if r < n && v[r].scheduled_at < v[l].scheduled_at {
            r
        } else {
            l
        };
        assert(parent(l as int) == i);
        assert(parent(r as int) == i);
        if v[i].scheduled_at <= v[m].scheduled_at {
            assert forall|k: int| #![trigger v@[k]] 0 < k < v@.len() implies v@[parent(
                k,
            )].scheduled_at <= v@[k].scheduled_at by {
                if parent(k) == i {
                    assert(k == l || k == r);
                }
            }
            break;
        }
        let ghost before = v@;
        swap_items(v, i, m);
        proof {
            assert(parent(m as int) == i);
            assert forall|k: int| #![trigger v@[k]] 0 < k < v@.len() && parent(k) != m implies v@[parent(
                k,
            )].scheduled_at <= v@[k].scheduled_at by {
                if k == m {
                } else if k == i {
                    assert(before[parent(i as int)].scheduled_at <= before[m as int].scheduled_at);
                } else if parent(k) == i {
                    assert(k == l || k == r);
                } else if parent(k) == m {
                } else {
                    assert(before[parent(k)].scheduled_at <= before[k].scheduled_at);
                }
            }
            assert forall|c: int|
                #![trigger v@[c]]
                0 < c < v@.len() && parent(c) == m && m > 0 implies v@[parent(
                    m as int,
                )].scheduled_at <= v@[c].scheduled_at by {
                assert(before[m as int].scheduled_at <= before[c].scheduled_at);
            }
        }
        i = m;
    }
}

impl JobHeap {
    #[verifier::type_invariant]
    spec fn ordered(self) -> bool {
        heap_ordered(self.items@)
    }

    /// An empty heap.
    pub fn new() -> (h: JobHeap)
        ensures
            h@ =~= Multiset::<ScheduledJob>::empty(),
    {
        JobHeap { items: Vec::new() }
    }

    /// The number of jobs held.
    pub fn len(&self) -> (r: usize)
        ensures
            r == self@.len(),
    {
        self.items.len()
    }

    /// Whether the heap holds no job.
    pub fn is_empty(&self) -> (r: bool)
        ensures
            r == (self@.len() == 0),
    {
        self.items.len() == 0
    }

    /// Adds a job.
    pub fn push(&mut self, job: ScheduledJob)
        ensures
            final(self)@ =~= old(self)@.insert(job),
    {
        proof {
            use_type_invariant(&*self);
        }
        let mut v: Vec<ScheduledJob> = Vec::new();
        std::mem::swap(&mut v, &mut self.items);
        let ghost before = v@;
        v.push(job);
        let last = v.len() - 1;
        proof {
            assert(v@ =~= before.push(job));
            assert forall|k: int|
                #![trigger v@[k]]
                0 < k < v@.len() && k != last ==> v@[parent(k)].scheduled_at
                    <= v@[k].scheduled_at by {
                if 0 < k < v@.len() && k != last {
                    assert(before[parent(k)].scheduled_at <= before[k].scheduled_at);
                }
            }
        }
        sift_up(&mut v, last);
        self.items = v;
    }

    /// The job due first, if any.
    pub fn peek(&self) -> (r: Option<ScheduledJob>)
        ensures
            r is None <==> self@.len() == 0,
            r matches Some(j) ==> is_earliest(self@, j),
    {
        proof {
            use_type_invariant(self);
        }
        if self.items.len() == 0 {
            None
        } else {
            proof {
                lemma_root_is_earliest_all(self.items@);
            }
            Some(self.items[0])
        }
    }

    /// Removes and returns the job due first, if any.
    pub fn pop(&mut self) -> (r: Option<ScheduledJob>)
        ensures
            r is None <==> old(self)@.len() == 0,
            r is None ==> final(self)@ =~= old(self)@,
            r matches Some(j) ==> is_earliest(old(self)@, j) && final(self)@ =~= old(self)@.remove(j),
    {
        proof {
            use_type_invariant(&*self);
        }
        if self.items.len() == 0 {
            return None;
        }
        let mut v: Vec<ScheduledJob> = Vec::new();
        std::mem::swap(&mut v, &mut self.items);
        let ghost s = v@;
        proof {
            lemma_root_is_earliest_all(s);
        }
        let top = v[0];
        let last = v.pop().unwrap();
        proof {
            assert(v@ =~= s.drop_last());
            vstd::seq_lib::to_multiset_remove(s, s.len() - 1);
            assert(s.remove(s.len() - 1) =~= s.drop_last());
        }
        if v.len() == 0 {
            assert(s.len() == 1);
            self.items = v;
            return Some(top);
        }
        let ghost t = v@;
        v.set(0, last);
        proof {
            lemma_update_multiset(t, 0, last);
            assert(s.contains(last)) by {
                assert(s[s.len() - 1] == last);
            }
            assert(v@.to_multiset() =~= s.to_multiset().remove(top));
            assert forall|k: int|
                #![trigger v@[k]]
                0 < k < v@.len() && parent(k) != 0 ==> v@[parent(k)].scheduled_at
                    <= v@[k].scheduled_at by {
                if 0 < k < v@.len() && parent(k) != 0 {
                    assert(s[parent(k)].scheduled_at <= s[k].scheduled_at);
                }
            }
        }
        sift_down(&mut v, 0);
        self.items = v;
        Some(top)
    }
}

/// Gathers jobs into a heap.
pub fn build_heap(jobs: Vec<ScheduledJob>) -> (h: JobHeap)
    ensures
        h@ =~= jobs@.to_multiset(),
{
    let mut h = JobHeap::new();
    let n = jobs.len();
    let mut i: usize = 0;
    while i < n
        invariant
            n == jobs@.len(),
            i <= n,
            h@ =~= jobs@.take(i as int).to_multiset(),
        decreases n - i,
    {
        h.push(jobs[i]);
        proof {
            assert(jobs@.take(i + 1) =~= jobs@.take(i as int).push(jobs@[i as int]));
        }
        i = i + 1;
    }
    assert(jobs@.take(n as int) =~= jobs@);
    h
}


/// Jobs leave the heap in order of their due time: the job popped after the
/// earliest one is never due before it.
pub proof fn lemma_pops_in_order(m: Multiset<ScheduledJob>, a: ScheduledJob, b: ScheduledJob)
    requires
        is_earliest(m, a),
        is_earliest(m.remove(a), b),
    ensures
        a.scheduled_at <= b.scheduled_at,
{
    assert(m.remove(a).count(b) <= m.count(b));
    assert(m.contains(b));
}

/// `out` is the order in which repeated pops empty a queue holding `m`: each
/// job is an earliest one of what is left, and nothing is left at the end.
pub open spec fn is_drain(m: Multiset<ScheduledJob>, out: Seq<ScheduledJob>) -> bool
    decreases out.len(),
{
    if out.len() == 0 {
        m.len() == 0
    } else {
        is_earliest(m, out[0]) && is_drain(m.remove(out[0]), out.drop_first())
    }
}

/// Jobs in non-decreasing order of due time.
pub open spec fn sorted_by_due(s: Seq<ScheduledJob>) -> bool {
    forall|a: int, b: int| 0 <= a <= b < s.len() ==> #[trigger] s[a].scheduled_at <= #[trigger] s[b].scheduled_at
}

/// Draining a queue by repeated pops hands out every job it held, each as
/// often as it was held, earliest due first.
pub proof fn lemma_drain_is_sorted_permutation(m: Multiset<ScheduledJob>, out: Seq<ScheduledJob>)
    requires
        is_drain(m, out),
    ensures
        out.to_multiset() =~= m,
        sorted_by_due(out),
    decreases out.len(),
{
    broadcast use vstd::multiset::group_multiset_axioms;
    if out.len() == 0 {
        vstd::multiset::lemma_multiset_empty_len(m);
        vstd::multiset::lemma_multiset_empty_len(out.to_multiset());
    } else {
        let j = out[0];
        let rest = out.drop_first();
        lemma_drain_is_sorted_permutation(m.remove(j), rest);
        assert(out.remove(0) =~= rest);
        assert(rest.to_multiset() == out.to_multiset().remove(j));
        let whole = out.to_multiset();
        assert(whole.count(j) > 0);
        assert(m.count(j) > 0);
        assert forall|x: ScheduledJob| #[trigger] whole.count(x) == m.count(x) by {
            assert(whole.remove(j).count(x) == m.remove(j).count(x));
        }
        assert(whole =~= m);
        assert forall|a: int, b: int| 0 <= a <= b < out.len() implies #[trigger] out[a].scheduled_at
            <= #[trigger] out[b].scheduled_at by {
            if a == 0 {
                if b > 0 {
                    assert(out[b] == rest[b - 1]);
                    assert(rest.contains(rest[b - 1]));
                    assert(m.remove(j).count(out[b]) > 0);
                    assert(m.contains(out[b]));
                }
            } else {
                assert(out[a] == rest[a - 1]);
                assert(out[b] == rest[b - 1]);
            }
        }
    }
}

/// One pop extends a drain: a job that `pop` hands out of a queue holding `m`,
/// followed by a drain of what is left, drains `m`.
pub proof fn lemma_pop_extends_drain(m: Multiset<ScheduledJob>, j: ScheduledJob, rest: Seq<ScheduledJob>)
    requires
        is_earliest(m, j),
        is_drain(m.remove(j), rest),
    ensures
        is_drain(m, seq![j] + rest),
{
    let out = seq![j] + rest;
    assert(out.drop_first() =~= rest);
    assert(out[0] == j);
}

} // verus!
