//! Protocol laws proved over the observable behavior of the consensus core.

use vstd::prelude::*;

verus! {

/// The observable summary of one handler invocation within one height:
/// whether the node had committed before the call and after it, and whether
/// the call emitted a finalize action. Every handler's contract yields such
/// a summary: `handle_commit` ensures a finalize comes only with the
/// transition into `Committed` and that a committed node stays committed;
/// the other handlers never finalize and never leave `Committed`.
pub struct StepObs {
    pub pre_committed: bool,
    pub post_committed: bool,
    pub finalized: bool,
}

/// What the handlers' contracts give of each step within one height.
pub open spec fn step_obeys(s: StepObs) -> bool {
    &&& s.finalized ==> !s.pre_committed && s.post_committed
    &&& s.pre_committed ==> s.post_committed
}

/// Consecutive steps observe the same node: each starts where the previous
/// one ended.
pub open spec fn chained(tr: Seq<StepObs>) -> bool {
    forall|i: int| 1 <= i < tr.len() ==> (#[trigger] tr[i]).pre_committed == tr[i - 1].post_committed
}

/// How many steps of the run emitted a finalize action.
pub open spec fn count_finalized(tr: Seq<StepObs>) -> int
    decreases tr.len(),
{
    if tr.len() == 0 {
        0
    } else {
        (if tr[0].finalized {
            1int
        } else {
            0int
        }) + count_finalized(tr.subrange(1, tr.len() as int))
    }
}

/// A node that starts a run already committed never finalizes in it.
proof fn lemma_committed_finalizes_nothing(tr: Seq<StepObs>)
    requires
        forall|i: int| 0 <= i < tr.len() ==> step_obeys(#[trigger] tr[i]),
        chained(tr),
        tr.len() > 0 ==> tr[0].pre_committed,
    ensures
        count_finalized(tr) == 0,
    decreases tr.len(),
{
    if tr.len() > 0 {
        let rest = tr.subrange(1, tr.len() as int);
        assert(forall|i: int| 0 <= i < rest.len() ==> step_obeys(#[trigger] rest[i]));
        assert(chained(rest)) by {
            assert(forall|i: int|
                1 <= i < rest.len() ==> (#[trigger] rest[i]).pre_committed == rest[i
                    - 1].post_committed);
        }
        if rest.len() > 0 {
            assert(rest[0].pre_committed == tr[0].post_committed);
        }
        lemma_committed_finalizes_nothing(rest);
    }
}

/// At most one block is ever finalized within one height: over any run of
/// handler steps at a fixed height, each obeying the discipline that the
/// handlers' contracts give (a finalize only on the transition into
/// `Committed`, and `Committed` persisting until the height advances), at
/// most one step emits a finalize action.
pub proof fn lemma_finalize_at_most_once(tr: Seq<StepObs>)
    requires
        forall|i: int| 0 <= i < tr.len() ==> step_obeys(#[trigger] tr[i]),
        chained(tr),
    ensures
        count_finalized(tr) <= 1,
    decreases tr.len(),
{
    if tr.len() > 0 {
        let rest = tr.subrange(1, tr.len() as int);
        assert(forall|i: int| 0 <= i < rest.len() ==> step_obeys(#[trigger] rest[i]));
        assert(chained(rest)) by {
            assert(forall|i: int|
                1 <= i < rest.len() ==> (#[trigger] rest[i]).pre_committed == rest[i
                    - 1].post_committed);
        }
        if tr[0].finalized {
            if rest.len() > 0 {
                assert(rest[0].pre_committed == tr[0].post_committed);
            }
            lemma_committed_finalizes_nothing(rest);
        } else {
            lemma_finalize_at_most_once(rest);
        }
    }
}

} // verus!

verus! {

/// Disjoint finite sets: the union's size is the sum of the sizes.
proof fn lemma_disjoint_union_len<A>(a: Set<A>, b: Set<A>)
    requires
        a.finite(),
        b.finite(),
        a.disjoint(b),
    ensures
        a.union(b).finite(),
        a.union(b).len() == a.len() + b.len(),
    decreases a.len(),
{
    if a.is_empty() {
        assert(a.union(b) =~= b);
    } else {
        let x = a.choose();
        assert(a.contains(x));
        lemma_disjoint_union_len(a.remove(x), b);
        assert(a.remove(x).union(b) =~= a.union(b).remove(x));
        assert(a.union(b).contains(x));
        assert(a.union(b).remove(x).len() == a.union(b).len() - 1);
    }
}

/// Two subsets of a finite set share at least `|a| + |b| - |v|` members.
pub proof fn lemma_subset_overlap<A>(v: Set<A>, a: Set<A>, b: Set<A>)
    requires
        v.finite(),
        a.subset_of(v),
        b.subset_of(v),
    ensures
        a.intersect(b).finite(),
        a.intersect(b).len() as int >= a.len() + b.len() - v.len(),
{
    vstd::set_lib::lemma_len_subset(a, v);
    vstd::set_lib::lemma_len_subset(b, v);
    let shared = b.intersect(a);
    let fresh = b.difference(a);
    assert(shared.union(fresh) =~= b);
    assert(shared.disjoint(fresh));
    lemma_disjoint_union_len(shared, fresh);
    assert(a.union(fresh) =~= a.union(b));
    assert(a.disjoint(fresh));
    lemma_disjoint_union_len(a, fresh);
    vstd::set_lib::lemma_len_subset(a.union(b), v);
    assert(a.intersect(b) =~= shared);
}

/// Safety of the commit rule: two quorums of `ceil(2 * N / 3)` members of
/// one validator set always share more members than the `floor((N - 1) / 3)`
/// validators that may be faulty -- so they share an honest member, and two
/// different blocks can never both gather an honest commit quorum at one
/// height.
pub proof fn lemma_quorums_overlap_beyond_faults<A>(v: Set<A>, a: Set<A>, b: Set<A>)
    requires
        v.finite(),
        v.len() >= 1,
        a.subset_of(v),
        b.subset_of(v),
        a.len() as int >= (2 * (v.len() as int) + 2) / 3,
        b.len() as int >= (2 * (v.len() as int) + 2) / 3,
    ensures
        a.intersect(b).len() as int > ((v.len() as int) - 1) / 3,
{
    lemma_subset_overlap(v, a, b);
    let n = v.len() as int;
    let q = (2 * n + 2) / 3;
    let f = (n - 1) / 3;
    vstd::arithmetic::div_mod::lemma_fundamental_div_mod(2 * n + 2, 3);
    vstd::arithmetic::div_mod::lemma_fundamental_div_mod(n - 1, 3);
    vstd::arithmetic::div_mod::lemma_fundamental_div_mod(n, 3);
    let r0 = (2 * n + 2) % 3;
    let r1 = (n - 1) % 3;
    let m = n % 3;
    assert(2 * q - n >= f + 1) by (nonlinear_arith)
        requires
            2 * n + 2 == 3 * q + r0 && 0 <= r0 < 3,
            n - 1 == 3 * f + r1 && 0 <= r1 < 3,
            n == 3 * (n / 3) + m && 0 <= m < 3,
    ;
}

} // verus!
