//! Settings defaults and the engine-cascade toggle.

use crate::history::DEFAULT_RETENTION_DAYS;
use crate::models::SttEngine;
use vstd::prelude::*;

verus! {

broadcast use vstd::string::group_string_axioms;

/// Default Whisper endpoint.
pub const DEFAULT_BASE_URL: &'static str = "https://api.openai.com/v1";

pub const DEFAULT_MODEL: &'static str = "whisper-1";

pub const DEFAULT_LOCAL_MODEL: &'static str = "whisper-base";

pub const DEFAULT_REMOTE_PROVIDER: &'static str = "openai";

pub fn default_local_model() -> (r: String)
    ensures
        r@ == DEFAULT_LOCAL_MODEL@,
{
    DEFAULT_LOCAL_MODEL.to_owned()
}

pub fn default_remote_provider() -> (r: String)
    ensures
        r@ == DEFAULT_REMOTE_PROVIDER@,
{
    DEFAULT_REMOTE_PROVIDER.to_owned()
}

/// Default cascade: remote first, then local, then native.
pub fn default_engine_order() -> (r: Vec<SttEngine>)
    ensures
        r@ == seq![SttEngine::Remote, SttEngine::Local, SttEngine::Native],
{
    vec![SttEngine::Remote, SttEngine::Local, SttEngine::Native]
}

pub fn default_history_retention_days() -> (r: u32)
    ensures
        r == DEFAULT_RETENTION_DAYS,
{
    DEFAULT_RETENTION_DAYS
}

/// `s` without any occurrence of `t`, order kept.
pub open spec fn without(s: Seq<SttEngine>, t: SttEngine) -> Seq<SttEngine>
    decreases s.len(),
{
    if s.len() == 0 {
        s
    } else if s.last() == t {
        without(s.drop_last(), t)
    } else {
        without(s.drop_last(), t).push(s.last())
    }
}

/// `s` with each run of equal neighbours reduced to one element (`Vec::dedup`).
pub open spec fn dedup_runs(s: Seq<SttEngine>) -> Seq<SttEngine>
    decreases s.len(),
{
    if s.len() <= 1 {
        s
    } else if s.last() == s[s.len() - 2] {
        dedup_runs(s.drop_last())
    } else {
        dedup_runs(s.drop_last()).push(s.last())
    }
}

/// The cascade after toggling `target`: a present engine is removed (the
/// rest deduplicated), unless no other engine is listed, so that the
/// cascade never becomes empty; an absent one is appended.
pub open spec fn toggled(order: Seq<SttEngine>, target: SttEngine) -> Seq<SttEngine> {
    if order.contains(target) {
        if without(order, target).len() == 0 {
            order
        } else {
            dedup_runs(without(order, target))
        }
    } else {
        order.push(target)
    }
}

proof fn lemma_dedup_last(s: Seq<SttEngine>)
    requires
        s.len() > 0,
    ensures
        dedup_runs(s).len() > 0,
        dedup_runs(s).last() == s.last(),
    decreases s.len(),
{
    if s.len() > 1 {
        lemma_dedup_last(s.drop_last());
    }
}

proof fn lemma_without_contains(s: Seq<SttEngine>, t: SttEngine, x: SttEngine)
    ensures
        without(s, t).contains(x) <==> (s.contains(x) && x != t),
        without(s, t).len() <= s.len(),
    decreases s.len(),
{
    if s.len() > 0 {
        let r = s.drop_last();
        lemma_without_contains(r, t, x);
        assert(r.push(s.last()) =~= s);
        vstd::seq_lib::lemma_seq_contains_after_push(r, s.last(), x);
        vstd::seq_lib::lemma_seq_contains_after_push(without(r, t), s.last(), x);
    }
}

/// Whether `order` lists `target`.
fn contains_engine(order: &[SttEngine], target: SttEngine) -> (r: bool)
    ensures
        r == order@.contains(target),
{
    let mut i: usize = 0;
    while i < order.len()
        invariant
            i <= order@.len(),
            forall|k: int| 0 <= k < i ==> order@[k] != target,
        decreases order@.len() - i,
    {
        if order[i] == target {
            return true;
        }
        i = i + 1;
    }
    false
}

/// Pure toggle logic for the engine cascade.
///
/// A present `target` is removed, and the remaining list deduplicated,
/// unless no other engine is listed, in which case `order` comes back
/// unchanged; an absent `target` is appended to the end.
pub fn toggle_engine(order: &[SttEngine], target: SttEngine) -> (r: Vec<SttEngine>)
    ensures
        r@ == toggled(order@, target),
{
    if contains_engine(order, target) {
        let mut filtered: Vec<SttEngine> = Vec::new();
        let mut i: usize = 0;
        while i < order.len()
            invariant
                i <= order@.len(),
                filtered@ == without(order@.take(i as int), target),
            decreases order@.len() - i,
        {
            assert(order@.take(i + 1).drop_last() =~= order@.take(i as int));
            if order[i] != target {
                filtered.push(order[i]);
            }
            i = i + 1;
        }
        assert(order@.take(order@.len() as int) =~= order@);
        if filtered.len() == 0 {
            return copy_engines(order);
        }
        let mut next: Vec<SttEngine> = Vec::new();
        let mut j: usize = 0;
        while j < filtered.len()
            invariant
                j <= filtered@.len(),
                next@ == dedup_runs(filtered@.take(j as int)),
            decreases filtered@.len() - j,
        {
            let ghost pre = filtered@.take(j + 1);
            assert(pre.drop_last() =~= filtered@.take(j as int));
            if j == 0 {
                next.push(filtered[j]);
                assert(next@ =~= pre);
            } else {
                proof {
                    lemma_dedup_last(filtered@.take(j as int));
                }
                let last = next[next.len() - 1];
                assert(pre[pre.len() - 2] == filtered@[j - 1]);
                if last != filtered[j] {
                    next.push(filtered[j]);
                }
            }
            j = j + 1;
        }
        assert(filtered@.take(filtered@.len() as int) =~= filtered@);
        next
    } else {
        let mut next = copy_engines(order);
        next.push(target);
        next
    }
}

fn copy_engines(order: &[SttEngine]) -> (r: Vec<SttEngine>)
    ensures
        r@ == order@,
{
    let mut r: Vec<SttEngine> = Vec::new();
    let mut i: usize = 0;
    while i < order.len()
        invariant
            i <= order@.len(),
            r@ == order@.take(i as int),
        decreases order@.len() - i,
    {
        r.push(order[i]);
        assert(order@.take(i + 1) =~= order@.take(i as int).push(order@[i as int]));
        i = i + 1;
    }
    assert(order@.take(order@.len() as int) =~= order@);
    r
}

proof fn lemma_dedup_no_duplicates(s: Seq<SttEngine>)
    requires
        s.no_duplicates(),
    ensures
        dedup_runs(s) == s,
    decreases s.len(),
{
    if s.len() > 1 {
        let r = s.drop_last();
        assert(r.no_duplicates());
        lemma_dedup_no_duplicates(r);
        assert(s[s.len() - 1] != s[s.len() - 2]);
        assert(r.push(s.last()) =~= s);
    }
}

proof fn lemma_without_no_duplicates(s: Seq<SttEngine>, t: SttEngine)
    requires
        s.no_duplicates(),
    ensures
        without(s, t).no_duplicates(),
        without(s, t).len() == if s.contains(t) {
            s.len() - 1
        } else {
            s.len() as int
        },
    decreases s.len(),
{
    if s.len() > 0 {
        let r = s.drop_last();
        assert(r.no_duplicates());
        lemma_without_no_duplicates(r, t);
        assert(r.push(s.last()) =~= s);
        vstd::seq_lib::lemma_seq_contains_after_push(r, s.last(), t);
        if s.last() != t {
            lemma_without_contains(r, t, s.last());
            assert(!r.contains(s.last())) by {
                if r.contains(s.last()) {
                    let i = choose|i: int| 0 <= i < r.len() && r[i] == s.last();
                    assert(s[i] == s[s.len() - 1]);
                }
            }
            let w = without(r, t);
            assert forall|i: int, j: int|
                0 <= i < w.len() + 1 && 0 <= j < w.len() + 1 && i != j implies w.push(s.last())[i]
                != w.push(s.last())[j] by {
                if i == w.len() {
                    assert(w.contains(w[j]));
                } else if j == w.len() {
                    assert(w.contains(w[i]));
                }
            }
        } else {
            assert(!r.contains(t)) by {
                if r.contains(t) {
                    let i = choose|i: int| 0 <= i < r.len() && r[i] == t;
                    assert(s[i] == s[s.len() - 1]);
                }
            }
        }
    }
}

proof fn lemma_without_absent(s: Seq<SttEngine>, t: SttEngine)
    requires
        !s.contains(t),
    ensures
        without(s, t) == s,
    decreases s.len(),
{
    if s.len() > 0 {
        let r = s.drop_last();
        vstd::seq_lib::lemma_seq_contains_after_push(r, s.last(), t);
        assert(r.push(s.last()) =~= s);
        lemma_without_absent(r, t);
    }
}

proof fn lemma_without_push(s: Seq<SttEngine>, t: SttEngine)
    ensures
        without(s.push(t), t) == without(s, t),
{
    assert(s.push(t).drop_last() =~= s);
}

/// Toggling never empties a cascade that lists at least one engine, even
/// one that lists an engine more than once.
pub proof fn lemma_toggle_never_empties(order: Seq<SttEngine>, target: SttEngine)
    requires
        order.len() > 0,
    ensures
        toggled(order, target).len() > 0,
{
    if order.contains(target) && without(order, target).len() > 0 {
        lemma_dedup_last(without(order, target));
    }
}

/// For a cascade without repeated engines, toggling keeps it free of
/// repeats and never empties it; the toggled engine is listed afterwards
/// exactly when it was not before (unless it was the only engine), and no
/// other engine changes membership.
pub proof fn lemma_toggle_membership(order: Seq<SttEngine>, target: SttEngine, x: SttEngine)
    requires
        order.no_duplicates(),
        order.len() > 0,
    ensures
        toggled(order, target).no_duplicates(),
        toggled(order, target).len() > 0,
        x != target ==> (toggled(order, target).contains(x) <==> order.contains(x)),
        order.len() > 1 ==> (toggled(order, target).contains(target) <==> !order.contains(
            target,
        )),
{
    vstd::seq_lib::lemma_seq_contains_after_push(order, target, x);
    vstd::seq_lib::lemma_seq_contains_after_push(order, target, target);
    if order.contains(target) {
        lemma_without_no_duplicates(order, target);
        if order.len() > 1 {
            lemma_dedup_no_duplicates(without(order, target));
            lemma_without_contains(order, target, x);
            lemma_without_contains(order, target, target);
        }
    } else {
        assert forall|i: int, j: int|
            0 <= i < order.len() + 1 && 0 <= j < order.len() + 1 && i != j implies order.push(
            target,
        )[i] != order.push(target)[j] by {
            if i == order.len() {
                assert(order.contains(order[j]));
            } else if j == order.len() {
                assert(order.contains(order[i]));
            }
        }
    }
}

/// Toggling an engine twice: an engine that was off comes back to the same
/// cascade; an engine that was on (and not the only one) ends up moved to
/// the end, the rest of the order kept.
pub proof fn lemma_toggle_round_trip(order: Seq<SttEngine>, target: SttEngine)
    requires
        order.no_duplicates(),
        order.len() > 0,
    ensures
        !order.contains(target) ==> toggled(toggled(order, target), target) == order,
        order.contains(target) && order.len() > 1 ==> toggled(toggled(order, target), target)
            == without(order, target).push(target),
{
    if !order.contains(target) {
        let once = order.push(target);
        assert(once.contains(target)) by {
            assert(once[order.len() as int] == target);
        }
        lemma_without_push(order, target);
        lemma_without_absent(order, target);
        lemma_dedup_no_duplicates(order);
    } else {
        lemma_without_no_duplicates(order, target);
        let w = without(order, target);
        lemma_dedup_no_duplicates(w);
        lemma_without_contains(order, target, target);
    }
}

} // verus!
