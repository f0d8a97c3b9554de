//! The set of chosen options: an ordered list in which a kind that does not
//! accumulate occurs once at most, and the policy by which a newly chosen
//! option is merged into it.

use crate::display::{AppOptions, MergePolicy, OptionKind, OptionValue};
use crate::vectors::lemma_deep_view_push;
use vstd::prelude::*;

verus! {

/// Whether the list holds an option of the given kind, whatever it holds.
pub open spec fn has_kind(s: Seq<OptionValue>, k: OptionKind) -> bool {
    exists|i: int| 0 <= i < s.len() && (#[trigger] s[i]).kind() == k
}

/// Whether `i` is the first place of the list at which an option of the
/// given kind stands.
pub open spec fn is_first_of_kind(s: Seq<OptionValue>, k: OptionKind, i: int) -> bool {
    &&& 0 <= i < s.len()
    &&& s[i].kind() == k
    &&& forall|j: int| 0 <= j < i ==> (#[trigger] s[j]).kind() != k
}

/// The first place of the list at which an option of the given kind stands,
/// where there is one.
pub open spec fn first_of_kind(s: Seq<OptionValue>, k: OptionKind) -> int {
    choose|i: int| is_first_of_kind(s, k, i)
}

/// How many options of the given kind the list holds.
pub open spec fn count_kind(s: Seq<OptionValue>, k: OptionKind) -> nat
    decreases s.len(),
{
    if s.len() == 0 {
        0
    } else {
        count_kind(s.drop_last(), k) + if s.last().kind() == k {
            1nat
        } else {
            0nat
        }
    }
}

/// The list without its options of the given kind, the others in their order.
pub open spec fn without_kind(s: Seq<OptionValue>, k: OptionKind) -> Seq<OptionValue>
    decreases s.len(),
{
    if s.len() == 0 {
        s
    } else if s.last().kind() == k {
        without_kind(s.drop_last(), k)
    } else {
        without_kind(s.drop_last(), k).push(s.last())
    }
}

/// The list after the option `o` is chosen, by the policy of its kind: a
/// switch leaves the list if it is there and enters it if it is not; a kind
/// that accumulates is added at the end; any other kind takes the place of
/// the option of its kind that stands first, or is added at the end if there
/// is none.
pub open spec fn merged(s: Seq<OptionValue>, o: OptionValue) -> Seq<OptionValue> {
    match o.kind().policy() {
        MergePolicy::Toggle => if has_kind(s, o.kind()) {
            without_kind(s, o.kind())
        } else {
            s.push(o)
        },
        MergePolicy::Accumulate => s.push(o),
        MergePolicy::Replace => if has_kind(s, o.kind()) {
            s.update(first_of_kind(s, o.kind()), o)
        } else {
            s.push(o)
        },
    }
}

/// The invariant of the set: a kind that does not accumulate occurs once at
/// most.
pub open spec fn at_most_once(s: Seq<OptionValue>) -> bool {
    forall|k: OptionKind|
        k.policy() != MergePolicy::Accumulate ==> #[trigger] count_kind(s, k) <= 1
}

/// A kind occurs in a list exactly if its count there is not zero.
pub proof fn lemma_has_kind_count(s: Seq<OptionValue>, k: OptionKind)
    ensures
        has_kind(s, k) <==> count_kind(s, k) > 0,
    decreases s.len(),
{
    if s.len() > 0 {
        let t = s.drop_last();
        lemma_has_kind_count(t, k);
        if has_kind(s, k) {
            let i = choose|i: int| 0 <= i < s.len() && (#[trigger] s[i]).kind() == k;
            if i < s.len() - 1 {
                assert(t[i].kind() == k);
            }
        }
        if count_kind(s, k) > 0 {
            if s.last().kind() == k {
                assert(s[s.len() - 1].kind() == k);
            } else {
                let i = choose|i: int| 0 <= i < t.len() && (#[trigger] t[i]).kind() == k;
                assert(s[i].kind() == k);
            }
        }
    }
}

/// A list that holds a kind has a first place at which the kind stands.
pub proof fn lemma_first_of_kind_exists(s: Seq<OptionValue>, k: OptionKind)
    requires
        has_kind(s, k),
    ensures
        is_first_of_kind(s, k, first_of_kind(s, k)),
    decreases s.len(),
{
    let t = s.drop_last();
    if has_kind(t, k) {
        lemma_first_of_kind_exists(t, k);
        let i = first_of_kind(t, k);
        assert(s[i] == t[i]);
        assert forall|j: int| 0 <= j < i implies (#[trigger] s[j]).kind() != k by {
            assert(s[j] == t[j]);
        }
        assert(is_first_of_kind(s, k, i));
    } else {
        let i = choose|i: int| 0 <= i < s.len() && (#[trigger] s[i]).kind() == k;
        if i < s.len() - 1 {
            assert(t[i].kind() == k);
        }
        assert forall|j: int| 0 <= j < s.len() - 1 implies (#[trigger] s[j]).kind() != k by {
            assert(t[j] == s[j]);
        }
        assert(is_first_of_kind(s, k, s.len() - 1));
    }
}

/// The first place of a kind is one place.
pub proof fn lemma_first_of_kind_unique(s: Seq<OptionValue>, k: OptionKind, i: int)
    requires
        is_first_of_kind(s, k, i),
    ensures
        first_of_kind(s, k) == i,
{
    let j = first_of_kind(s, k);
    if j < i {
        assert(s[j].kind() != k);
    } else if i < j {
        assert(s[i].kind() != k);
    }
}

/// Adding an option at the end raises the count of its kind by one and
/// leaves the other counts.
pub proof fn lemma_count_push(s: Seq<OptionValue>, o: OptionValue, k: OptionKind)
    ensures
        count_kind(s.push(o), k) == count_kind(s, k) + if o.kind() == k {
            1nat
        } else {
            0nat
        },
{
    assert(s.push(o).drop_last() =~= s);
}

/// Putting an option in the place of one of its own kind leaves every count.
pub proof fn lemma_count_update(s: Seq<OptionValue>, i: int, o: OptionValue, k: OptionKind)
    requires
        0 <= i < s.len(),
        s[i].kind() == o.kind(),
    ensures
        count_kind(s.update(i, o), k) == count_kind(s, k),
    decreases s.len(),
{
    let u = s.update(i, o);
    if i == s.len() - 1 {
        assert(u.drop_last() =~= s.drop_last());
    } else {
        assert(u.drop_last() =~= s.drop_last().update(i, o));
        lemma_count_update(s.drop_last(), i, o, k);
    }
}

/// Taking a kind out of a list leaves none of it and leaves the count of
/// every other kind.
pub proof fn lemma_count_without(s: Seq<OptionValue>, removed: OptionKind, k: OptionKind)
    ensures
        count_kind(without_kind(s, removed), k) == if k == removed {
            0
        } else {
            count_kind(s, k)
        },
    decreases s.len(),
{
    if s.len() > 0 {
        lemma_count_without(s.drop_last(), removed, k);
        if s.last().kind() != removed {
            lemma_count_push(without_kind(s.drop_last(), removed), s.last(), k);
        }
    }
}

/// A list that does not hold a kind is left as it is when the kind is taken
/// out of it.
pub proof fn lemma_without_absent(s: Seq<OptionValue>, k: OptionKind)
    requires
        !has_kind(s, k),
    ensures
        without_kind(s, k) == s,
    decreases s.len(),
{
    if s.len() > 0 {
        let t = s.drop_last();
        assert(s[s.len() - 1].kind() != k);
        assert forall|i: int| 0 <= i < t.len() implies (#[trigger] t[i]).kind() != k by {
            assert(s[i] == t[i]);
        }
        lemma_without_absent(t, k);
        assert(t.push(s.last()) =~= s);
    }
}

/// Nothing occurs twice in the empty list.
pub proof fn lemma_empty_at_most_once()
    ensures
        at_most_once(Seq::<OptionValue>::empty()),
{
}

/// Taking a kind out of a list keeps the invariant of the set.
pub proof fn lemma_without_keeps_at_most_once(s: Seq<OptionValue>, removed: OptionKind)
    requires
        at_most_once(s),
    ensures
        at_most_once(without_kind(s, removed)),
{
    assert forall|k: OptionKind| k.policy() != MergePolicy::Accumulate implies #[trigger] count_kind(
        without_kind(s, removed),
        k,
    ) <= 1 by {
        lemma_count_without(s, removed, k);
    }
}

/// How the count of a kind changes when an option is chosen: the count of
/// another kind stays; a switch goes from none to one and from any to none;
/// a kind that accumulates gains one; any other kind goes from none to one
/// and stays where it was otherwise.
pub proof fn lemma_count_merged(s: Seq<OptionValue>, o: OptionValue, k: OptionKind)
    ensures
        count_kind(merged(s, o), k) == if k != o.kind() {
            count_kind(s, k)
        } else {
            match k.policy() {
                MergePolicy::Toggle => if count_kind(s, k) == 0 {
                    1nat
                } else {
                    0nat
                },
                MergePolicy::Accumulate => count_kind(s, k) + 1,
                MergePolicy::Replace => if count_kind(s, k) == 0 {
                    1nat
                } else {
                    count_kind(s, k)
                },
            }
        },
{
    lemma_has_kind_count(s, o.kind());
    lemma_count_push(s, o, k);
    lemma_count_without(s, o.kind(), k);
    if has_kind(s, o.kind()) {
        lemma_first_of_kind_exists(s, o.kind());
        lemma_count_update(s, first_of_kind(s, o.kind()), o, k);
    }
}

/// Choosing an option keeps the invariant of the set: whatever is chosen,
/// and however often, a kind that does not accumulate occurs once at most.
pub proof fn lemma_merged_keeps_at_most_once(s: Seq<OptionValue>, o: OptionValue)
    requires
        at_most_once(s),
    ensures
        at_most_once(merged(s, o)),
{
    assert forall|k: OptionKind| k.policy() != MergePolicy::Accumulate implies #[trigger] count_kind(
        merged(s, o),
        k,
    ) <= 1 by {
        lemma_count_merged(s, o, k);
    }
}

/// An option of a kind that is replaced, chosen after another of its kind:
/// the set then holds exactly one option of the kind, which is the later
/// one, at the place where the earlier one stood; nothing else has changed.
pub proof fn lemma_replaced_when_chosen_again(
    s: Seq<OptionValue>,
    earlier: OptionValue,
    later: OptionValue,
)
    requires
        at_most_once(s),
        earlier.kind() == later.kind(),
        later.kind().policy() == MergePolicy::Replace,
    ensures
        ({
            let first = merged(s, earlier);
            let second = merged(first, later);
            let place = first_of_kind(first, later.kind());
            &&& is_first_of_kind(first, later.kind(), place)
            &&& first[place] == earlier
            &&& second == first.update(place, later)
            &&& count_kind(second, later.kind()) == 1
        }),
{
    let k = later.kind();
    let first = merged(s, earlier);
    lemma_count_merged(s, earlier, k);
    lemma_has_kind_count(s, k);
    lemma_has_kind_count(first, k);
    assert(count_kind(s, k) <= 1);
    lemma_first_of_kind_exists(first, k);
    let place = first_of_kind(first, k);
    if has_kind(s, k) {
        lemma_first_of_kind_exists(s, k);
        let i = first_of_kind(s, k);
        assert forall|j: int| 0 <= j < i implies (#[trigger] first[j]).kind() != k by {
            assert(first[j] == s[j]);
        }
        assert(is_first_of_kind(first, k, i));
        lemma_first_of_kind_unique(first, k, i);
    } else {
        assert forall|j: int| 0 <= j < s.len() implies (#[trigger] first[j]).kind() != k by {
            assert(first[j] == s[j]);
        }
        assert(is_first_of_kind(first, k, s.len() as int));
        lemma_first_of_kind_unique(first, k, s.len() as int);
    }
    lemma_count_merged(first, later, k);
}

/// Two options of a kind that accumulates, chosen one after the other: both
/// are in the set, at its end, in the order in which they were chosen, and
/// the set holds two more options of the kind than before.
pub proof fn lemma_accumulated_in_order(s: Seq<OptionValue>, first: OptionValue, second: OptionValue)
    requires
        first.kind() == second.kind(),
        first.kind().policy() == MergePolicy::Accumulate,
    ensures
        merged(merged(s, first), second) == s.push(first).push(second),
        count_kind(merged(merged(s, first), second), first.kind()) == count_kind(s, first.kind())
            + 2,
{
    lemma_count_push(s, first, first.kind());
    lemma_count_push(s.push(first), second, first.kind());
}

/// A switch operated twice is shown as it was shown before, and is in the
/// set once at most after either time.
pub proof fn lemma_toggled_twice(s: Seq<OptionValue>, o: OptionValue)
    requires
        at_most_once(s),
        o.kind().policy() == MergePolicy::Toggle,
    ensures
        has_kind(merged(s, o), o.kind()) == !has_kind(s, o.kind()),
        has_kind(merged(merged(s, o), o), o.kind()) == has_kind(s, o.kind()),
        count_kind(merged(s, o), o.kind()) <= 1,
        count_kind(merged(merged(s, o), o), o.kind()) <= 1,
        !has_kind(s, o.kind()) ==> merged(merged(s, o), o) == s,
{
    let k = o.kind();
    let once = merged(s, o);
    lemma_count_merged(s, o, k);
    lemma_count_merged(once, o, k);
    lemma_has_kind_count(s, k);
    lemma_has_kind_count(once, k);
    lemma_has_kind_count(merged(once, o), k);
    if !has_kind(s, k) {
        lemma_without_absent(s, k);
        assert(once.drop_last() =~= s);
    }
}

/// Whether the list holds an option of the given kind.
pub fn contains_kind(opts: &Vec<AppOptions>, k: OptionKind) -> (r: bool)
    ensures
        r == has_kind(opts.deep_view(), k),
{
    match position_of_kind(opts, k) {
        Some(_) => true,
        None => false,
    }
}

/// The first place at which the list holds an option of the given kind.
pub fn position_of_kind(opts: &Vec<AppOptions>, k: OptionKind) -> (r: Option<usize>)
    ensures
        match r {
            Some(i) => is_first_of_kind(opts.deep_view(), k, i as int),
            None => !has_kind(opts.deep_view(), k),
        },
{
    let mut i: usize = 0;
    while i < opts.len()
        invariant
            i <= opts.len(),
            forall|j: int| 0 <= j < i ==> (#[trigger] opts.deep_view()[j]).kind() != k,
        decreases opts.len() - i,
    {
        if opts[i].kind() == k {
            return Some(i);
        }
        i = i + 1;
    }
    None
}

/// Takes every option of the given kind out of the list.
pub fn remove_kind(opts: &mut Vec<AppOptions>, k: OptionKind)
    ensures
        final(opts).deep_view() == without_kind(old(opts).deep_view(), k),
{
    let mut kept: Vec<AppOptions> = Vec::new();
    let mut i: usize = 0;
    assert(opts.deep_view().take(0) =~= Seq::empty());
    assert(kept.deep_view() =~= Seq::empty());
    while i < opts.len()
        invariant
            i <= opts.len(),
            kept.deep_view() == without_kind(opts.deep_view().take(i as int), k),
        decreases opts.len() - i,
    {
        proof {
            assert(opts.deep_view().take(i + 1).drop_last() =~= opts.deep_view().take(i as int));
        }
        if opts[i].kind() != k {
            let ghost before = kept@;
            kept.push(opts[i].clone());
            proof {
                lemma_deep_view_push(before, kept, opts[i as int]);
            }
        }
        i = i + 1;
    }
    assert(opts.deep_view().take(i as int) =~= opts.deep_view());
    *opts = kept;
}

} // verus!
