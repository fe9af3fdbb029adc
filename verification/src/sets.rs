use vstd::prelude::*;
use vstd::string::StringExecFns;

verus! {

/// A value that an insertion-ordered set can hold: comparing two values
/// decides exactly their equality.
pub trait SetItem: Sized + Copy {
    /// Whether the two values are equal.
    fn same(&self, other: &Self) -> (r: bool)
        ensures
            r == (*self == *other),
    ;
}

impl SetItem for usize {
    fn same(&self, other: &Self) -> (r: bool)
        ensures
            r == (*self == *other),
    {
        *self == *other
    }
}

impl SetItem for i32 {
    fn same(&self, other: &Self) -> (r: bool)
        ensures
            r == (*self == *other),
    {
        *self == *other
    }
}

impl SetItem for crate::args::Registers {
    fn same(&self, other: &Self) -> (r: bool)
        ensures
            r == (*self == *other),
    {
        *self == *other
    }
}

/// The sequence with `value` appended if it is absent, unchanged if it is
/// already a member.
pub open spec fn add_elem<T>(vals: Seq<T>, value: T) -> Seq<T> {
    if vals.contains(value) {
        vals
    } else {
        vals.push(value)
    }
}

/// The sequence with every occurrence of `value` removed, in the order
/// the remaining elements had.
pub open spec fn remove_elem<T>(vals: Seq<T>, value: T) -> Seq<T> {
    vals.filter(|v: T| v != value)
}

/// Whether the vector holds the value.
pub fn contains_item<T: SetItem>(vals: &Vec<T>, value: &T) -> (r: bool)
    ensures
        r == vals@.contains(*value),
{
    let mut i: usize = 0;
    while i < vals.len()
        invariant
            i <= vals@.len(),
            forall|k: int| 0 <= k < i ==> vals@[k] != *value,
        decreases vals@.len() - i,
    {
        if vals[i].same(value) {
            return true;
        }
        i = i + 1;
    }
    false
}

/// Adds a value to an insertion-ordered set: appended when absent, a
/// no-op when already present.
pub fn add_if_not_present<T: SetItem>(value: T, vals: Vec<T>) -> (r: Vec<T>)
    ensures
        r@ == add_elem(vals@, value),
{
    if contains_item(&vals, &value) {
        vals
    } else {
        let mut vals = vals;
        vals.push(value);
        vals
    }
}

/// Removes a value from an insertion-ordered set: every occurrence is
/// dropped, and removing an absent value is a no-op.
pub fn remove_if_present<T: SetItem>(value: T, vals: Vec<T>) -> (r: Vec<T>)
    ensures
        r@ == remove_elem(vals@, value),
{
    let mut r: Vec<T> = Vec::new();
    let mut i: usize = 0;
    while i < vals.len()
        invariant
            i <= vals@.len(),
            r@ == vals@.take(i as int).filter(|v: T| v != value),
        decreases vals@.len() - i,
    {
        proof {
            reveal(Seq::filter);
            assert(vals@.take(i as int + 1).drop_last() =~= vals@.take(i as int));
            assert(vals@.take(i as int + 1).last() == vals@[i as int]);
        }
        if !vals[i].same(&value) {
            r.push(vals[i]);
        }
        i = i + 1;
    }
    proof {
        assert(vals@.take(vals@.len() as int) =~= vals@);
    }
    r
}

/// Adds or removes a value depending on an action token: `+` adds, `-`
/// removes, anything else is rejected with a message naming the token.
pub fn add_or_remove<T: SetItem>(action: &String, value: T, vals: Vec<T>) -> (r: Result<
    Vec<T>,
    String,
>)
    ensures
        match r {
            Ok(v) => (action@ == "+"@ || action@ == "-"@) && v@ == (if action@ == "+"@ {
                add_elem(vals@, value)
            } else {
                remove_elem(vals@, value)
            }),
            Err(s) => action@ != "+"@ && action@ != "-"@ && s@ == "Invalid action `"@
                + action@ + "`, actions must be add (+) or remove (-)"@,
        },
{
    let cs = crate::text::chars_of(action.as_str());
    if crate::text::eq_str(&cs, "+") {
        Ok(add_if_not_present(value, vals))
    } else if crate::text::eq_str(&cs, "-") {
        Ok(remove_if_present(value, vals))
    } else {
        let mut msg = String::new();
        msg.append("Invalid action `");
        msg.append(action.as_str());
        msg.append("`, actions must be add (+) or remove (-)");
        proof {
            assert(msg@ =~= "Invalid action `"@ + action@
                + "`, actions must be add (+) or remove (-)"@);
        }
        Err(msg)
    }
}

/// Adding a value that is already a member leaves the set as it is; in
/// particular adding the same value twice is the same as adding it once.
pub proof fn lemma_add_idempotent<T>(vals: Seq<T>, value: T)
    ensures
        add_elem(add_elem(vals, value), value) == add_elem(vals, value),
{
    if !vals.contains(value) {
        assert(vals.push(value)[vals.len() as int] == value);
        assert(vals.push(value).contains(value));
    }
}

/// Adding an absent value appends it: every element already present keeps
/// its place, and the new value comes last.
pub proof fn lemma_add_preserves_order<T>(vals: Seq<T>, value: T)
    requires
        !vals.contains(value),
    ensures
        add_elem(vals, value).len() == vals.len() + 1,
        forall|i: int| 0 <= i < vals.len() ==> add_elem(vals, value)[i] == vals[i],
        add_elem(vals, value)[vals.len() as int] == value,
{
}

/// Removing elements keeps every remaining address below a bound it was
/// below before.
pub proof fn lemma_remove_preserves_bound(vals: Seq<usize>, value: usize, b: usize)
    requires
        forall|i: int| 0 <= i < vals.len() ==> vals[i] < b,
    ensures
        forall|i: int|
            0 <= i < remove_elem(vals, value).len() ==> #[trigger] remove_elem(
                vals,
                value,
            )[i] < b,
    decreases vals.len(),
{
    reveal(Seq::filter);
    if vals.len() > 0 {
        assert(forall|i: int|
            0 <= i < vals.drop_last().len() ==> #[trigger] vals.drop_last()[i] < b);
        lemma_remove_preserves_bound(vals.drop_last(), value, b);
        let sub = remove_elem(vals.drop_last(), value);
        let out = remove_elem(vals, value);
        assert forall|i: int| 0 <= i < out.len() implies out[i] < b by {
            if vals.last() != value && i == out.len() - 1 {
                assert(out[i] == vals.last());
                assert(vals.last() == vals[vals.len() - 1]);
            } else {
                assert(out[i] == sub[i]);
            }
        }
    }
}

/// Removing a value that is not a member leaves the set exactly as it
/// is.
pub proof fn lemma_remove_absent_noop<T>(vals: Seq<T>, value: T)
    requires
        !vals.contains(value),
    ensures
        remove_elem(vals, value) == vals,
    decreases vals.len(),
{
    reveal(Seq::filter);
    if vals.len() == 0 {
        assert(remove_elem(vals, value) =~= vals);
    } else {
        assert(vals.drop_last().push(vals.last()) =~= vals);
        assert(forall|i: int|
            0 <= i < vals.drop_last().len() ==> vals.drop_last()[i] == vals[i]);
        lemma_remove_absent_noop(vals.drop_last(), value);
        assert(vals.last() != value);
        assert(remove_elem(vals, value) =~= vals);
    }
}

} // verus!
