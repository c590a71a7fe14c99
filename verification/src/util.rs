use vstd::prelude::*;

verus! {

/// Pushes one element onto a vector and states the effect on the vector's
/// deep view, which callers cannot get from `Vec::push` alone.
pub(crate) fn push_dv<T: DeepView>(acc: &mut Vec<T>, x: T)
    ensures
        final(acc).deep_view() == old(acc).deep_view().push(x.deep_view()),
{
    let ghost pre = acc.deep_view();
    let ghost xv = x.deep_view();
    acc.push(x);
    proof {
        assert(acc.deep_view() =~= pre.push(xv));
    }
}

/// Relies on `str`'s `PartialEq` impl: two string slices compare equal
/// exactly when they consist of the same characters.
pub assume_specification[ <str as PartialEq<str>>::eq ](a: &str, b: &str) -> (r: bool)
    ensures
        r == (a@ == b@),
;

/// Character-for-character equality of two string slices.
pub(crate) fn str_eq(a: &str, b: &str) -> (r: bool)
    ensures
        r == (a@ == b@),
{
    a.eq(b)
}

} // verus!
