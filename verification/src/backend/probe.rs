//! The verdict on a list of platform checks.

use vstd::prelude::*;
use crate::backend::Datum;

verus! {

/// A platform is supported exactly when every reported check passes. A list
/// without checks reports nothing against the platform, so it counts as
/// supported.
pub open spec fn supported(data: Seq<Datum>) -> bool {
    forall|i: int| 0 <= i < data.len() ==> (#[trigger] data[i]).pass
}

/// Whether `i` is the place of the first failing check in `data`.
pub open spec fn is_first_failure(data: Seq<Datum>, i: int) -> bool {
    &&& 0 <= i < data.len()
    &&& !data[i].pass
    &&& forall|j: int| 0 <= j < i ==> (#[trigger] data[j]).pass
}

/// The place of the first failing check. Checks are reported with the more
/// fundamental ones first, so this is the root cause to show to the user.
pub fn first_failure(data: &Vec<Datum>) -> (first: Option<usize>)
    ensures
        match first {
            Some(i) => is_first_failure(data@, i as int),
            None => supported(data@),
        },
{
    let mut i: usize = 0;
    while i < data.len()
        invariant
            i <= data.len(),
            forall|j: int| 0 <= j < i ==> (#[trigger] data@[j]).pass,
        decreases data.len() - i,
    {
        if !data[i].pass {
            return Some(i);
        }
        i += 1;
    }
    None
}

/// Whether every check in `data` passes.
pub fn all_pass(data: &Vec<Datum>) -> (ok: bool)
    ensures
        ok == supported(data@),
{
    first_failure(data).is_none()
}

/// One failing check makes the platform unsupported, whatever the others say.
pub proof fn lemma_one_failure_decides(data: Seq<Datum>, i: int)
    requires
        0 <= i < data.len(),
        !data[i].pass,
    ensures
        !supported(data),
{
}

/// Turning any one check of a list into a failing one makes the list
/// unsupported.
pub proof fn lemma_flip_to_fail(data: Seq<Datum>, i: int)
    requires
        0 <= i < data.len(),
    ensures
        !supported(data.update(i, Datum { pass: false, ..data[i] })),
{
    let flipped = data.update(i, Datum { pass: false, ..data[i] });
    assert(!flipped[i].pass);
}

/// A list is supported exactly when it holds no failing check.
pub proof fn lemma_supported_iff_no_failure(data: Seq<Datum>)
    ensures
        supported(data) <==> !(exists|i: int| 0 <= i < data.len() && !(#[trigger] data[i]).pass),
{
}

/// A list without checks counts as supported.
pub proof fn lemma_no_checks_supported()
    ensures
        supported(Seq::<Datum>::empty()),
{
}

} // verus!
