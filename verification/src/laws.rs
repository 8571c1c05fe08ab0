//! What holds of every coercion, stated over the contract of
//! [`Mutify::__coerce_mut`](crate::Mutify::__coerce_mut).
//!
//! A mutable reference is described here by two values: the one it reads now
//! and the one it leaves behind when it is given up. A handle stands for a place
//! when it reads the value of the place and leaves its own last value there.

use vstd::prelude::*;
use crate::Mutify;

verus! {

/// Coercion is idempotent: a handle that was coerced once more stands for the
/// place that the first handle stands for. It reads the value of `place`, and
/// what it leaves behind is what `place` holds afterwards.
pub proof fn lemma_coercion_idempotent<T>(place: &mut T, first: &mut T, second: &mut T)
    requires
        call_ensures(<T as Mutify>::__coerce_mut, (place,), first),
        call_ensures(<T as Mutify>::__coerce_mut, (first,), second),
    ensures
        *old(second) == *old(place),
        *final(place) == *final(second),
{
}

/// Coercing one binding twice in turn reaches the same place both times.
/// `earlier` and `later` are two borrows of the binding, the second taken when
/// the first has ended, so that it starts from the value that the first left.
/// Then the second handle reads what was last written through the first, and
/// the binding ends with what was last written through the second.
pub proof fn lemma_coercion_repeatable<T>(
    earlier: &mut T,
    first: &mut T,
    later: &mut T,
    second: &mut T,
)
    requires
        call_ensures(<T as Mutify>::__coerce_mut, (earlier,), first),
        call_ensures(<T as Mutify>::__coerce_mut, (later,), second),
        *old(later) == *final(earlier),
    ensures
        *old(second) == *final(first),
        *final(later) == *final(second),
{
}

} // verus!
