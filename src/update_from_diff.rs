use vstd::prelude::*;

verus! {

/// A value that a diff of type `Diff` can bring up to date in place.
pub trait UpdateFromDiff<Diff>: Sized {
    /// `updated` is what `current` may become once `diff` has been applied.
    spec fn diff_applied(current: Self, diff: Diff, updated: Self) -> bool;

    /// Applies `diff`: what it leaves unchanged stays as it was, what it carries
    /// replaces what was there.
    fn update_from_diff(&mut self, diff: Diff)
        ensures
            Self::diff_applied(*old(self), diff, *final(self)),
    ;
}

/// The base case: a value that is not split into parts is replaced whole by a
/// diff that carries one (`Some`), and left as it is by one that does not
/// (`None`).
impl<T> UpdateFromDiff<Option<T>> for T {
    open spec fn diff_applied(current: T, diff: Option<T>, updated: T) -> bool {
        updated == match diff {
            Some(new_value) => new_value,
            None => current,
        }
    }

    fn update_from_diff(&mut self, diff: Option<T>) {
        if let Some(new_value) = diff {
            *self = new_value;
        }
    }
}

} // verus!
