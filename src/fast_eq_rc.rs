use std::rc::Rc;

use vstd::prelude::*;

use crate::update_from_diff::UpdateFromDiff;

verus! {

/// The identity of a shared handle: a small allocation of its own, made
/// together with the handle and shared by its clones.
///
/// Opaque to Verus: two values are equal exactly when they hold the same
/// allocation.
#[verifier::external_body]
#[derive(Debug)]
struct Identity(Rc<()>);

/// Relies on `Rc::new`: a new allocation is distinct from every allocation that
/// is still held, the one `live` holds among them.
#[verifier::external_body]
fn new_identity(live: Option<&Identity>) -> (r: Identity)
    ensures
        live matches Some(l) ==> r != *l,
{
    Identity(Rc::new(()))
}

/// Relies on `Rc::clone`: the copy holds the same allocation.
#[verifier::external_body]
fn copy_identity(a: &Identity) -> (r: Identity)
    ensures
        r == *a,
{
    Identity(Rc::clone(&a.0))
}

/// Relies on `Rc::ptr_eq`: true exactly when both hold the same allocation.
#[verifier::external_body]
fn same_identity(a: &Identity, b: &Identity) -> (r: bool)
    ensures
        r == (*a == *b),
{
    Rc::ptr_eq(&a.0, &b.0)
}

/// Relies on `Rc::clone`: a second handle to the same value.
#[verifier::external_body]
fn share<T>(rc: &Rc<T>) -> (r: Rc<T>)
    ensures
        r == *rc,
{
    Rc::clone(rc)
}

/// A shared, immutable value whose equality is identity: two handles are equal
/// exactly when they point to the same instance, whatever the values hold.
///
/// Cloning is cheap and yields a handle to the same instance; `new` makes a new
/// instance.
#[verifier::reject_recursive_types(T)]
#[derive(Debug)]
pub struct FastEqRc<T> {
    value: Rc<T>,
    identity: Identity,
}

impl<T> View for FastEqRc<T> {
    type V = T;

    /// The value held.
    closed spec fn view(&self) -> T {
        *self.value
    }
}

impl<T> FastEqRc<T> {
    /// Both handles point to the same instance.
    pub closed spec fn same_instance(&self, other: &Self) -> bool {
        self.identity == other.identity
    }

    /// Every handle is the same instance as itself.
    pub proof fn lemma_same_instance_reflexive(&self)
        ensures
            self.same_instance(self),
    {
    }

    /// Being the same instance goes both ways.
    pub proof fn lemma_same_instance_symmetric(&self, other: &Self)
        ensures
            self.same_instance(other) == other.same_instance(self),
    {
    }

    /// Two handles that are each the same instance as a third are the same
    /// instance.
    pub proof fn lemma_same_instance_transitive(&self, middle: &Self, other: &Self)
        requires
            self.same_instance(middle),
            middle.same_instance(other),
        ensures
            self.same_instance(other),
    {
    }

    /// Equal handles point to the same instance.
    pub proof fn lemma_equal_same_instance(&self, other: &Self)
        requires
            *self == *other,
        ensures
            self.same_instance(other),
            other.same_instance(self),
    {
    }

    /// A handle to a new instance holding `value`.
    pub fn new(value: T) -> (r: Self)
        ensures
            r@ == value,
    {
        FastEqRc { value: Rc::new(value), identity: new_identity(None) }
    }
}

impl<T> AsRef<T> for FastEqRc<T> {
    /// The value held.
    fn as_ref(&self) -> (r: &T)
        ensures
            *r == self@,
    {
        &*self.value
    }
}

impl<T> Clone for FastEqRc<T> {
    /// A second handle to the same instance.
    fn clone(&self) -> (r: Self)
        ensures
            r == *self,
            r.same_instance(self),
    {
        FastEqRc { value: share(&self.value), identity: copy_identity(&self.identity) }
    }
}

impl<T> PartialEq for FastEqRc<T> {
    /// Identity, not the values held.
    fn eq(&self, other: &Self) -> (r: bool)
        ensures
            r == self.same_instance(other),
    {
        same_identity(&self.identity, &other.identity)
    }
}

impl<T> vstd::std_specs::cmp::PartialEqSpecImpl for FastEqRc<T> {
    open spec fn obeys_eq_spec() -> bool {
        true
    }

    open spec fn eq_spec(&self, other: &Self) -> bool {
        self.same_instance(other)
    }
}

impl<T: Default> Default for FastEqRc<T> {
    /// A new instance holding `T`'s default value.
    fn default() -> (r: Self)
        ensures
            T::default.ensures((), r@),
    {
        FastEqRc::new(T::default())
    }
}

/// A diff of a shared value carries a whole new value, which becomes a new
/// instance, even when it equals the old one; no diff leaves the handle as it
/// was, the same instance.
impl<T> UpdateFromDiff<Option<T>> for FastEqRc<T> {
    open spec fn diff_applied(current: Self, diff: Option<T>, updated: Self) -> bool {
        match diff {
            Some(new_value) => updated@ == new_value && !updated.same_instance(&current),
            None => updated == current,
        }
    }

    fn update_from_diff(&mut self, diff: Option<T>) {
        if let Some(new_value) = diff {
            let identity = new_identity(Some(&self.identity));
            *self = FastEqRc { value: Rc::new(new_value), identity };
        }
    }
}

impl<T> std::ops::Deref for FastEqRc<T> {
    type Target = T;

    /// The value held.
    fn deref(&self) -> (r: &T)
        ensures
            *r == self@,
    {
        &*self.value
    }
}

} // verus!
