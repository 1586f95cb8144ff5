//! [`WithId`]: an entity together with the id that identifies it in the
//! database.
use vstd::prelude::*;
use vstd::std_specs::cmp::PartialEqSpec;

verus! {

/// An entity wrapped together with the id that the database gave it.
///
/// `Debug` shows the id first, then the entity; `Clone` and `==` work
/// component by component, where the entity and the id support them.
#[derive(Debug)]
pub struct WithId<E, I> {
    /// the `id` used to identify the `inner` entity
    id: I,
    /// the wrapped entity
    inner: E,
}

impl<E, I> WithId<E, I> {
    /// The wrapped entity.
    pub closed spec fn inner_value(self) -> E {
        self.inner
    }

    /// The id of the entity.
    pub closed spec fn id_value(self) -> I {
        self.id
    }

    /// A `WithId` is nothing but its entity and its id: two with the same
    /// entity and the same id are the same.
    pub proof fn lemma_components_determine(a: Self, b: Self)
        requires
            a.inner_value() == b.inner_value(),
            a.id_value() == b.id_value(),
        ensures
            a == b,
    {
    }

    /// Wraps `inner` with the id `id`.
    pub fn new(inner: E, id: I) -> (r: Self)
        ensures
            r.inner_value() == inner,
            r.id_value() == id,
    {
        WithId { inner, id }
    }

    /// Gives back the wrapped entity, dropping the id.
    pub fn into_inner(self) -> (r: E)
        ensures
            r == self.inner_value(),
    {
        self.inner
    }

    /// A reference to the wrapped entity.
    pub fn inner(&self) -> (r: &E)
        ensures
            *r == self.inner_value(),
    {
        &self.inner
    }

    /// A mutable reference to the wrapped entity: what is written through it
    /// becomes the entity, and the id stays as it was.
    pub fn inner_mut(&mut self) -> (r: &mut E)
        ensures
            *r == old(self).inner_value(),
            final(self).inner_value() == *final(r),
            final(self).id_value() == old(self).id_value(),
    {
        &mut self.inner
    }

    /// A reference to the id.
    pub fn id_ref(&self) -> (r: &I)
        ensures
            *r == self.id_value(),
    {
        &self.id
    }

    /// A mutable reference to the id: what is written through it becomes the
    /// id, and the entity stays as it was.
    pub fn id_ref_mut(&mut self) -> (r: &mut I)
        ensures
            *r == old(self).id_value(),
            final(self).id_value() == *final(r),
            final(self).inner_value() == old(self).inner_value(),
    {
        &mut self.id
    }
}

impl<E, I: Clone> WithId<E, I> {
    /// A copy of the id, made by the id's `clone`.
    pub fn id(&self) -> (r: I)
        ensures
            cloned(self.id_value(), r),
    {
        self.id.clone()
    }
}

impl<E, I> core::ops::Deref for WithId<E, I> {
    type Target = E;

    /// Dereferences to the wrapped entity.
    fn deref(&self) -> (r: &E)
        ensures
            *r == self.inner_value(),
    {
        &self.inner
    }
}

impl<E, I> core::ops::DerefMut for WithId<E, I> {
    /// Dereferences mutably to the wrapped entity; the id stays as it was.
    fn deref_mut(&mut self) -> (r: &mut E)
        ensures
            *r == old(self).inner_value(),
            final(self).inner_value() == *final(r),
            final(self).id_value() == old(self).id_value(),
    {
        &mut self.inner
    }
}

impl<E: Clone, I: Clone> Clone for WithId<E, I> {
    /// Clones the id and then the entity.
    fn clone(&self) -> (r: Self)
        ensures
            cloned(self.id_value(), r.id_value()),
            cloned(self.inner_value(), r.inner_value()),
    {
        WithId { id: self.id.clone(), inner: self.inner.clone() }
    }
}

impl<E: PartialEq, I: PartialEq> PartialEq for WithId<E, I> {
    /// Equal ids and equal entities.
    fn eq(&self, other: &Self) -> (r: bool) {
        self.id == other.id && self.inner == other.inner
    }
}

impl<E: PartialEq, I: PartialEq> vstd::std_specs::cmp::PartialEqSpecImpl for WithId<E, I> {
    open spec fn obeys_eq_spec() -> bool {
        I::obeys_eq_spec() && E::obeys_eq_spec()
    }

    open spec fn eq_spec(&self, other: &Self) -> bool {
        self.id_value().eq_spec(&other.id_value()) && self.inner_value().eq_spec(
            &other.inner_value(),
        )
    }
}

impl<E: PartialEq, I: PartialEq> WithId<E, I> {
    /// Two `WithId`s are equal exactly when their ids are equal and their
    /// entities are equal; `==` follows that meaning whenever the ids' and the
    /// entities' own `==` follow theirs.
    pub proof fn lemma_eq_is_componentwise(a: Self, b: Self)
        ensures
            a.eq_spec(&b) <==> (a.id_value().eq_spec(&b.id_value()) && a.inner_value().eq_spec(
                &b.inner_value(),
            )),
            !a.id_value().eq_spec(&b.id_value()) ==> !a.eq_spec(&b),
            !a.inner_value().eq_spec(&b.inner_value()) ==> !a.eq_spec(&b),
            <Self as PartialEqSpec>::obeys_eq_spec() <==> (I::obeys_eq_spec()
                && E::obeys_eq_spec()),
    {
    }
}

impl<E: Eq, I: Eq> Eq for WithId<E, I> {
}

} // verus!
