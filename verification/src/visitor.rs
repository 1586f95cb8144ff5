//! The decisions of reading a [`WithId`] back from a serialized form: as a
//! map keyed by field names, or as a sequence `[id, inner]`. The reading of
//! keys and values is left to the caller; this module says, step by step,
//! whether the input so far is acceptable and what comes out at the end.
use crate::with_id::WithId;
use vstd::prelude::*;

verus! {

/// A field of a serialized `WithId`.
#[derive(Clone, Copy, Debug, PartialEq, Eq, Structural)]
pub enum WithIdFields {
    /// the wrapped entity, serialized as `inner`
    Inner,
    /// the id, serialized as `id`
    Id,
}

/// Why a serialized `WithId` is refused.
#[derive(Clone, Copy, Debug, PartialEq, Eq)]
pub enum WithIdError {
    /// a field occurs twice in a map; the name under which it is reported
    DuplicateField(&'static str),
    /// a field is absent from a map
    MissingField(&'static str),
    /// a sequence ends after the given number of elements
    InvalidLength(usize),
}

/// One entry of a serialized map, with its already read value.
pub enum Entry<E, I> {
    Inner(E),
    Id(I),
}

/// The fields read so far: the entity and the id, where they were read.
pub type Fields<E, I> = (Option<E>, Option<I>);

/// Whether the key `key` may come next, given the fields read so far: a
/// field that was read already is a duplicate, reported under its name.
pub open spec fn key_check<E, I>(read: Fields<E, I>, key: WithIdFields) -> Result<(), WithIdError> {
    match key {
        WithIdFields::Inner => if read.0 is Some {
            Err(WithIdError::DuplicateField("inner"))
        } else {
            Ok(())
        },
        WithIdFields::Id => if read.1 is Some {
            Err(WithIdError::DuplicateField("id"))
        } else {
            Ok(())
        },
    }
}

/// The key of an entry.
pub open spec fn entry_key<E, I>(entry: Entry<E, I>) -> WithIdFields {
    match entry {
        Entry::Inner(_) => WithIdFields::Inner,
        Entry::Id(_) => WithIdFields::Id,
    }
}

/// The fields read after one more entry, or why the entry is refused.
pub open spec fn step<E, I>(read: Fields<E, I>, entry: Entry<E, I>) -> Result<
    Fields<E, I>,
    WithIdError,
> {
    match key_check(read, entry_key(entry)) {
        Err(e) => Err(e),
        Ok(_) => match entry {
            Entry::Inner(v) => Ok((Some(v), read.1)),
            Entry::Id(v) => Ok((read.0, Some(v))),
        },
    }
}

/// The fields read after the entries, in order, or the first refusal.
pub open spec fn run<E, I>(read: Fields<E, I>, entries: Seq<Entry<E, I>>) -> Result<
    Fields<E, I>,
    WithIdError,
>
    decreases entries.len(),
{
    if entries.len() == 0 {
        Ok(read)
    } else {
        match step(read, entries[0]) {
            Err(e) => Err(e),
            Ok(next) => run(next, entries.drop_first()),
        }
    }
}

/// What the fields read give at the end: the entity and the id, or the
/// first missing field (the entity is looked for first).
pub open spec fn finish_fields<E, I>(read: Fields<E, I>) -> Result<(E, I), WithIdError> {
    match read {
        (None, _) => Err(WithIdError::MissingField("inner")),
        (Some(_), None) => Err(WithIdError::MissingField("id")),
        (Some(e), Some(i)) => Ok((e, i)),
    }
}

/// What a serialized map with the given entries gives.
pub open spec fn visit_map<E, I>(entries: Seq<Entry<E, I>>) -> Result<(E, I), WithIdError> {
    match run((None, None), entries) {
        Err(e) => Err(e),
        Ok(read) => finish_fields(read),
    }
}

/// A key is refused exactly when its field was read already, and the refusal
/// names that field as serialized: `inner` or `id`.
pub proof fn lemma_duplicate_names_the_field<E, I>(read: Fields<E, I>)
    ensures
        key_check(read, WithIdFields::Inner) == if read.0 is Some {
            Err::<(), WithIdError>(WithIdError::DuplicateField("inner"))
        } else {
            Ok::<(), WithIdError>(())
        },
        key_check(read, WithIdFields::Id) == if read.1 is Some {
            Err::<(), WithIdError>(WithIdError::DuplicateField("id"))
        } else {
            Ok::<(), WithIdError>(())
        },
{
}

/// The order of the fields in a serialized map does not matter: the entity
/// and the id, in either order, give back that entity and that id.
pub proof fn lemma_field_order_irrelevant<E, I>(inner: E, id: I)
    ensures
        visit_map(seq![Entry::Inner(inner), Entry::<E, I>::Id(id)]) == Ok::<(E, I), WithIdError>(
            (inner, id),
        ),
        visit_map(seq![Entry::<E, I>::Id(id), Entry::Inner(inner)]) == Ok::<(E, I), WithIdError>(
            (inner, id),
        ),
{
    reveal_with_fuel(run, 3);
    let a = seq![Entry::Inner(inner), Entry::<E, I>::Id(id)];
    let b = seq![Entry::<E, I>::Id(id), Entry::Inner(inner)];
    assert(a.drop_first() =~= seq![Entry::<E, I>::Id(id)]);
    assert(a.drop_first().drop_first() =~= Seq::<Entry<E, I>>::empty());
    assert(b.drop_first() =~= seq![Entry::<E, I>::Inner(inner)]);
    assert(b.drop_first().drop_first() =~= Seq::<Entry<E, I>>::empty());
}

/// A serialized map is accepted exactly when it holds each field once. With
/// fewer than two entries a field is missing; with more, or with one field
/// twice, a field is duplicated.
pub proof fn lemma_visit_map_outcome<E, I>(entries: Seq<Entry<E, I>>)
    ensures
        visit_map(entries) is Ok <==> entries.len() == 2 && entry_key(entries[0]) != entry_key(
            entries[1],
        ),
        entries.len() < 2 ==> visit_map(entries) matches Err(WithIdError::MissingField(_)),
        entries.len() > 2 || (entries.len() == 2 && entry_key(entries[0]) == entry_key(entries[1]))
            ==> visit_map(entries) matches Err(WithIdError::DuplicateField(_)),
{
    let empty: Fields<E, I> = (None, None);
    if entries.len() == 0 {
        assert(run(empty, entries) == Ok::<Fields<E, I>, WithIdError>(empty));
    } else {
        let s1 = step(empty, entries[0]);
        let rest1 = entries.drop_first();
        assert(s1 is Ok);
        let r1 = s1->Ok_0;
        assert(run(empty, entries) == run(r1, rest1));
        if rest1.len() == 0 {
            assert(run(r1, rest1) == Ok::<Fields<E, I>, WithIdError>(r1));
        } else {
            assert(rest1[0] == entries[1]);
            let s2 = step(r1, rest1[0]);
            let rest2 = rest1.drop_first();
            if entry_key(entries[0]) == entry_key(entries[1]) {
                assert(s2 matches Err(WithIdError::DuplicateField(_)));
                assert(run(r1, rest1) == s2);
            } else {
                assert(s2 is Ok);
                let r2 = s2->Ok_0;
                assert(r2.0 is Some && r2.1 is Some);
                assert(run(r1, rest1) == run(r2, rest2));
                if rest2.len() == 0 {
                    assert(run(r2, rest2) == Ok::<Fields<E, I>, WithIdError>(r2));
                } else {
                    let s3 = step(r2, rest2[0]);
                    assert(s3 matches Err(WithIdError::DuplicateField(_)));
                    assert(run(r2, rest2) == s3);
                }
            }
        }
    }
}

/// The state of reading one serialized `WithId`.
pub struct WithIdVisitor<E, I> {
    inner: Option<E>,
    id: Option<I>,
}

impl<E, I> View for WithIdVisitor<E, I> {
    type V = Fields<E, I>;

    closed spec fn view(&self) -> Fields<E, I> {
        (self.inner, self.id)
    }
}

impl<E, I> WithIdVisitor<E, I> {
    /// A visitor that has read nothing yet.
    pub fn new() -> (r: Self)
        ensures
            r@ == (None::<E>, None::<I>),
    {
        WithIdVisitor { inner: None, id: None }
    }

    /// Whether the map key `key` may come next.
    pub fn check_key(&self, key: WithIdFields) -> (r: Result<(), WithIdError>)
        ensures
            r == key_check(self@, key),
    {
        match key {
            WithIdFields::Inner => if self.inner.is_some() {
                Err(WithIdError::DuplicateField("inner"))
            } else {
                Ok(())
            },
            WithIdFields::Id => if self.id.is_some() {
                Err(WithIdError::DuplicateField("id"))
            } else {
                Ok(())
            },
        }
    }

    /// Records the value read for the key `inner`.
    pub fn set_inner(&mut self, value: E)
        ensures
            final(self)@ == (Some(value), old(self)@.1),
    {
        self.inner = Some(value);
    }

    /// Records the value read for the key `id`.
    pub fn set_id(&mut self, value: I)
        ensures
            final(self)@ == (old(self)@.0, Some(value)),
    {
        self.id = Some(value);
    }

    /// Takes the first element of a sequence, the id; its absence means the
    /// sequence was empty.
    pub fn seq_id(&mut self, element: Option<I>) -> (r: Result<(), WithIdError>)
        ensures
            element is None ==> r == Err::<(), WithIdError>(WithIdError::InvalidLength(0))
                && final(self)@ == old(self)@,
            element matches Some(v) ==> r is Ok && final(self)@ == (old(self)@.0, Some(v)),
    {
        match element {
            None => Err(WithIdError::InvalidLength(0)),
            Some(v) => {
                self.id = Some(v);
                Ok(())
            },
        }
    }

    /// Takes the second element of a sequence, the entity; its absence means
    /// the sequence had one element only.
    pub fn seq_inner(&mut self, element: Option<E>) -> (r: Result<(), WithIdError>)
        ensures
            element is None ==> r == Err::<(), WithIdError>(WithIdError::InvalidLength(1))
                && final(self)@ == old(self)@,
            element matches Some(v) ==> r is Ok && final(self)@ == (Some(v), old(self)@.1),
    {
        match element {
            None => Err(WithIdError::InvalidLength(1)),
            Some(v) => {
                self.inner = Some(v);
                Ok(())
            },
        }
    }

    /// Reads a whole serialized map whose entries, with their values, are at
    /// hand: each key is checked before its value is recorded, the first
    /// refusal ends the reading, and the fields read give the result.
    pub fn visit_entries(entries: Vec<Entry<E, I>>) -> (r: Result<WithId<E, I>, WithIdError>)
        ensures
            r is Ok <==> visit_map(entries@) is Ok,
            r matches Ok(w) ==> visit_map(entries@) == Ok::<(E, I), WithIdError>(
                (w.inner_value(), w.id_value()),
            ),
            r matches Err(e) ==> visit_map(entries@) == Err::<(E, I), WithIdError>(e),
    {
        let ghost all = entries@;
        let mut visitor = WithIdVisitor::new();
        assert(all.skip(0) =~= all);
        for entry in it: entries.into_iter()
            invariant
                it.seq() == all,
                run((None::<E>, None::<I>), all) == run(visitor@, all.skip(it.index() as int)),
        {
            let ghost k = it.index() as int;
            proof {
                assert(all.skip(k)[0] == entry);
                assert(all.skip(k).drop_first() =~= all.skip(k + 1));
            }
            match entry {
                Entry::Inner(value) => {
                    match visitor.check_key(WithIdFields::Inner) {
                        Err(e) => {
                            return Err(e);
                        },
                        Ok(_) => {},
                    }
                    visitor.set_inner(value);
                },
                Entry::Id(value) => {
                    match visitor.check_key(WithIdFields::Id) {
                        Err(e) => {
                            return Err(e);
                        },
                        Ok(_) => {},
                    }
                    visitor.set_id(value);
                },
            }
        }
        proof {
            assert(all.skip(all.len() as int) =~= Seq::<Entry<E, I>>::empty());
        }
        visitor.finish()
    }

    /// The `WithId` of the fields read, or the first missing field.
    pub fn finish(self) -> (r: Result<WithId<E, I>, WithIdError>)
        ensures
            r is Ok <==> finish_fields(self@) is Ok,
            r matches Ok(w) ==> finish_fields(self@) == Ok::<(E, I), WithIdError>(
                (w.inner_value(), w.id_value()),
            ),
            r matches Err(e) ==> finish_fields(self@) == Err::<(E, I), WithIdError>(e),
    {
        match self.inner {
            None => Err(WithIdError::MissingField("inner")),
            Some(inner) => match self.id {
                None => Err(WithIdError::MissingField("id")),
                Some(id) => Ok(WithId::new(inner, id)),
            },
        }
    }
}

} // verus!
