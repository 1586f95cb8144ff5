use miniorm::visitor::{Entry, WithIdError, WithIdFields, WithIdVisitor};

// Reads map entries keyed `inner` (an entity) or `id`, through the library.
fn read_map(entries: Vec<(WithIdFields, u32)>) -> Result<(u32, i64), WithIdError> {
    let entries: Vec<Entry<u32, i64>> = entries
        .into_iter()
        .map(|(key, value)| match key {
            WithIdFields::Inner => Entry::Inner(value),
            WithIdFields::Id => Entry::Id(i64::from(value)),
        })
        .collect();
    let with_id = WithIdVisitor::visit_entries(entries)?;
    Ok((*with_id.inner(), with_id.id()))
}

#[test]
fn map_in_either_order() {
    assert_eq!(
        read_map(vec![(WithIdFields::Id, 69), (WithIdFields::Inner, 420)]),
        Ok((420, 69))
    );
    assert_eq!(
        read_map(vec![(WithIdFields::Inner, 420), (WithIdFields::Id, 69)]),
        Ok((420, 69))
    );
}

#[test]
fn duplicate_inner() {
    assert_eq!(
        read_map(vec![(WithIdFields::Inner, 1), (WithIdFields::Inner, 2)]),
        Err(WithIdError::DuplicateField("inner"))
    );
}

#[test]
fn duplicate_id() {
    assert_eq!(
        read_map(vec![(WithIdFields::Id, 1), (WithIdFields::Inner, 2), (WithIdFields::Id, 3)]),
        Err(WithIdError::DuplicateField("id"))
    );
}

#[test]
fn missing_inner_is_reported_first() {
    assert_eq!(read_map(vec![]), Err(WithIdError::MissingField("inner")));
    assert_eq!(
        read_map(vec![(WithIdFields::Id, 1)]),
        Err(WithIdError::MissingField("inner"))
    );
}

#[test]
fn missing_id() {
    assert_eq!(
        read_map(vec![(WithIdFields::Inner, 1)]),
        Err(WithIdError::MissingField("id"))
    );
}

#[test]
fn sequence_id_then_inner() {
    let mut visitor: WithIdVisitor<u32, i64> = WithIdVisitor::new();
    assert_eq!(visitor.seq_id(Some(69)), Ok(()));
    assert_eq!(visitor.seq_inner(Some(420)), Ok(()));
    let with_id = visitor.finish().unwrap();
    assert_eq!(*with_id.inner(), 420);
    assert_eq!(with_id.id(), 69);
}

#[test]
fn sequence_too_short() {
    let mut visitor: WithIdVisitor<u32, i64> = WithIdVisitor::new();
    assert_eq!(visitor.seq_id(None), Err(WithIdError::InvalidLength(0)));
    let mut visitor: WithIdVisitor<u32, i64> = WithIdVisitor::new();
    assert_eq!(visitor.seq_id(Some(1)), Ok(()));
    assert_eq!(visitor.seq_inner(None), Err(WithIdError::InvalidLength(1)));
}

#[test]
fn check_key_then_set_step_by_step() {
    let mut visitor: WithIdVisitor<u32, i64> = WithIdVisitor::new();
    assert_eq!(visitor.check_key(WithIdFields::Id), Ok(()));
    visitor.set_id(5);
    assert_eq!(visitor.check_key(WithIdFields::Id), Err(WithIdError::DuplicateField("id")));
    assert_eq!(visitor.check_key(WithIdFields::Inner), Ok(()));
    visitor.set_inner(6);
    assert_eq!(
        visitor.check_key(WithIdFields::Inner),
        Err(WithIdError::DuplicateField("inner"))
    );
    let with_id = visitor.finish().unwrap();
    assert_eq!((*with_id.inner(), with_id.id()), (6, 5));
}

#[test]
fn more_than_two_entries_are_refused() {
    assert_eq!(
        read_map(vec![(WithIdFields::Inner, 1), (WithIdFields::Id, 2), (WithIdFields::Inner, 3)]),
        Err(WithIdError::DuplicateField("inner"))
    );
}
