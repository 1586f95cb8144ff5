use miniorm::WithId;

#[derive(Clone)]
struct Foo;

#[derive(Eq, PartialEq, Debug)]
struct Bar(u8);

#[test]
fn is_clone_if_inner_is_clone() {
    let foo = WithId::new(Foo, 10);
    let _ = foo.clone();
}

#[test]
fn is_eq_if_inner_is_eq_and_debug_if_inner_is_debug() {
    let left = WithId::new(Bar(1), 10);
    let right = WithId::new(Bar(1), 10);
    assert_eq!(left, right);
    let right = WithId::new(Bar(1), 11);
    assert_ne!(left, right);
    let right = WithId::new(Bar(2), 10);
    assert_ne!(left, right);
}

#[test]
fn new_then_id() {
    let with_id = WithId::new("miniorm", 1);
    assert_eq!(with_id.id(), 1);
    assert_eq!(with_id.into_inner(), "miniorm");
}

#[test]
fn into_inner_gives_back_the_entity() {
    let with_id = WithId::new("miniorm", 10);
    assert_eq!(with_id.into_inner(), "miniorm");
}

#[test]
fn inner_refers_to_the_entity() {
    let with_id = WithId::new("miniorm", 10);
    assert_eq!(with_id.inner(), &"miniorm");
}

#[test]
fn inner_mut_writes_the_entity_and_keeps_the_id() {
    let mut with_id = WithId::new("miniorm", 10);
    *with_id.inner_mut() = "miniorm indeed!";
    assert_eq!(with_id.inner(), &"miniorm indeed!");
    assert_eq!(with_id.id(), 10);
}

#[test]
fn id_ref_refers_to_the_id() {
    let with_id = WithId::new("miniorm", 10);
    assert_eq!(*with_id.id_ref(), 10);
}

#[test]
fn id_ref_mut_writes_the_id_and_keeps_the_entity() {
    let mut with_id = WithId::new("miniorm", 10);
    *with_id.id_ref_mut() = 11;
    assert_eq!(*with_id.id_ref(), 11);
    assert_eq!(with_id.inner(), &"miniorm");
}

#[test]
fn id_is_a_copy_of_the_id() {
    let with_id = WithId::new("miniorm", 10);
    assert_eq!(with_id.id(), 10);
}

#[test]
fn deref_reaches_the_entity() {
    let mut with_id = WithId::new(String::from("abc"), 3u64);
    assert_eq!(with_id.len(), 3);
    with_id.push('d');
    assert_eq!(with_id.inner(), "abcd");
    assert_eq!(with_id.id(), 3);
}

#[test]
fn clone_keeps_both_components() {
    let with_id = WithId::new(String::from("x"), 7i64);
    let copy = with_id.clone();
    assert_eq!(copy, with_id);
    assert_eq!(copy.id(), 7);
    assert_eq!(copy.inner(), "x");
}

#[test]
fn debug_shows_the_id_first() {
    let with_id = WithId::new(Bar(5), 9);
    assert_eq!(format!("{:?}", with_id), "WithId { id: 9, inner: Bar(5) }");
}
