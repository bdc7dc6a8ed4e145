use asyncrt::maybe_self_ref::MaybeSelfRef;

#[test]
fn handle_writes_through_to_number() {
    let mut x = MaybeSelfRef::default();
    assert!(x.b().is_none());
    x.init();
    assert_eq!(x.a(), 0);
    *x.b().unwrap() = 2;
    assert_eq!(x.a(), 2);
}

#[test]
fn boxed_value_keeps_handle() {
    let mut x = Box::new(MaybeSelfRef::new());
    x.init();
    if let Some(b) = x.b() {
        *b = 7;
    }
    assert_eq!(x.a(), 7);
}
