use movetex::Movetex;

#[test]
fn ptr_test_t_0() {
    let movetex = Movetex::new(42);
    assert_eq!(*movetex.read(), 42);
}

#[test]
fn write_test_t_0() {
    let mut movetex = Movetex::new(42);
    assert!(movetex.write(|_value| 43));
    assert_eq!(*movetex.read(), 43);
}

#[test]
fn swap_test_t_0() {
    let mut movetex = Movetex::new(42);

    assert_eq!(movetex.swap(43), Some(42));
}
