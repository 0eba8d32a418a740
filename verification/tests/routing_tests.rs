use microbus::routing::TypeRegistry;

#[test]
fn types_get_places_in_the_order_they_come() {
    let mut registry = TypeRegistry::new();
    assert_eq!(registry.len(), 0);
    assert_eq!(registry.slot_of(10), None);
    assert_eq!(registry.slot_or_insert(10), (0, true));
    assert_eq!(registry.slot_or_insert(20), (1, true));
    assert_eq!(registry.slot_or_insert(10), (0, false));
    assert_eq!(registry.slot_or_insert(30), (2, true));
    assert_eq!(registry.len(), 3);
    assert_eq!(registry.slot_of(20), Some(1));
    assert_eq!(registry.slot_of(30), Some(2));
    assert_eq!(registry.slot_of(10), Some(0));
}

#[test]
fn a_type_without_an_index_is_routed_nowhere() {
    let mut registry = TypeRegistry::new();
    registry.slot_or_insert(1);
    assert_eq!(registry.slot_of(2), None);
    assert_eq!(registry.slot_of(0), None);
    assert_eq!(registry.len(), 1);
}
