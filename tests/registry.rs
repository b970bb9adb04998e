use gs_schemas::registry::{
    Registry, RegistryError, RegistryId, RegistryName, RegistryNameRef, RegistryObject,
};

#[derive(Clone, PartialEq, Eq, Debug, Default)]
struct DummyObject(RegistryName);

impl RegistryObject for DummyObject {
    fn registry_name(&self) -> RegistryNameRef<'_> {
        self.0.as_ref()
    }
}

#[test]
pub fn simple_registry() {
    let mut reg: Registry<DummyObject> = Registry::default();
    let a_id = reg.push_object(DummyObject(RegistryName::geosia("a"))).unwrap();
    assert_eq!(a_id.get(), 1);
    let b_id = RegistryId::try_from(2).unwrap();
    let c_id = RegistryId::try_from(3).unwrap(); // non-existent
    reg.insert_object_with_id(b_id, DummyObject(RegistryName::geosia("b")))
        .unwrap();
    assert!(reg.push_object(DummyObject(RegistryName::geosia("a"))).is_err());
    assert!(reg.push_object(DummyObject(RegistryName::geosia("b"))).is_err());
    assert!(reg
        .insert_object_with_id(b_id, DummyObject(RegistryName::geosia("new")))
        .is_err());
    assert!(reg
        .insert_object_with_id(c_id, DummyObject(RegistryName::geosia("b")))
        .is_err());

    assert_eq!(reg.lookup_id_to_object(a_id).map(|o| o.0.key.as_str()), Some("a"));
    assert_eq!(reg.lookup_id_to_object(b_id).map(|o| o.0.key.as_str()), Some("b"));
    assert_eq!(reg.lookup_id_to_object(c_id).map(|o| o.0.key.as_str()), None);

    let dyn_a = String::from("a");
    let dyn_b = String::from("b");
    let dyn_c = String::from("c");

    assert_eq!(
        reg.lookup_name_to_object(RegistryNameRef::geosia(&dyn_a))
            .map(|(id, o)| (id, o.0.key.as_str())),
        Some((a_id, "a"))
    );
    assert_eq!(
        reg.lookup_name_to_object(RegistryNameRef::geosia(&dyn_b))
            .map(|(id, o)| (id, o.0.key.as_str())),
        Some((b_id, "b"))
    );
    assert_eq!(
        reg.lookup_name_to_object(RegistryNameRef::geosia(&dyn_c))
            .map(|(id, o)| (id, o.0.key.as_str())),
        None
    );
}

#[test]
fn registry_scenario_push_then_insert_conflicts() {
    let mut reg: Registry<DummyObject> = Registry::new();
    let a = reg.push_object(DummyObject(RegistryName::geosia("a"))).unwrap();
    let b = reg.push_object(DummyObject(RegistryName::geosia("b"))).unwrap();
    assert_eq!(a.get(), 1);
    assert_eq!(b.get(), 2);
    let two = RegistryId::try_from(2).unwrap();
    let three = RegistryId::try_from(3).unwrap();
    assert_eq!(
        reg.insert_object_with_id(two, DummyObject(RegistryName::geosia("x"))),
        Err(RegistryError::DuplicateId)
    );
    assert_eq!(
        reg.insert_object_with_id(three, DummyObject(RegistryName::geosia("b"))),
        Err(RegistryError::DuplicateName)
    );
    let found_a = reg.lookup_name_to_object(RegistryNameRef::geosia("a")).unwrap();
    assert_eq!((found_a.0.get(), found_a.1.0.key.as_str()), (1, "a"));
    let found_b = reg.lookup_name_to_object(RegistryNameRef::geosia("b")).unwrap();
    assert_eq!((found_b.0.get(), found_b.1.0.key.as_str()), (2, "b"));
    assert!(reg.lookup_name_to_object(RegistryNameRef::geosia("c")).is_none());
    assert!(reg.lookup_id_to_object(three).is_none());
}

#[test]
fn duplicate_push_fails_and_leaves_registry_unchanged() {
    let mut reg: Registry<DummyObject> = Registry::new();
    let a = reg.push_object(DummyObject(RegistryName::geosia("a"))).unwrap();
    assert_eq!(
        reg.push_object(DummyObject(RegistryName::geosia("a"))),
        Err(RegistryError::DuplicateName)
    );
    // The failed push did not use up an ID.
    let b = reg.push_object(DummyObject(RegistryName::geosia("b"))).unwrap();
    assert_eq!(a.get(), 1);
    assert_eq!(b.get(), 2);
    assert_eq!(
        reg.lookup_id_to_object(a).map(|o| o.0.key.as_str()),
        Some("a")
    );
}

#[test]
fn push_after_insert_does_not_collide() {
    let mut reg: Registry<DummyObject> = Registry::new();
    let five = RegistryId::try_from(5).unwrap();
    reg.insert_object_with_id(five, DummyObject(RegistryName::geosia("five")))
        .unwrap();
    let next = reg.push_object(DummyObject(RegistryName::geosia("next"))).unwrap();
    assert_eq!(next.get(), 6);
    let low = RegistryId::try_from(2).unwrap();
    reg.insert_object_with_id(low, DummyObject(RegistryName::geosia("low")))
        .unwrap();
    let after = reg.push_object(DummyObject(RegistryName::geosia("after"))).unwrap();
    assert_eq!(after.get(), 7);
    assert_eq!(reg.lookup_id_to_object(five).map(|o| o.0.key.as_str()), Some("five"));
    assert_eq!(reg.lookup_id_to_object(low).map(|o| o.0.key.as_str()), Some("low"));
}

#[test]
fn registry_id_zero_is_refused() {
    assert!(RegistryId::try_from(0).is_err());
    assert_eq!(RegistryId::try_from(7).unwrap().get(), 7);
}

#[test]
fn allocate_id_counts_up_from_one() {
    let mut reg: Registry<DummyObject> = Registry::new();
    assert_eq!(reg.allocate_id().unwrap().get(), 1);
    assert_eq!(reg.allocate_id().unwrap().get(), 2);
    let id = reg.push_object(DummyObject(RegistryName::geosia("a"))).unwrap();
    assert_eq!(id.get(), 3);
    let allocated_only = RegistryId::try_from(1).unwrap();
    assert!(reg.lookup_id_to_object(allocated_only).is_none());
}

#[test]
fn named_variants_use_the_given_name() {
    let mut reg: Registry<DummyObject> = Registry::new();
    let id = reg
        .push_object_named(RegistryName::geosia("given"), DummyObject(RegistryName::geosia("own")))
        .unwrap();
    assert_eq!(id.get(), 1);
    assert!(reg.lookup_name_to_object(RegistryNameRef::geosia("given")).is_some());
    assert!(reg.lookup_name_to_object(RegistryNameRef::geosia("own")).is_none());
    let nine = RegistryId::try_from(9).unwrap();
    assert_eq!(
        reg.insert_object_with_id_named(nine, RegistryName::geosia("given"), DummyObject::default()),
        Err(RegistryError::DuplicateName)
    );
    reg.insert_object_with_id_named(nine, RegistryName::geosia("other"), DummyObject::default())
        .unwrap();
    let found = reg.lookup_name_to_object(RegistryNameRef::geosia("other")).unwrap();
    assert_eq!(found.0.get(), 9);
}

#[test]
fn names_in_other_namespaces_are_distinct() {
    let mut reg: Registry<DummyObject> = Registry::new();
    let mine = RegistryName { ns: String::from("mod"), key: String::from("a") };
    reg.push_object(DummyObject(mine.clone())).unwrap();
    reg.push_object(DummyObject(RegistryName::geosia("a"))).unwrap();
    let found = reg.lookup_name_to_object(mine.as_ref()).unwrap();
    assert_eq!(found.0.get(), 1);
    assert_eq!(RegistryName::geosia("k").ns, "gs");
    assert_eq!(RegistryNameRef::geosia("k").to_owned(), RegistryName::geosia("k"));
}

#[test]
fn names_display_as_namespace_colon_key() {
    let name = RegistryName::geosia("stone");
    assert_eq!(name.to_string(), "gs:stone");
    assert_eq!(name.as_ref().to_string(), "gs:stone");
    let other = RegistryName { ns: String::from("mod"), key: String::from("ore") };
    assert_eq!(other.to_string(), "mod:ore");
    assert_eq!(gs_schemas::registry::GEOSIA_REGISTRY_DOMAIN, "gs");
}
