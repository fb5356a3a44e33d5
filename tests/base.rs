use gdbind::host::{AccessError, BaseField, Host, Vector2};

#[test]
fn base_instance_id() {
    let mut host = Host::new();
    let obj = host.instantiate(false);
    assert_eq!(host.instance_id(&obj), Ok(obj.id));
    assert_eq!(host.free(obj), Ok(()));
}

#[test]
fn base_access_unbound() {
    let mut host = Host::new();
    let obj = host.instantiate(false);
    let pos = Vector2 { x: -5, y: 7 };
    assert_eq!(host.set_position(&obj, pos), Ok(()));
    assert_eq!(host.get_position(&obj), Ok(pos));
    assert_eq!(host.free(obj), Ok(()));
}

#[test]
fn base_during_init() {
    let mut host = Host::new();
    let base = host.begin_init(false);
    let gd = host.to_init_gd(&base).unwrap();
    assert_eq!(host.set_position(&gd, Vector2 { x: 100, y: 200 }), Ok(()));
    let obj = host.finish_init(&base, true).unwrap();

    let guard = host.bind(&obj).unwrap();
    assert_eq!(host.get_position(&obj), Ok(Vector2 { x: 100, y: 200 }));
    host.release(guard);

    assert_eq!(host.free(obj), Ok(()));
}

#[test]
fn base_during_init_extracted_gd() {
    let mut host = Host::new();
    let base = host.begin_init(false);
    let extracted = host.to_init_gd(&base).unwrap();
    let obj = host.finish_init(&base, true).unwrap();

    assert_eq!(host.instance_id(&extracted), host.instance_id(&obj));

    assert_eq!(host.free(extracted), Ok(()));
    assert!(!host.is_instance_valid(&obj), "object should be invalid after base ptr is freed");
}

#[test]
fn base_during_init_freed_gd() {
    let mut host = Host::new();
    let base = host.begin_init(false);
    let obj = host.to_init_gd(&base).unwrap();
    assert_eq!(host.free(obj), Ok(()));
    assert!(matches!(host.finish_init(&base, true), Err(AccessError::Destroyed)));
}

#[test]
fn base_during_init_refcounted_from_engine() {
    let mut host = Host::new();
    let obj = host.instantiate(true);
    assert_eq!(host.get_reference_count(&obj), Ok(2));
    host.next_cycle();
    assert_eq!(host.get_reference_count(&obj), Ok(1), "eventual dec-ref happens");
}

#[test]
fn base_during_init_refcounted_from_rust() {
    let mut host = Host::new();
    let base = host.begin_init(true);
    let obj = host.finish_init(&base, true).unwrap();
    assert_eq!(host.get_reference_count(&obj), Ok(2));
    host.next_cycle();
    assert_eq!(host.get_reference_count(&obj), Ok(1), "eventual dec-ref happens");
}

#[test]
fn base_during_init_refcounted_complex() {
    let mut host = Host::new();
    let base = host.begin_init(true);
    let gd = host.to_init_gd(&base).unwrap();
    let temp = host.to_init_gd(&base).unwrap();
    host.drop_handle(temp);
    let local_copy = host.to_init_gd(&base).unwrap();
    let moved_out = host.to_init_gd(&base).unwrap();
    host.drop_handle(gd);
    host.drop_handle(local_copy);
    let obj = host.finish_init(&base, true).unwrap();
    host.next_cycle();

    let id = host.instance_id(&obj).unwrap();
    assert_eq!(host.instance_id(&moved_out), Ok(id));
    assert_eq!(host.get_reference_count(&moved_out), Ok(2));
    assert_eq!(host.get_reference_count(&obj), Ok(2));

    host.drop_handle(moved_out);
    assert_eq!(host.get_reference_count(&obj), Ok(1));
    let probe = gdbind::host::Handle { id };
    host.drop_handle(obj);
    assert!(!host.is_instance_valid(&probe), "last drop destroyed the object");
}

#[test]
fn base_during_init_outside_init() {
    let mut host = Host::new();
    let obj = host.instantiate(false);
    let guard = host.bind_mut(&obj).unwrap();
    let field = BaseField { id: host.base_identity(&obj).unwrap() };
    assert!(matches!(host.to_init_gd(&field), Err(AccessError::Constructed)));
    host.release(guard);
    assert_eq!(host.free(obj), Ok(()));
}

#[test]
fn base_during_init_to_gd() {
    let mut host = Host::new();
    let base = host.begin_init(false);
    let temp = host.to_init_gd(&base).unwrap();
    assert!(matches!(host.to_gd(&temp), Err(AccessError::UnderConstruction)));
    assert!(matches!(host.constructed_gd(&base), Err(AccessError::UnderConstruction)));
    assert!(matches!(host.bind(&temp), Err(AccessError::UnderConstruction)));
}

#[test]
fn base_gd_self() {
    let mut host = Host::new();
    let obj = host.instantiate(false);
    let obj2 = host.to_gd(&obj).unwrap();
    assert_eq!(obj2.id, obj.id);
    assert_eq!(host.instance_id(&obj), host.instance_id(&obj2));
    assert_eq!(host.free(obj), Ok(()));
}

#[test]
fn base_smuggling() {
    let mut host = Host::new();
    let extracted_base = host.begin_init(false);
    let obj = host.finish_init(&extracted_base, false).unwrap();

    let extracted_base_obj = host.constructed_gd(&extracted_base).unwrap();
    assert_eq!(host.instance_id(&extracted_base_obj), host.instance_id(&obj));

    assert_eq!(host.set_position(&obj, Vector2 { x: 1, y: 2 }), Ok(()));
    assert_eq!(host.get_position(&extracted_base_obj), Ok(Vector2 { x: 1, y: 2 }));

    assert_eq!(host.free(extracted_base_obj), Ok(()));

    assert_eq!(host.get_position(&obj), Err(AccessError::Destroyed));
    assert!(matches!(host.bind(&obj), Err(AccessError::Destroyed)));
    assert_eq!(host.instance_id(&obj), Err(AccessError::Destroyed));
    assert!(matches!(host.clone_handle(&obj), Err(AccessError::Destroyed)));
    assert!(matches!(host.upcast(obj), Err(AccessError::Destroyed)));

    let extracted_base = host.begin_init(false);
    let obj = host.finish_init(&extracted_base, false).unwrap();
    assert_eq!(host.free(obj), Ok(()));
    assert!(matches!(host.constructed_gd(&extracted_base), Err(AccessError::Destroyed)));
}

#[test]
fn base_swapping() {
    let mut host = Host::new();
    let mut one_ext_base = host.begin_init(false);
    let one = host.finish_init(&one_ext_base, false).unwrap();
    let one_id = host.instance_id(&one).unwrap();

    let two = host.instantiate(false);
    let two_id = host.instance_id(&two).unwrap();

    assert_eq!(host.swap_base(&two, &mut one_ext_base), Ok(()));

    assert_eq!(host.instance_id(&one), Ok(one_id));
    assert_eq!(host.instance_id(&two), Ok(two_id));

    assert_eq!(host.base_identity(&two), Ok(one_id));
    let ext = host.constructed_gd(&one_ext_base).unwrap();
    assert_eq!(host.instance_id(&ext), Ok(two_id));

    assert_eq!(host.free(one), Ok(()));
    assert_eq!(host.free(two), Ok(()));
}

#[test]
fn auto_counted_created_and_dropped_is_destroyed() {
    let mut host = Host::new();
    let obj = host.instantiate(true);
    let probe = gdbind::host::Handle { id: obj.id };
    host.drop_handle(obj);
    host.next_cycle();
    assert!(!host.is_instance_valid(&probe));
    assert_eq!(host.objects[probe.id].refcount, 0);
}

#[test]
fn clone_adds_one_and_drop_takes_one() {
    let mut host = Host::new();
    let obj = host.instantiate(true);
    host.next_cycle();
    assert_eq!(host.get_reference_count(&obj), Ok(1));
    let a = host.clone_handle(&obj).unwrap();
    let b = host.clone_handle(&a).unwrap();
    assert_eq!(host.get_reference_count(&obj), Ok(3));
    assert_eq!(host.get_reference_count(&a), Ok(3));
    assert_eq!(host.get_reference_count(&b), Ok(3));
    host.drop_handle(b);
    assert_eq!(host.get_reference_count(&a), Ok(2));
    host.drop_handle(a);
    assert_eq!(host.get_reference_count(&obj), Ok(1));
}

#[test]
fn manual_clone_is_uncounted() {
    let mut host = Host::new();
    let obj = host.instantiate(false);
    let copy = host.clone_handle(&obj).unwrap();
    assert_eq!(host.get_reference_count(&copy), Ok(0));
    host.drop_handle(copy);
    assert!(host.is_instance_valid(&obj));
}

#[test]
fn free_refuses_auto_counted() {
    let mut host = Host::new();
    let obj = host.instantiate(true);
    let copy = host.clone_handle(&obj).unwrap();
    assert_eq!(host.free(copy), Err(AccessError::NotManual));
    assert!(host.is_instance_valid(&obj));
}

#[test]
fn guards_exclude_each_other() {
    let mut host = Host::new();
    let obj = host.instantiate(false);
    let r1 = host.bind(&obj).unwrap();
    let r2 = host.bind(&obj).unwrap();
    assert!(matches!(host.bind_mut(&obj), Err(AccessError::Bound)));
    host.release(r1);
    host.release(r2);
    let w = host.bind_mut(&obj).unwrap();
    assert!(matches!(host.bind(&obj), Err(AccessError::Bound)));
    assert!(matches!(host.bind_mut(&obj), Err(AccessError::Bound)));
    host.release(w);
    assert!(host.bind(&obj).is_ok());
}

#[test]
fn missing_base_field_is_reported() {
    let mut host = Host::new();
    let base = host.begin_init(false);
    let obj = host.finish_init(&base, false).unwrap();
    assert_eq!(host.base_identity(&obj), Err(AccessError::NoBase));
    assert!(matches!(host.to_gd(&obj), Err(AccessError::NoBase)));
    assert!(matches!(host.finish_init(&base, true), Err(AccessError::Constructed)));
}
