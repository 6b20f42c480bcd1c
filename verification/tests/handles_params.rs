use shard_core::errors::UnitError;
use shard_core::handles::ObjectRegistry;
use shard_core::hashing::register_hash;
use shard_core::params::BoundParameter;
use shard_core::params::ParamMode;
use shard_core::scope::Scope;
use shard_core::values::ObjectRef;
use shard_core::values::TaggedValue;
use shard_core::values::CLIENT_TYPE_TAG;
use shard_core::values::ENGINE_VENDOR_TAG;
use shard_core::values::TEXTURE_TYPE_TAG;

fn obj_ref(v: &TaggedValue) -> ObjectRef {
    match v {
        TaggedValue::Object(r) => *r,
        _ => panic!("expected an object value"),
    }
}

#[test]
fn wrap_then_clone_aliases_and_destroys_after_both_drops() {
    let mut reg = ObjectRegistry::new();
    let original = reg.wrap(77, ENGINE_VENDOR_TAG, TEXTURE_TYPE_TAG);
    let cloned = reg.clone_value(&original).unwrap();
    // identity: same slot, same tags
    assert_eq!(obj_ref(&original), obj_ref(&cloned));
    assert_eq!(reg.refcount_of(&original), Some(2));
    // dropping one of the two references does not destroy the resource
    reg.release_value(cloned);
    assert!(!reg.was_destroyed(77));
    assert_eq!(reg.refcount_of(&original), Some(1));
    // dropping the last reference runs the destructor
    reg.release_value(original);
    assert!(reg.was_destroyed(77));
}

#[test]
fn borrow_with_mismatched_tags_is_rejected_without_touching_the_count() {
    let mut reg = ObjectRegistry::new();
    let v = reg.wrap(5, ENGINE_VENDOR_TAG, TEXTURE_TYPE_TAG);
    let r = reg.borrow_payload(&v, ENGINE_VENDOR_TAG, CLIENT_TYPE_TAG);
    assert_eq!(r, Err(UnitError::ResourceTypeMismatch));
    assert_eq!(reg.refcount_of(&v), Some(1));
    assert!(!reg.was_destroyed(5));
    let ok = reg.borrow_payload(&v, ENGINE_VENDOR_TAG, TEXTURE_TYPE_TAG);
    assert_eq!(ok, Ok(5));
}

#[test]
fn unwrap_owned_mismatch_keeps_refcount_and_unique_unwrap_moves_ownership() {
    let mut reg = ObjectRegistry::new();
    let v = reg.wrap(9, ENGINE_VENDOR_TAG, CLIENT_TYPE_TAG);
    let alias = reg.clone_value(&v).unwrap();
    // mismatched expected tag: rejected, count untouched
    let r = reg.unwrap_owned(alias, ENGINE_VENDOR_TAG, TEXTURE_TYPE_TAG);
    assert_eq!(r, Err(UnitError::ResourceTypeMismatch));
    assert_eq!(reg.refcount_of(&v), Some(2));
    // shared unwrap copies through the clone glue, giving up one reference
    let alias2 = reg.clone_value(&v).unwrap();
    assert_eq!(reg.refcount_of(&v), Some(3));
    assert_eq!(reg.unwrap_owned(alias2, ENGINE_VENDOR_TAG, CLIENT_TYPE_TAG), Ok(9));
    assert_eq!(reg.refcount_of(&v), Some(2));
    let alias3 = v.duplicate();
    reg.release_value(alias3);
    assert_eq!(reg.refcount_of(&v), Some(1));
    // unique unwrap vacates the slot without running the destructor
    assert_eq!(reg.unwrap_owned(v, ENGINE_VENDOR_TAG, CLIENT_TYPE_TAG), Ok(9));
    assert!(!reg.was_destroyed(9));
}

#[test]
fn constant_parameter_echoes_its_literal() {
    let mut scope = Scope::new();
    let mut p = BoundParameter::new_constant(TaggedValue::Number(41));
    p.set_param(ParamMode::Constant(TaggedValue::Number(42))).unwrap();
    p.acquire(&scope).unwrap();
    match p.read(&scope) {
        Ok(TaggedValue::Number(n)) => assert_eq!(n, 42),
        _ => panic!("expected the stored literal"),
    }
    // a constant binding is not writable
    assert_eq!(p.write(&mut scope, TaggedValue::Number(1)), Err(UnitError::NotWritable));
}

#[test]
fn variable_parameter_reads_reflect_the_latest_write() {
    let mut scope = Scope::new();
    let mut p = BoundParameter::new_variable(String::from("speed"));
    p.acquire(&scope).unwrap();
    // the dependency is absent at first
    assert!(matches!(p.read(&scope), Err(UnitError::DependencyUnavailable)));
    scope.write_var(&String::from("speed"), TaggedValue::Number(10));
    assert!(matches!(p.read(&scope), Ok(TaggedValue::Number(10))));
    // a write landing between two reads is seen by the second read
    p.write(&mut scope, TaggedValue::Number(11)).unwrap();
    assert!(matches!(p.read(&scope), Ok(TaggedValue::Number(11))));
    scope.write_var(&String::from("speed"), TaggedValue::Number(12));
    assert!(matches!(p.read(&scope), Ok(TaggedValue::Number(12))));
    // an unrelated name does not interfere
    scope.write_var(&String::from("other"), TaggedValue::Number(99));
    assert!(matches!(p.read(&scope), Ok(TaggedValue::Number(12))));
}

#[test]
fn released_binding_rejects_reads_and_writes() {
    let mut scope = Scope::new();
    let mut p = BoundParameter::new_variable(String::from("x"));
    p.acquire(&scope).unwrap();
    assert!(p.acquire(&scope).is_err());
    p.release().unwrap();
    assert!(matches!(p.read(&scope), Err(UnitError::Lifecycle)));
    assert_eq!(p.write(&mut scope, TaggedValue::Nothing), Err(UnitError::Lifecycle));
    assert_eq!(p.release(), Err(UnitError::Lifecycle));
}

#[test]
fn register_hash_matches_the_digest_formula() {
    // FNV-1a, 32 bits: offset basis 0x811C9DC5, prime 16777619
    assert_eq!(register_hash("abc"), 0x1A47E90B);
    assert_eq!(register_hash("UI.Image-rust-0x20200101"), 0xE8736E40);
    assert_eq!(register_hash("WS.Client-rust-0x20200101"), 0xEF45CDE0);
    assert_eq!(register_hash(""), 0x811C9DC5);
}
