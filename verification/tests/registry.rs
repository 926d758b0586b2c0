use actor_registry::confined::ConfinedRegistry;
use actor_registry::handle::TypeKey;
use actor_registry::handle::Handle;
use actor_registry::shared::SharedRegistry;

async fn resolve_once(
    reg: &futures::lock::Mutex<SharedRegistry>,
    key: TypeKey,
) -> (Handle, bool) {
    let mut guard = reg.lock().await;
    guard.resolve(key)
}

/// One complete confined acquisition: look up, and when absent mint, start
/// (here: nothing to run) and only then register.
fn resolve_confined(registry: &mut ConfinedRegistry, key: TypeKey) -> (Handle, bool) {
    match registry.lookup(key) {
        Some(handle) => (handle, false),
        None => {
            let handle = registry.mint(key);
            assert!(registry.register(handle));
            (handle, true)
        }
    }
}

#[test]
fn shared_concurrent_first_resolutions_converge() {
    let registry = futures::lock::Mutex::new(SharedRegistry::new(0));
    let key = TypeKey::new(42);
    let ((h1, c1), (h2, c2), (h3, c3)) = futures::executor::block_on(futures::future::join3(
        resolve_once(&registry, key),
        resolve_once(&registry, key),
        resolve_once(&registry, key),
    ));
    assert_eq!(h1, h2);
    assert_eq!(h2, h3);
    let creations: u32 = c1 as u32 + c2 as u32 + c3 as u32;
    assert_eq!(creations, 1);
}

#[test]
fn shared_re_resolution_is_idempotent() {
    let mut registry = SharedRegistry::new(0);
    let key = TypeKey::new(7);
    let (first, created_first) = registry.resolve(key);
    let (second, created_second) = registry.resolve(key);
    assert!(created_first);
    assert!(!created_second);
    assert_eq!(first, second);
    assert_eq!(registry.lookup(key), Some(first));
}

#[test]
fn shared_first_handle_fields() {
    let mut registry = SharedRegistry::new(5);
    let (handle, created) = registry.resolve(TypeKey::new(9));
    assert!(created);
    assert_eq!(handle.type_key, TypeKey::new(9));
    assert_eq!(handle.type_key.code, 9);
    assert_eq!(handle.scope, 5);
    assert_eq!(handle.serial, 0);
}

#[test]
fn fresh_registry_has_no_entries() {
    let registry = SharedRegistry::new(0);
    assert_eq!(registry.lookup(TypeKey::new(1)), None);
    let confined = ConfinedRegistry::new(1);
    assert_eq!(confined.lookup(TypeKey::new(1)), None);
}

#[test]
fn confined_sequential_single_instance() {
    let mut registry = ConfinedRegistry::new(3);
    let key = TypeKey::new(11);
    let (h1, c1) = resolve_confined(&mut registry, key);
    let (h2, c2) = resolve_confined(&mut registry, key);
    let (h3, c3) = resolve_confined(&mut registry, key);
    assert!(c1);
    assert!(!c2);
    assert!(!c3);
    assert_eq!(h1, h2);
    assert_eq!(h2, h3);
}

#[test]
fn confined_scope_isolation() {
    let mut first_context = ConfinedRegistry::new(1);
    let mut second_context = ConfinedRegistry::new(2);
    let key = TypeKey::new(11);
    let (h1, c1) = resolve_confined(&mut first_context, key);
    let (h2, c2) = resolve_confined(&mut second_context, key);
    assert!(c1);
    assert!(c2);
    assert_ne!(h1, h2);
    assert_eq!(h1.scope, 1);
    assert_eq!(h2.scope, 2);
    assert_eq!(h1.type_key, h2.type_key);
}

#[test]
fn type_isolation_between_two_services() {
    let mut registry = SharedRegistry::new(0);
    let key_a = TypeKey::new(100);
    let key_b = TypeKey::new(200);
    let (handle_a, _) = registry.resolve(key_a);
    let (handle_b, _) = registry.resolve(key_b);
    assert_ne!(handle_a, handle_b);
    assert_eq!(handle_a.type_key, key_a);
    assert_eq!(handle_b.type_key, key_b);
    // resolving the second type left the first type's entry untouched
    assert_eq!(registry.lookup(key_a), Some(handle_a));
    assert_eq!(registry.lookup(key_b), Some(handle_b));
}

#[test]
fn handles_clone_to_equivalent_handles() {
    let mut registry = SharedRegistry::new(0);
    let (handle, _) = registry.resolve(TypeKey::new(13));
    let clone = handle.clone();
    assert_eq!(clone, handle);
}

#[test]
fn mint_stores_nothing_until_register() {
    let mut registry = ConfinedRegistry::new(6);
    let key = TypeKey::new(21);
    let handle = registry.mint(key);
    // the instance starts here; until the start succeeds, nothing is stored
    assert_eq!(registry.lookup(key), None);
    assert!(registry.register(handle));
    assert_eq!(registry.lookup(key), Some(handle));
}

#[test]
fn abandoned_mint_leaves_no_entry() {
    // a start that fails means the minted handle is never registered: the
    // map stays unchanged and the next caller creates afresh
    let mut registry = ConfinedRegistry::new(6);
    let key = TypeKey::new(22);
    let dead = registry.mint(key);
    assert_eq!(registry.lookup(key), None);
    let (live, created) = resolve_confined(&mut registry, key);
    assert!(created);
    assert_ne!(live, dead);
    assert_eq!(registry.lookup(key), Some(live));
}

#[test]
fn register_refuses_foreign_handle() {
    let mut registry = ConfinedRegistry::new(6);
    let mut other = ConfinedRegistry::new(7);
    let foreign = other.mint(TypeKey::new(23));
    assert!(!registry.register(foreign));
    assert_eq!(registry.lookup(TypeKey::new(23)), None);
}

#[test]
fn capacity_reports_serial_space() {
    let registry = SharedRegistry::new(0);
    assert!(registry.has_capacity());
    let confined = ConfinedRegistry::new(9);
    assert!(confined.has_capacity());
}
