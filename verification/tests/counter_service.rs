use actor_registry::confined::ConfinedRegistry;
use actor_registry::counter::{Counter, COUNTER_KEY_CODE};
use actor_registry::handle::Handle;
use actor_registry::service::{LocalService, Service};
use actor_registry::shared::SharedRegistry;

async fn resolve_counter(reg: &futures::lock::Mutex<SharedRegistry>) -> (Handle, bool) {
    let mut guard = reg.lock().await;
    <Counter as Service>::from_registry(&mut guard)
}

#[test]
fn counter_keys_are_stable() {
    assert_eq!(<Counter as Service>::type_key().code, COUNTER_KEY_CODE);
    assert_eq!(<Counter as LocalService>::type_key().code, COUNTER_KEY_CODE);
    assert_eq!(<Counter as Service>::type_key(), <Counter as Service>::type_key());
}

#[test]
fn counter_increments_report_exact_totals() {
    let mut counter = Counter::default();
    assert_eq!(counter.value, 0);
    assert_eq!(counter.increment(), 1);
    assert_eq!(counter.increment(), 2);
    assert_eq!(counter.value, 2);
}

#[test]
fn local_counter_two_phase_resolution() {
    let mut context = ConfinedRegistry::new(4);
    let (h1, created1) = <Counter as LocalService>::from_registry(&mut context);
    assert!(created1);
    // nothing is stored until the instance has started
    assert_eq!(context.lookup(<Counter as LocalService>::type_key()), None);
    let instance = Counter::default();
    assert_eq!(instance.value, 0);
    assert!(context.register(h1));
    let (h2, created2) = <Counter as LocalService>::from_registry(&mut context);
    assert!(!created2);
    assert_eq!(h1, h2);
}

#[test]
fn counter_service_end_to_end() {
    // Three concurrent callers resolve the counter service, then each sends
    // one increment message; the instance's own queue serializes them.
    let registry = futures::lock::Mutex::new(SharedRegistry::new(0));
    let ((h1, c1), (h2, c2), (h3, c3)) = futures::executor::block_on(futures::future::join3(
        resolve_counter(&registry),
        resolve_counter(&registry),
        resolve_counter(&registry),
    ));

    // all three callers see the one shared instance
    assert_eq!(h1, h2);
    assert_eq!(h2, h3);
    let creations: u32 = c1 as u32 + c2 as u32 + c3 as u32;
    assert_eq!(creations, 1);

    // the one instance starts at zero and processes the three messages in
    // its queue one after the other
    let mut instance = Counter::default();
    let mailbox: Vec<Handle> = vec![h1, h2, h3];
    let mut observed: Vec<u64> = Vec::new();
    for _message in mailbox {
        observed.push(instance.increment());
    }
    assert_eq!(observed, vec![1, 2, 3]);
    // three distinct, monotonically increasing totals: never three ones
    assert!(observed[0] < observed[1] && observed[1] < observed[2]);
}
