use radix_event_stream::models::EventEmitter;
use radix_event_stream::registry::HandlerRegistry;

fn s(x: &str) -> String {
    x.to_string()
}

#[test]
fn empty_registry_has_no_handlers() {
    let reg: HandlerRegistry<u32> = HandlerRegistry::new();
    assert!(!reg.handler_exists(&s("component_1"), &s("Swap")));
    assert!(reg.get_handler(&s("component_1"), &s("Swap")).is_none());
}

#[test]
fn registered_handler_is_found_by_exact_key() {
    let mut reg = HandlerRegistry::new();
    reg.register(s("component_1"), s("Swap"), 7u32);
    assert!(reg.handler_exists(&s("component_1"), &s("Swap")));
    assert_eq!(reg.get_handler(&s("component_1"), &s("Swap")), Some(&7));
    assert!(!reg.handler_exists(&s("component_1"), &s("Deposit")));
    assert!(!reg.handler_exists(&s("component_2"), &s("Swap")));
}

#[test]
fn reregistration_replaces_previous_handler() {
    let mut reg = HandlerRegistry::new();
    reg.register(s("component_1"), s("Swap"), 1u32);
    reg.register(s("component_1"), s("Deposit"), 2u32);
    reg.register(s("component_1"), s("Swap"), 3u32);
    assert_eq!(reg.get_handler(&s("component_1"), &s("Swap")), Some(&3));
    assert_eq!(reg.get_handler(&s("component_1"), &s("Deposit")), Some(&2));
    assert_eq!(reg.remove(&s("component_1"), &s("Swap")), Some(3));
    assert!(reg.get_handler(&s("component_1"), &s("Swap")).is_none());
}

#[test]
fn remove_of_missing_key_changes_nothing() {
    let mut reg = HandlerRegistry::new();
    reg.register(s("package_1"), s("Minted"), 5u32);
    assert_eq!(reg.remove(&s("package_1"), &s("Burned")), None);
    assert_eq!(reg.get_handler(&s("package_1"), &s("Minted")), Some(&5));
}

#[test]
fn emitter_address_depends_on_variant() {
    let m = EventEmitter::Method { entity_address: s("component_1") };
    let f = EventEmitter::Function { package_address: s("package_1"), blueprint_name: s("Pool") };
    assert_eq!(m.address(), "component_1");
    assert_eq!(f.address(), "package_1");
}
