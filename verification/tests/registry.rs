use network_client::handler_map::HandlerMap;
use network_client::peer_id::PeerId;
use network_client::registry::Lookup;
use network_client::registry::Registry;

fn worker(n: u8) -> PeerId {
    let mut bytes = [0u8; 32];
    bytes[0] = n;
    PeerId(bytes)
}

fn found<'a, H>(lookup: Lookup<&'a H>) -> &'a H {
    match lookup {
        Lookup::Found(handler) => handler,
        Lookup::Missing => panic!("missing"),
        Lookup::ShuttingDown => panic!("shutting down"),
    }
}

#[test]
fn new_registry_holds_nothing() {
    let registry: Registry<&str, &str, &str> = Registry::new();
    assert!(registry.is_empty());
    assert!(!registry.is_shut_down());
    assert!(matches!(registry.find_worker_to_primary(), Lookup::Missing));
    assert!(matches!(registry.find_primary_to_worker(&worker(1)), Lookup::Missing));
    assert!(matches!(registry.find_worker_to_worker(&worker(1)), Lookup::Missing));
}

#[test]
fn registered_handler_is_the_one_found() {
    let mut registry: Registry<&str, &str, &str> = Registry::new();
    registry.register_worker_to_primary("primary");
    registry.register_primary_to_worker(worker(1), "p2w one");
    registry.register_worker_to_worker(worker(1), "w2w one");
    assert_eq!(*found(registry.find_worker_to_primary()), "primary");
    assert_eq!(*found(registry.find_primary_to_worker(&worker(1))), "p2w one");
    assert_eq!(*found(registry.find_worker_to_worker(&worker(1))), "w2w one");
    assert!(!registry.is_empty());
}

#[test]
fn roles_and_workers_are_kept_apart() {
    let mut registry: Registry<&str, &str, &str> = Registry::new();
    registry.register_primary_to_worker(worker(1), "p2w one");
    assert!(matches!(registry.find_primary_to_worker(&worker(2)), Lookup::Missing));
    assert!(matches!(registry.find_worker_to_worker(&worker(1)), Lookup::Missing));
    assert!(matches!(registry.find_worker_to_primary(), Lookup::Missing));
    registry.register_primary_to_worker(worker(2), "p2w two");
    registry.register_worker_to_worker(worker(2), "w2w two");
    assert_eq!(*found(registry.find_primary_to_worker(&worker(1))), "p2w one");
    assert_eq!(*found(registry.find_primary_to_worker(&worker(2))), "p2w two");
    assert_eq!(*found(registry.find_worker_to_worker(&worker(2))), "w2w two");
}

#[test]
fn later_registration_replaces_the_earlier_one() {
    let mut registry: Registry<&str, &str, &str> = Registry::new();
    registry.register_primary_to_worker(worker(1), "a");
    registry.register_primary_to_worker(worker(2), "other");
    registry.register_primary_to_worker(worker(1), "b");
    assert_eq!(*found(registry.find_primary_to_worker(&worker(1))), "b");
    assert_eq!(*found(registry.find_primary_to_worker(&worker(2))), "other");
    registry.register_worker_to_worker(worker(1), "a");
    registry.register_worker_to_worker(worker(1), "b");
    assert_eq!(*found(registry.find_worker_to_worker(&worker(1))), "b");
    registry.register_worker_to_primary("a");
    registry.register_worker_to_primary("b");
    assert_eq!(*found(registry.find_worker_to_primary()), "b");
}

#[test]
fn shutdown_clears_every_handler() {
    let mut registry: Registry<&str, &str, &str> = Registry::new();
    registry.register_worker_to_primary("primary");
    registry.register_primary_to_worker(worker(1), "p2w");
    registry.register_worker_to_worker(worker(1), "w2w");
    registry.shutdown();
    assert!(registry.is_shut_down());
    assert!(registry.is_empty());
    assert!(matches!(registry.find_worker_to_primary(), Lookup::ShuttingDown));
    assert!(matches!(registry.find_primary_to_worker(&worker(1)), Lookup::ShuttingDown));
    assert!(matches!(registry.find_primary_to_worker(&worker(9)), Lookup::ShuttingDown));
    assert!(matches!(registry.find_worker_to_worker(&worker(1)), Lookup::ShuttingDown));
}

#[test]
fn second_shutdown_changes_nothing() {
    let mut registry: Registry<&str, &str, &str> = Registry::new();
    registry.register_primary_to_worker(worker(1), "p2w");
    registry.shutdown();
    registry.shutdown();
    assert!(registry.is_shut_down());
    assert!(registry.is_empty());
    assert!(matches!(registry.find_primary_to_worker(&worker(1)), Lookup::ShuttingDown));
}

#[test]
fn registry_that_is_shut_down_takes_no_handler() {
    let mut registry: Registry<&str, &str, &str> = Registry::new();
    registry.shutdown();
    registry.register_worker_to_primary("primary");
    registry.register_primary_to_worker(worker(1), "p2w");
    registry.register_worker_to_worker(worker(1), "w2w");
    assert!(registry.is_shut_down());
    assert!(registry.is_empty());
    assert!(matches!(registry.find_worker_to_primary(), Lookup::ShuttingDown));
    assert!(matches!(registry.find_primary_to_worker(&worker(1)), Lookup::ShuttingDown));
}

#[test]
fn shutdown_of_a_new_registry_is_allowed() {
    let mut registry: Registry<u8, u8, u8> = Registry::new();
    registry.shutdown();
    assert!(registry.is_shut_down());
    assert!(matches!(registry.find_worker_to_primary(), Lookup::ShuttingDown));
}

#[test]
fn handler_map_keeps_one_handler_per_identity() {
    let mut map: HandlerMap<u32> = HandlerMap::new();
    assert!(map.is_empty());
    assert_eq!(map.get(&worker(1)), None);
    map.insert(worker(1), 10);
    map.insert(worker(2), 20);
    map.insert(worker(3), 30);
    assert_eq!(map.get(&worker(1)), Some(&10));
    assert_eq!(map.get(&worker(2)), Some(&20));
    assert_eq!(map.get(&worker(3)), Some(&30));
    assert_eq!(map.get(&worker(4)), None);
    map.insert(worker(2), 21);
    assert_eq!(map.get(&worker(1)), Some(&10));
    assert_eq!(map.get(&worker(2)), Some(&21));
    assert_eq!(map.get(&worker(3)), Some(&30));
    assert!(!map.is_empty());
    map.clear();
    assert!(map.is_empty());
    assert_eq!(map.get(&worker(2)), None);
}

#[test]
fn lookup_clones_the_handler_it_found() {
    let mut registry: Registry<String, String, String> = Registry::new();
    registry.register_primary_to_worker(worker(1), String::from("handler"));
    let copy = registry.find_primary_to_worker(&worker(1)).cloned();
    assert!(matches!(copy, Lookup::Found(ref text) if text == "handler"));
    assert!(matches!(registry.find_primary_to_worker(&worker(2)).cloned(), Lookup::Missing));
    registry.shutdown();
    assert!(matches!(registry.find_primary_to_worker(&worker(1)).cloned(), Lookup::ShuttingDown));
}
