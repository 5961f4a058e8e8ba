use menu_dispatch::registry::WindowRegistry;

#[test]
fn get_or_create_is_idempotent() {
    let mut reg = WindowRegistry::new();
    let (h1, created1) = reg.get_or_create("about");
    let (h2, created2) = reg.get_or_create("about");
    assert!(created1);
    assert!(!created2);
    assert_eq!(h1, h2);
    assert_eq!(reg.live_count(), 1);
}

#[test]
fn release_then_create_gives_distinct_handle() {
    let mut reg = WindowRegistry::new();
    let (h1, _) = reg.get_or_create("about");
    reg.release("about");
    assert_eq!(reg.live_count(), 0);
    let (h2, created) = reg.get_or_create("about");
    assert!(created);
    assert_ne!(h1, h2);
}

#[test]
fn release_of_unknown_name_is_harmless() {
    let mut reg = WindowRegistry::new();
    reg.release("nothing-here");
    assert_eq!(reg.live_count(), 0);
    let (_, created) = reg.get_or_create("settings");
    assert!(created);
    reg.release("nothing-here");
    assert_eq!(reg.live_count(), 1);
}

#[test]
fn distinct_names_get_distinct_slots() {
    let mut reg = WindowRegistry::new();
    let (h1, _) = reg.get_or_create("about");
    let (h2, _) = reg.get_or_create("settings");
    assert_ne!(h1, h2);
    assert_eq!(reg.live_count(), 2);
    assert_eq!(reg.live_handle("about"), Some(h1));
    assert_eq!(reg.live_handle("settings"), Some(h2));
    assert_eq!(reg.live_handle("other"), None);
}

#[test]
fn every_recreation_cycle_mints_a_new_handle() {
    let mut reg = WindowRegistry::new();
    let mut seen: Vec<u64> = Vec::new();
    for _ in 0..3 {
        let (h, created) = reg.get_or_create("about");
        assert!(created);
        assert!(!seen.contains(&h));
        seen.push(h);
        reg.release("about");
    }
}

#[test]
fn can_mint_holds_for_fresh_registry() {
    let reg = WindowRegistry::new();
    assert!(reg.can_mint());
}
