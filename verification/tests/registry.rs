use scope_signals::registry::SignalRegistry;

#[test]
fn fresh_registry_is_empty() {
    let registry: SignalRegistry<u8> = SignalRegistry::new();
    assert_eq!(registry.len(), 0);
    assert!(registry.can_register());
    assert!(!registry.is_registered(0));
}

#[test]
fn register_issues_consecutive_fresh_tokens() {
    let mut registry: SignalRegistry<u8> = SignalRegistry::new();
    let t0 = registry.register(10);
    let t1 = registry.register(11);
    let t2 = registry.register(12);
    assert_eq!((t0, t1, t2), (0, 1, 2));
    assert_eq!(registry.len(), 3);
    assert!(registry.is_registered(t0));
    assert!(registry.is_registered(t1));
    assert!(registry.is_registered(t2));
}

#[test]
fn deregister_removes_exactly_the_named_entry() {
    let mut registry: SignalRegistry<u8> = SignalRegistry::new();
    let t0 = registry.register(10);
    let t1 = registry.register(11);
    let removed = registry.deregister(t0);
    assert_eq!(removed, Some(10));
    assert!(!registry.is_registered(t0));
    assert!(registry.is_registered(t1));
    assert_eq!(registry.len(), 1);
    let again = registry.deregister(t0);
    assert_eq!(again, None);
    assert_eq!(registry.len(), 1);
}

#[test]
fn tokens_are_never_reused_after_removal() {
    let mut registry: SignalRegistry<u8> = SignalRegistry::new();
    let t0 = registry.register(10);
    registry.deregister(t0);
    let t1 = registry.register(11);
    assert_ne!(t0, t1);
    assert!(!registry.is_registered(t0));
    assert!(registry.is_registered(t1));
}

#[test]
fn registry_scan_matches_the_surviving_set() {
    let mut registry: SignalRegistry<u32> = SignalRegistry::new();
    let mut tokens = Vec::new();
    for value in 0..10u32 {
        tokens.push(registry.register(value));
    }
    // Destroy an arbitrary subset.
    let doomed = [tokens[1], tokens[4], tokens[5], tokens[9]];
    for token in doomed {
        assert!(registry.deregister(token).is_some());
    }
    assert_eq!(registry.len(), 6);
    for token in tokens.iter() {
        let destroyed = doomed.contains(token);
        assert_eq!(registry.is_registered(*token), !destroyed);
    }
}

#[test]
fn live_tokens_are_pairwise_distinct() {
    let mut registry: SignalRegistry<u32> = SignalRegistry::new();
    let mut tokens = Vec::new();
    for value in 0..32u32 {
        tokens.push(registry.register(value));
        if value % 3 == 0 {
            let doomed = tokens[tokens.len() / 2];
            registry.deregister(doomed);
            tokens.retain(|t| *t != doomed);
        }
    }
    for i in 0..tokens.len() {
        for j in 0..tokens.len() {
            if i != j {
                assert_ne!(tokens[i], tokens[j]);
            }
        }
    }
}

#[test]
fn drain_hands_every_counterpart_out_newest_first() {
    let mut registry: SignalRegistry<u8> = SignalRegistry::new();
    registry.register(1);
    registry.register(2);
    registry.register(3);
    let drained = registry.drain();
    assert_eq!(drained, vec![3, 2, 1]);
    assert_eq!(registry.len(), 0);
    // The token counter is untouched by draining.
    let t = registry.register(4);
    assert_eq!(t, 3);
}
