use signal_hub::message::{Message, Outbound};
use signal_hub::registry::{Attempt, Registry};
use tokio::sync::mpsc::error::TryRecvError;
use tokio::sync::mpsc::unbounded_channel;

fn text(s: &str) -> Outbound {
    Outbound::Relay(s.to_string())
}

fn ids(report: &[Attempt]) -> Vec<String> {
    let mut ids: Vec<String> = report.iter().map(|a| a.id.clone()).collect();
    ids.sort();
    ids
}

#[test]
fn new_registry_holds_nobody() {
    let registry = Registry::new();
    assert!(!registry.contains("alice"));
    assert!(registry.broadcast(&text("m"), None).is_empty());
}

#[test]
fn register_then_contains() {
    let mut registry = Registry::new();
    let (tx, _rx) = unbounded_channel::<Outbound>();
    registry.register("alice", tx);
    assert!(registry.contains("alice"));
    assert!(!registry.contains("bob"));
    assert!(!registry.contains(""));
}

#[test]
fn broadcast_reaches_the_other_and_not_the_excluded() {
    let mut registry = Registry::new();
    let (tx_a, mut rx_a) = unbounded_channel::<Outbound>();
    let (tx_b, mut rx_b) = unbounded_channel::<Outbound>();
    registry.register("a", tx_a);
    registry.register("b", tx_b);
    let report = registry.broadcast(&text("m"), Some("a"));
    assert_eq!(report, vec![Attempt { id: "b".to_string(), accepted: true }]);
    assert_eq!(rx_b.try_recv(), Ok(text("m")));
    assert_eq!(rx_b.try_recv(), Err(TryRecvError::Empty));
    assert_eq!(rx_a.try_recv(), Err(TryRecvError::Empty));
}

#[test]
fn broadcast_without_exclusion_reaches_everyone_once() {
    let mut registry = Registry::new();
    let (tx_a, mut rx_a) = unbounded_channel::<Outbound>();
    let (tx_b, mut rx_b) = unbounded_channel::<Outbound>();
    let (tx_c, mut rx_c) = unbounded_channel::<Outbound>();
    registry.register("a", tx_a);
    registry.register("b", tx_b);
    registry.register("c", tx_c);
    let report = registry.broadcast(&text("hello"), None);
    assert_eq!(ids(&report), vec!["a".to_string(), "b".to_string(), "c".to_string()]);
    assert!(report.iter().all(|a| a.accepted));
    for rx in [&mut rx_a, &mut rx_b, &mut rx_c] {
        assert_eq!(rx.try_recv(), Ok(text("hello")));
        assert_eq!(rx.try_recv(), Err(TryRecvError::Empty));
    }
}

#[test]
fn broadcast_excluding_an_unregistered_identity_reaches_everyone() {
    let mut registry = Registry::new();
    let (tx_a, mut rx_a) = unbounded_channel::<Outbound>();
    registry.register("a", tx_a);
    let report = registry.broadcast(&text("m"), Some("zed"));
    assert_eq!(ids(&report), vec!["a".to_string()]);
    assert_eq!(rx_a.try_recv(), Ok(text("m")));
}

#[test]
fn reregistering_replaces_the_prior_channel() {
    let mut registry = Registry::new();
    let (tx_old, mut rx_old) = unbounded_channel::<Outbound>();
    let (tx_new, mut rx_new) = unbounded_channel::<Outbound>();
    registry.register("alice", tx_old.clone());
    registry.register("alice", tx_new);
    let report = registry.broadcast(&text("m"), None);
    assert_eq!(report, vec![Attempt { id: "alice".to_string(), accepted: true }]);
    assert_eq!(rx_new.try_recv(), Ok(text("m")));
    // The prior connection is out of reach under that identity, and still open.
    assert_eq!(rx_old.try_recv(), Err(TryRecvError::Empty));
    assert!(!tx_old.is_closed());
    assert!(tx_old.send(text("direct")).is_ok());
    assert_eq!(rx_old.try_recv(), Ok(text("direct")));
}

#[test]
fn send_to_reaches_only_the_named_connection() {
    let mut registry = Registry::new();
    let (tx_a, mut rx_a) = unbounded_channel::<Outbound>();
    let (tx_b, mut rx_b) = unbounded_channel::<Outbound>();
    registry.register("a", tx_a);
    registry.register("b", tx_b);
    let report = registry.send_to("b", &text("m"));
    assert_eq!(report, vec![Attempt { id: "b".to_string(), accepted: true }]);
    assert_eq!(rx_b.try_recv(), Ok(text("m")));
    assert_eq!(rx_a.try_recv(), Err(TryRecvError::Empty));
}

#[test]
fn send_to_an_unregistered_identity_delivers_nothing() {
    let mut registry = Registry::new();
    let (tx_a, mut rx_a) = unbounded_channel::<Outbound>();
    registry.register("a", tx_a);
    let report = registry.send_to("nobody", &text("m"));
    assert!(report.is_empty());
    assert_eq!(rx_a.try_recv(), Err(TryRecvError::Empty));
}

#[test]
fn unregister_removes_the_entry() {
    let mut registry = Registry::new();
    let (tx_a, mut rx_a) = unbounded_channel::<Outbound>();
    let (tx_b, mut rx_b) = unbounded_channel::<Outbound>();
    registry.register("a", tx_a);
    registry.register("b", tx_b);
    registry.unregister("a");
    assert!(!registry.contains("a"));
    assert!(registry.contains("b"));
    let report = registry.broadcast(&text("m"), None);
    assert_eq!(ids(&report), vec!["b".to_string()]);
    assert_eq!(rx_b.try_recv(), Ok(text("m")));
    // The registry held the only sender of this channel.
    assert_eq!(rx_a.try_recv(), Err(TryRecvError::Disconnected));
}

#[test]
fn unregister_of_an_absent_identity_changes_nothing() {
    let mut registry = Registry::new();
    let (tx_a, _rx_a) = unbounded_channel::<Outbound>();
    registry.register("a", tx_a);
    registry.unregister("b");
    assert!(registry.contains("a"));
    assert_eq!(ids(&registry.broadcast(&text("m"), None)), vec!["a".to_string()]);
}

#[test]
fn a_closed_channel_is_passed_over() {
    let mut registry = Registry::new();
    let (tx_a, rx_a) = unbounded_channel::<Outbound>();
    let (tx_b, mut rx_b) = unbounded_channel::<Outbound>();
    registry.register("a", tx_a);
    registry.register("b", tx_b);
    drop(rx_a);
    let mut report = registry.broadcast(&text("m"), None);
    report.sort_by(|x, y| x.id.cmp(&y.id));
    assert_eq!(
        report,
        vec![
            Attempt { id: "a".to_string(), accepted: false },
            Attempt { id: "b".to_string(), accepted: true },
        ]
    );
    assert_eq!(rx_b.try_recv(), Ok(text("m")));
    // The dead entry stays until it is unregistered.
    assert!(registry.contains("a"));
    assert_eq!(
        registry.send_to("a", &text("m")),
        vec![Attempt { id: "a".to_string(), accepted: false }]
    );
}

#[test]
fn notices_are_broadcast_as_values() {
    let mut registry = Registry::new();
    let (tx_a, mut rx_a) = unbounded_channel::<Outbound>();
    registry.register("a", tx_a);
    let notice = Outbound::Notice(Message::user_left("zoe"));
    registry.broadcast(&notice, None);
    assert_eq!(rx_a.try_recv(), Ok(Outbound::Notice(Message::user_left("zoe"))));
}

#[test]
fn identities_are_compared_by_their_characters() {
    let mut registry = Registry::new();
    let (tx_a, _rx_a) = unbounded_channel::<Outbound>();
    let (tx_b, _rx_b) = unbounded_channel::<Outbound>();
    registry.register("zoë", tx_a);
    registry.register("zoe", tx_b);
    assert!(registry.contains("zoë"));
    assert!(registry.contains("zoe"));
    assert!(!registry.contains("Zoe"));
    assert_eq!(
        ids(&registry.broadcast(&text("m"), Some("zoë"))),
        vec!["zoe".to_string()]
    );
}
