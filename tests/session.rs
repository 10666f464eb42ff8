use std::collections::HashSet;
use taskscore::entity::Session;
use taskscore::session::{TOKEN_LEN, generate_session_id, token_from_indices};

const ALPHABET: &str = "ABCDEFGHIJKLMNOPQRSTUVWXYZabcdefghijklmnopqrstuvwxyz0123456789";

#[test]
fn token_shape() {
    let t = generate_session_id();
    assert_eq!(t.chars().count(), TOKEN_LEN);
    assert_eq!(TOKEN_LEN, 30);
    assert!(t.chars().all(|c| ALPHABET.contains(c)));
}

#[test]
fn tokens_do_not_repeat_and_cover_the_alphabet() {
    let mut seen = HashSet::new();
    let mut counts = std::collections::HashMap::new();
    for _ in 0..2000 {
        let t = generate_session_id();
        for c in t.chars() {
            *counts.entry(c).or_insert(0u32) += 1;
        }
        assert!(seen.insert(t));
    }
    assert_eq!(counts.len(), 62);
    // 60000 draws over 62 characters: about 968 each.
    assert!(counts.values().all(|&n| n > 700 && n < 1250));
}

#[test]
fn token_from_positions() {
    assert_eq!(token_from_indices(&vec![0, 61, 26, 25, 52]), "A9aZ0");
    assert_eq!(token_from_indices(&vec![]), "");
}

#[test]
fn new_session_times_match() {
    let s = Session::new(7);
    assert_eq!(s.user, 7);
    assert_eq!(s.node_id, None);
    assert_eq!(s.started, s.refreshed);
    assert!(s.started > 1_500_000_000_000);
    assert_eq!(s.id.len(), 30);
}

#[test]
fn two_sessions_get_different_tokens() {
    assert_ne!(Session::new(1).id, Session::new(1).id);
}

#[test]
fn refresh_only_moves_forward() {
    let mut s = Session::create(3, "tok".to_string(), 1000);
    s.refresh_at(1500);
    assert_eq!((s.started, s.refreshed), (1000, 1500));
    s.refresh_at(1200);
    assert_eq!((s.started, s.refreshed), (1000, 1500));
    s.refresh_at(2000);
    assert_eq!((s.started, s.refreshed), (1000, 2000));
    let before = s.refreshed;
    s.refresh();
    assert!(s.refreshed >= before);
    assert_eq!(s.started, 1000);
    assert_eq!(s.id, "tok");
}
