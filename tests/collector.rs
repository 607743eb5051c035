use cribbage_client::{parse_index, DiscardCollector, DiscardPrompt};

#[test]
fn parses_indices() {
    assert_eq!(parse_index(b"3"), Some(3));
    assert_eq!(parse_index(b"  4\n"), Some(4));
    assert_eq!(parse_index(b"255\r\n"), Some(255));
    assert_eq!(parse_index(b"007"), Some(7));
    assert_eq!(parse_index(b"256"), None);
    assert_eq!(parse_index(b"99999999999"), None);
    assert_eq!(parse_index(b""), None);
    assert_eq!(parse_index(b" \n"), None);
    assert_eq!(parse_index(b"two"), None);
    assert_eq!(parse_index(b"1 2"), None);
    assert_eq!(parse_index(b"-1"), None);
}

#[test]
fn single_card_collection() {
    let mut c = DiscardCollector::new(1);
    assert_eq!(c.prompt(), Some(DiscardPrompt::Only));
    assert_eq!(c.offer(b"6\n"), None);
    assert_eq!(c.offer(b"x\n"), None);
    assert!(!c.is_done());
    assert_eq!(c.offer(b"5\n"), Some(5));
    assert!(c.is_done());
    assert_eq!(c.prompt(), None);
    assert_eq!(c.offer(b"2\n"), None);
}

#[test]
fn pair_refuses_a_repeated_index() {
    let mut c = DiscardCollector::new(2);
    assert_eq!(c.prompt(), Some(DiscardPrompt::First));
    assert_eq!(c.offer(b"2\n"), Some(2));
    assert_eq!(c.prompt(), Some(DiscardPrompt::Second));
    for _ in 0..5 {
        assert_eq!(c.offer(b"2\n"), None);
        assert_eq!(c.prompt(), Some(DiscardPrompt::Second));
    }
    assert_eq!(c.offer(b"9\n"), None);
    assert_eq!(c.offer(b"0\n"), Some(0));
    assert!(c.is_done());
    assert_eq!(c.offer(b"1\n"), None);
}
