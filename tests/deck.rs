use spaced_review::deck::{Deck, SAMPLE_REVIEWED};
use spaced_review::error::ErrorKind;
use spaced_review::memory::{Sm, SECONDS_PER_DAY};

const T: i64 = 1_700_000_000;

#[test]
fn empty_deck_has_no_due_item() {
    let deck = Deck::new();
    assert_eq!(deck.due_item(T), None);
    assert_eq!(deck.search_reviewable(), None);
    assert_eq!(Deck::default().len(), 0);
}

#[test]
fn sample_deck_holds_one_due_card() {
    let deck = Deck::fake_data();
    assert_eq!(deck.len(), 1);
    let card = deck.card(0);
    assert_eq!(card.question, "hello");
    assert_eq!(card.answer, "this is answer");
    assert_eq!(card.state, Sm { n: 1, ef: 250, interval: 1, last_reviewed: SAMPLE_REVIEWED });
    assert_eq!(deck.search_reviewable(), Some("hello".to_string()));
    assert_eq!(deck.due_item(SAMPLE_REVIEWED + SECONDS_PER_DAY - 1), None);
}

#[test]
fn insert_adds_new_record() {
    let mut deck = Deck::new();
    deck.insert("a".to_string(), "1".to_string(), T);
    assert_eq!(deck.len(), 1);
    assert_eq!(deck.card(0).state, Sm::new(T));
    assert_eq!(deck.due_item(T), None);
    assert_eq!(deck.due_item(T + SECONDS_PER_DAY), Some("a".to_string()));
}

#[test]
fn insert_existing_key_is_noop() {
    let mut deck = Deck::new();
    deck.insert("a".to_string(), "1".to_string(), T);
    deck.insert("a".to_string(), "2".to_string(), T + 5);
    assert_eq!(deck.len(), 1);
    assert_eq!(deck.card(0).answer, "1");
    assert_eq!(deck.card(0).state.last_reviewed, T);
}

#[test]
fn first_due_in_insertion_order() {
    let mut deck = Deck::new();
    deck.insert("late".to_string(), "x".to_string(), T + 100);
    deck.insert("early".to_string(), "y".to_string(), T);
    deck.insert("also".to_string(), "z".to_string(), T);
    assert_eq!(deck.due_item(T + SECONDS_PER_DAY), Some("early".to_string()));
    assert_eq!(deck.due_item(T + SECONDS_PER_DAY + 100), Some("late".to_string()));
}

#[test]
fn grade_replaces_record() {
    let mut deck = Deck::new();
    deck.insert("a".to_string(), "1".to_string(), T);
    deck.insert("b".to_string(), "2".to_string(), T);
    let now = T + SECONDS_PER_DAY;
    assert_eq!(deck.grade(&"b".to_string(), 5, now), Ok(()));
    assert_eq!(deck.card(1).state, Sm { n: 1, ef: 260, interval: 1, last_reviewed: now });
    assert_eq!(deck.card(0).state, Sm::new(T));
    assert_eq!(deck.due_item(now), Some("a".to_string()));
}

#[test]
fn grade_unknown_item_leaves_deck() {
    let mut deck = Deck::new();
    deck.insert("a".to_string(), "1".to_string(), T);
    assert_eq!(deck.grade(&"zz".to_string(), 3, T + 9), Err(ErrorKind::UnknownItem));
    assert_eq!(deck.len(), 1);
    assert_eq!(deck.card(0).state, Sm::new(T));
}

#[test]
fn update_grades_now() {
    let mut deck = Deck::fake_data();
    assert_eq!(deck.update("hello".to_string(), 4), Ok(()));
    let s = deck.card(0).state;
    assert_eq!((s.n, s.ef, s.interval), (2, 250, 6));
    assert!(s.last_reviewed > SAMPLE_REVIEWED);
    assert_eq!(deck.search_reviewable(), None);
    assert_eq!(deck.update("nope".to_string(), 4), Err(ErrorKind::UnknownItem));
}

#[test]
fn lookup_finds_card() {
    let mut deck = Deck::new();
    deck.insert("a".to_string(), "1".to_string(), T);
    assert_eq!(deck.find(&"a".to_string()), Some(0));
    assert_eq!(deck.find(&"b".to_string()), None);
    assert_eq!(deck.lookup(&"a".to_string()).map(|c| c.answer.clone()), Some("1".to_string()));
    assert!(deck.lookup(&"b".to_string()).is_none());
}
