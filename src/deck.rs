//! A deck: items keyed by their question, each with its answer and its
//! scheduling record.
//!
//! Items are kept in the order in which they entered the deck, and the due item
//! that the deck offers is the first due one in that order.

use vstd::prelude::*;

use crate::clock::now_seconds;
use crate::error::ErrorKind;
use crate::memory::{initial_state, is_due_at, next_state, sm_wf, Sm, DEFAULT_EASINESS, MAX_GRADE};

verus! {

/// 2014-11-28T12:00:09Z, the last review of the sample card.
pub const SAMPLE_REVIEWED: i64 = 1417176009;

/// One item: its question (the key), its answer and its record.
#[derive(Debug)]
pub struct Card {
    pub question: String,
    pub answer: String,
    pub state: Sm,
}

/// What a card holds, as mathematical values.
pub struct CardView {
    pub question: Seq<char>,
    pub answer: Seq<char>,
    pub state: Sm,
}

impl View for Card {
    type V = CardView;

    open spec fn view(&self) -> CardView {
        CardView { question: self.question@, answer: self.answer@, state: self.state }
    }
}

/// No two cards share a question.
pub open spec fn keys_unique(cs: Seq<CardView>) -> bool {
    forall|i: int, j: int|
        0 <= i < cs.len() && 0 <= j < cs.len() && i != j ==> cs[i].question != cs[j].question
}

/// The invariant of a deck: unique questions and well-formed records.
pub open spec fn deck_wf(cs: Seq<CardView>) -> bool {
    &&& keys_unique(cs)
    &&& forall|i: int| 0 <= i < cs.len() ==> sm_wf(#[trigger] cs[i].state)
}

/// Some card has the question `q`.
pub open spec fn has_question(cs: Seq<CardView>, q: Seq<char>) -> bool {
    exists|i: int| 0 <= i < cs.len() && cs[i].question == q
}

/// Card `i` is the first card that is due at `now`.
pub open spec fn is_first_due(cs: Seq<CardView>, i: int, now: int) -> bool {
    &&& 0 <= i < cs.len()
    &&& is_due_at(cs[i].state, now)
    &&& forall|j: int| 0 <= j < i ==> !is_due_at(#[trigger] cs[j].state, now)
}

/// No card is due at `now`.
pub open spec fn none_due(cs: Seq<CardView>, now: int) -> bool {
    forall|i: int| 0 <= i < cs.len() ==> !is_due_at(#[trigger] cs[i].state, now)
}

/// An optional string as an optional sequence of characters.
pub open spec fn opt_view(r: Option<String>) -> Option<Seq<char>> {
    match r {
        Some(s) => Some(s@),
        None => None,
    }
}

/// The question of the first card due at `now`, if any.
pub open spec fn due_question(cs: Seq<CardView>, now: int, r: Option<Seq<char>>) -> bool {
    match r {
        None => none_due(cs, now),
        Some(q) => exists|i: int| is_first_due(cs, i, now) && cs[i].question == q,
    }
}

/// The cards after the card with question `q` is graded `grade` at `now`.
pub open spec fn graded(cs: Seq<CardView>, q: Seq<char>, grade: int, now: int) -> Seq<CardView> {
    Seq::new(
        cs.len(),
        |i: int|
            if cs[i].question == q {
                CardView {
                    question: cs[i].question,
                    answer: cs[i].answer,
                    state: next_state(cs[i].state, grade, now),
                }
            } else {
                cs[i]
            },
    )
}

/// The cards after inserting question `q` with answer `a` at `now`.
pub open spec fn inserted(cs: Seq<CardView>, q: Seq<char>, a: Seq<char>, now: int) -> Seq<
    CardView,
> {
    if has_question(cs, q) {
        cs
    } else {
        cs.push(CardView { question: q, answer: a, state: initial_state(now) })
    }
}

/// The one card of the sample deck.
pub open spec fn sample_card() -> CardView {
    CardView {
        question: "hello"@,
        answer: "this is answer"@,
        state: Sm { n: 1, ef: DEFAULT_EASINESS, interval: 1, last_reviewed: SAMPLE_REVIEWED },
    }
}

/// The views of a sequence of cards.
pub open spec fn cards_view(cards: Seq<Card>) -> Seq<CardView> {
    cards.map_values(|c: Card| c@)
}

/// The items under review.
pub struct Deck {
    cards: Vec<Card>,
}

impl View for Deck {
    type V = Seq<CardView>;

    closed spec fn view(&self) -> Seq<CardView> {
        cards_view(self.cards@)
    }
}

impl Deck {
    /// The invariant that every deck keeps: unique questions and well-formed
    /// records.
    #[verifier::type_invariant]
    pub open spec fn wf(&self) -> bool {
        deck_wf(self@)
    }

    /// An empty deck.
    pub fn new() -> (r: Deck)
        ensures
            r@ == Seq::<CardView>::empty(),
    {
        let r = Deck { cards: Vec::new() };
        assert(r@ =~= Seq::<CardView>::empty());
        r
    }

    /// The number of cards.
    pub fn len(&self) -> (r: usize)
        ensures
            r == self@.len(),
    {
        self.cards.len()
    }

    /// The card at position `i`.
    pub fn card(&self, i: usize) -> (r: &Card)
        requires
            i < self@.len(),
        ensures
            r@ == self@[i as int],
    {
        &self.cards[i]
    }

    /// The position of the card with question `question`, if any.
    pub fn find(&self, question: &String) -> (r: Option<usize>)
        ensures
            r is None <==> !has_question(self@, question@),
            r matches Some(i) ==> i < self@.len() && self@[i as int].question == question@,
    {
        let mut i: usize = 0;
        while i < self.cards.len()
            invariant
                i <= self.cards@.len(),
                self@ == cards_view(self.cards@),
                forall|j: int| 0 <= j < i ==> self@[j].question != question@,
            decreases self.cards@.len() - i,
        {
            if self.cards[i].question == *question {
                assert(self@[i as int].question == question@);
                return Some(i);
            }
            i += 1;
        }
        None
    }

    /// The card with question `question`, if any.
    pub fn lookup(&self, question: &String) -> (r: Option<&Card>)
        ensures
            r is None <==> !has_question(self@, question@),
            r matches Some(c) ==> exists|i: int|
                0 <= i < self@.len() && self@[i] == c@ && c@.question == question@,
    {
        match self.find(question) {
            Some(i) => Some(&self.cards[i]),
            None => None,
        }
    }

    /// Adds a card with a new record made at `now`, unless the question is
    /// already there, in which case the deck is left as it was.
    pub fn insert(&mut self, question: String, answer: String, now: i64)
        ensures
            final(self)@ == inserted(old(self)@, question@, answer@, now as int),
    {
        proof {
            use_type_invariant(&*self);
        }
        if self.find(&question).is_none() {
            let ghost q = question@;
            let ghost a = answer@;
            let mut cards: Vec<Card> = Vec::new();
            std::mem::swap(&mut cards, &mut self.cards);
            cards.push(Card { question, answer, state: Sm::new(now) });
            assert(cards_view(cards@) =~= old(self)@.push(
                CardView { question: q, answer: a, state: initial_state(now as int) },
            ));
            self.cards = cards;
        }
    }

    /// The question of the first card that is due at `now`, or none if no card is.
    pub fn due_item(&self, now: i64) -> (r: Option<String>)
        ensures
            due_question(self@, now as int, opt_view(r)),
    {
        let mut i: usize = 0;
        while i < self.cards.len()
            invariant
                i <= self.cards@.len(),
                self@ == cards_view(self.cards@),
                forall|j: int| 0 <= j < i ==> !is_due_at(#[trigger] self@[j].state, now as int),
            decreases self.cards@.len() - i,
        {
            if self.cards[i].state.is_due(now) {
                let q = self.cards[i].question.clone();
                assert(is_first_due(self@, i as int, now as int));
                return Some(q);
            }
            i += 1;
        }
        None
    }

    /// The question of the first card that is due now, or none if no card is.
    pub fn search_reviewable(&self) -> (r: Option<String>)
        ensures
            exists|now: i64| due_question(self@, now as int, opt_view(r)),
    {
        let now = now_seconds();
        self.due_item(now)
    }

    /// Replaces the record of the card with question `question` by the record
    /// that grade `grade` at `now` gives. Fails with `UnknownItem`, leaving the
    /// deck as it was, when no card has that question.
    pub fn grade(&mut self, question: &String, grade: u8, now: i64) -> (r: Result<(), ErrorKind>)
        requires
            grade <= MAX_GRADE,
        ensures
            r is Err <==> !has_question(old(self)@, question@),
            r matches Err(e) ==> e == ErrorKind::UnknownItem && final(self)@ == old(self)@,
            r is Ok ==> final(self)@ == graded(old(self)@, question@, grade as int, now as int),
    {
        proof {
            use_type_invariant(&*self);
        }
        match self.find(question) {
            None => Err(ErrorKind::UnknownItem),
            Some(i) => {
                let next = self.cards[i].state.sm2(grade, now);
                let mut cards: Vec<Card> = Vec::new();
                std::mem::swap(&mut cards, &mut self.cards);
                cards[i].state = next;
                assert(cards_view(cards@) =~= graded(
                    old(self)@,
                    question@,
                    grade as int,
                    now as int,
                ));
                self.cards = cards;
                Ok(())
            },
        }
    }

    /// Grades the card with question `question` now; see [`Deck::grade`].
    pub fn update(&mut self, question: String, q: u8) -> (r: Result<(), ErrorKind>)
        requires
            q <= MAX_GRADE,
        ensures
            r is Err <==> !has_question(old(self)@, question@),
            r matches Err(e) ==> e == ErrorKind::UnknownItem && final(self)@ == old(self)@,
            r is Ok ==> exists|now: i64|
                final(self)@ == graded(old(self)@, question@, q as int, now as int),
    {
        let now = now_seconds();
        self.grade(&question, q, now)
    }

    /// A deck of one card, "hello", answered "this is answer", that was last
    /// reviewed on 2014-11-28 at 12:00:09 UTC after one successful recall.
    pub fn fake_data() -> (r: Deck)
        ensures
            r@ == seq![sample_card()],
    {
        let mut cards: Vec<Card> = Vec::new();
        cards.push(
            Card {
                question: "hello".to_owned(),
                answer: "this is answer".to_owned(),
                state: Sm { n: 1, ef: DEFAULT_EASINESS, interval: 1, last_reviewed: SAMPLE_REVIEWED },
            },
        );
        let r = Deck { cards };
        assert(r@ =~= seq![r.cards@[0]@]);
        r
    }
}

impl Default for Deck {
    /// An empty deck.
    fn default() -> (r: Deck)
        ensures
            r@ == Seq::<CardView>::empty(),
    {
        Deck::new()
    }
}

} // verus!
