//! One interactive review run: a state machine that takes the due items of a
//! deck one at a time, shows the question, then the answer, then records the
//! reader's grade and moves on.

use vstd::prelude::*;

use crate::deck::{graded, is_first_due, none_due, CardView, Deck};
use crate::error::ErrorKind;
use crate::memory::{is_due_at, MAX_GRADE};

verus! {

/// Where a session stands.
#[derive(Clone, Copy, Debug, PartialEq, Eq, Structural)]
pub enum Phase {
    /// No item selected yet.
    Idle,
    /// An item is selected and its answer is hidden.
    Concealed,
    /// The answer of the selected item is shown; a grade is awaited.
    Revealed,
    /// No item was due: the run is over.
    Finished,
}

/// What the reader may do next.
#[derive(Clone, Copy, Debug, PartialEq, Eq, Structural)]
pub enum Action {
    /// Show the answer.
    Reveal,
    /// Grade the recall from 0 to 5.
    Grade,
    /// End the run.
    Quit,
}

/// A session as mathematical values.
pub struct SessionView {
    pub deck: Seq<CardView>,
    pub phase: Phase,
    /// The question of the selected item; empty when none is selected.
    pub question: Seq<char>,
    /// The answer of the selected item; empty when none is selected.
    pub answer: Seq<char>,
}

/// Some card of `cs` has question `q` and answer `a`.
pub open spec fn holds_card(cs: Seq<CardView>, q: Seq<char>, a: Seq<char>) -> bool {
    exists|i: int| 0 <= i < cs.len() && cs[i].question == q && cs[i].answer == a
}

/// An item is selected.
pub open spec fn has_current(p: Phase) -> bool {
    p == Phase::Concealed || p == Phase::Revealed
}

/// `r` is `s` after selecting the first item due at `now` over the cards
/// `cards`: that item, concealed, or the end of the run if none is due.
pub open spec fn selected(cards: Seq<CardView>, now: int, r: SessionView) -> bool {
    &&& r.deck == cards
    &&& none_due(cards, now) ==> r.phase == Phase::Finished && r.question.len() == 0
        && r.answer.len() == 0
    &&& forall|i: int|
        #[trigger] is_first_due(cards, i, now) ==> r.phase == Phase::Concealed && r.question
            == cards[i].question && r.answer == cards[i].answer
}

/// The actions offered in each phase.
pub open spec fn actions_of(p: Phase) -> Seq<Action> {
    match p {
        Phase::Idle => seq![Action::Quit],
        Phase::Concealed => seq![Action::Reveal, Action::Quit],
        Phase::Revealed => seq![Action::Grade, Action::Quit],
        Phase::Finished => Seq::empty(),
    }
}

/// A review run over a deck that it owns for the run's length.
pub struct ReviewSession {
    deck: Deck,
    phase: Phase,
    question: String,
    answer: String,
}

impl View for ReviewSession {
    type V = SessionView;

    closed spec fn view(&self) -> SessionView {
        SessionView {
            deck: self.deck@,
            phase: self.phase,
            question: self.question@,
            answer: self.answer@,
        }
    }
}

impl ReviewSession {
    /// The invariant that every session keeps: a selected item is a card of
    /// the deck.
    #[verifier::type_invariant]
    spec fn wf(&self) -> bool {
        has_current(self.phase) ==> holds_card(self.deck@, self.question@, self.answer@)
    }

    /// A session over `deck`, with no item selected.
    pub fn new(deck: Deck) -> (r: ReviewSession)
        ensures
            r@.phase == Phase::Idle,
            r@.deck == deck@,
            r@.question.len() == 0,
            r@.answer.len() == 0,
    {
        ReviewSession { deck, phase: Phase::Idle, question: String::new(), answer: String::new() }
    }

    /// The phase the session is in.
    pub fn phase(&self) -> (r: Phase)
        ensures
            r == self@.phase,
    {
        self.phase
    }

    /// The deck under review.
    pub fn deck(&self) -> (r: &Deck)
        ensures
            r@ == self@.deck,
    {
        &self.deck
    }

    /// Ends the session and hands the deck back.
    pub fn into_deck(self) -> (r: Deck)
        ensures
            r@ == self@.deck,
    {
        self.deck
    }

    /// Selects the first item due at `now`, or finishes the run.
    fn advance(&mut self, now: i64)
        ensures
            selected(old(self)@.deck, now as int, final(self)@),
    {
        proof {
            use_type_invariant(&self.deck);
        }
        self.phase = Phase::Idle;
        match self.deck.due_item(now) {
            None => {
                self.phase = Phase::Finished;
                self.question = String::new();
                self.answer = String::new();
            },
            Some(q) => {
                let ghost i = choose|i: int| is_first_due(self.deck@, i, now as int)
                    && self.deck@[i].question == q@;
                match self.deck.lookup(&q) {
                    Some(card) => {
                        self.answer = card.answer.clone();
                    },
                    None => {},
                }
                self.question = q;
                assert(self.deck@[i].question == self.question@ && self.deck@[i].answer
                    == self.answer@);
                self.phase = Phase::Concealed;
                assert forall|j: int| #[trigger] is_first_due(self.deck@, j, now as int) implies j
                    == i by {
                    if j < i {
                        assert(!is_due_at(self.deck@[j].state, now as int));
                    }
                    if i < j {
                        assert(!is_due_at(self.deck@[i].state, now as int));
                    }
                }
            },
        }
    }

    /// From `Idle`: selects the first item due at `now`, concealed, or finishes
    /// the run when none is due. From any other phase: `InvalidTransition`,
    /// with the session left as it was.
    pub fn start(&mut self, now: i64) -> (r: Result<(), ErrorKind>)
        ensures
            r is Ok <==> old(self)@.phase == Phase::Idle,
            r matches Err(e) ==> e == ErrorKind::InvalidTransition && final(self)@ == old(self)@,
            r is Ok ==> selected(old(self)@.deck, now as int, final(self)@),
    {
        if self.phase != Phase::Idle {
            return Err(ErrorKind::InvalidTransition);
        }
        self.advance(now);
        Ok(())
    }

    /// From `Concealed`: shows the answer. From any other phase:
    /// `InvalidTransition`, with the session left as it was.
    pub fn show_answer(&mut self) -> (r: Result<(), ErrorKind>)
        ensures
            r is Ok <==> old(self)@.phase == Phase::Concealed,
            r matches Err(e) ==> e == ErrorKind::InvalidTransition && final(self)@ == old(self)@,
            r is Ok ==> final(self)@ == (SessionView { phase: Phase::Revealed, ..old(self)@ }),
    {
        if self.phase != Phase::Concealed {
            return Err(ErrorKind::InvalidTransition);
        }
        proof {
            use_type_invariant(&*self);
        }
        self.phase = Phase::Revealed;
        Ok(())
    }

    /// Shows a hidden answer or hides a shown one. From `Idle` or `Finished`:
    /// `InvalidTransition`, with the session left as it was.
    pub fn toggle_reveal(&mut self) -> (r: Result<(), ErrorKind>)
        ensures
            r is Ok <==> has_current(old(self)@.phase),
            r matches Err(e) ==> e == ErrorKind::InvalidTransition && final(self)@ == old(self)@,
            old(self)@.phase == Phase::Concealed ==> final(self)@ == (SessionView {
                phase: Phase::Revealed,
                ..old(self)@
            }),
            old(self)@.phase == Phase::Revealed ==> final(self)@ == (SessionView {
                phase: Phase::Concealed,
                ..old(self)@
            }),
    {
        proof {
            use_type_invariant(&*self);
        }
        match self.phase {
            Phase::Concealed => {
                self.phase = Phase::Revealed;
                Ok(())
            },
            Phase::Revealed => {
                self.phase = Phase::Concealed;
                Ok(())
            },
            _ => Err(ErrorKind::InvalidTransition),
        }
    }

    /// From `Revealed`: records grade `value` at `now` for the shown item, then
    /// selects the next item due at `now` or finishes the run. From any other
    /// phase: `InvalidTransition`; with a grade above 5: `InvalidGrade`; either
    /// way the session is left as it was.
    pub fn grade(&mut self, value: u8, now: i64) -> (r: Result<(), ErrorKind>)
        ensures
            r is Ok <==> old(self)@.phase == Phase::Revealed && value <= MAX_GRADE,
            r matches Err(e) ==> final(self)@ == old(self)@ && (e == if old(self)@.phase
                != Phase::Revealed {
                ErrorKind::InvalidTransition
            } else {
                ErrorKind::InvalidGrade
            }),
            r is Ok ==> selected(
                graded(old(self)@.deck, old(self)@.question, value as int, now as int),
                now as int,
                final(self)@,
            ),
    {
        if self.phase != Phase::Revealed {
            return Err(ErrorKind::InvalidTransition);
        }
        if value > MAX_GRADE {
            return Err(ErrorKind::InvalidGrade);
        }
        proof {
            use_type_invariant(&*self);
        }
        let question = self.question.clone();
        self.phase = Phase::Idle;
        let mut deck = Deck::new();
        std::mem::swap(&mut deck, &mut self.deck);
        let graded = deck.grade(&question, value, now);
        self.deck = deck;
        match graded {
            Ok(()) => {},
            Err(e) => {
                return Err(e);
            },
        }
        self.advance(now);
        Ok(())
    }

    /// Ends the run at once.
    pub fn quit(&mut self)
        ensures
            final(self)@.phase == Phase::Finished,
            final(self)@.deck == old(self)@.deck,
            final(self)@.question.len() == 0,
            final(self)@.answer.len() == 0,
    {
        self.phase = Phase::Finished;
        self.question = String::new();
        self.answer = String::new();
    }

    /// The question of the selected item; empty when none is selected.
    pub fn question_text(&self) -> (r: String)
        ensures
            r@ == self@.question,
    {
        self.question.clone()
    }

    /// The answer of the selected item while it is shown, none otherwise.
    pub fn answer_text(&self) -> (r: Option<String>)
        ensures
            r is Some <==> self@.phase == Phase::Revealed,
            r matches Some(a) ==> a@ == self@.answer,
    {
        match self.phase {
            Phase::Revealed => Some(self.answer.clone()),
            _ => None,
        }
    }

    /// What the reader may do in the current phase.
    pub fn available_actions(&self) -> (r: Vec<Action>)
        ensures
            r@ == actions_of(self@.phase),
    {
        let mut r: Vec<Action> = Vec::new();
        match self.phase {
            Phase::Idle => {
                r.push(Action::Quit);
            },
            Phase::Concealed => {
                r.push(Action::Reveal);
                r.push(Action::Quit);
            },
            Phase::Revealed => {
                r.push(Action::Grade);
                r.push(Action::Quit);
            },
            Phase::Finished => {},
        }
        assert(r@ =~= actions_of(self.phase));
        r
    }
}

} // verus!
