//! The conversation between the dispatcher and the host that owns the engine.
//!
//! Settling a key takes a few turns. Each turn hands the host a [`Move`]: operations to carry out
//! on the engine in order, then either the [`Effect`] of the key or a question. The host answers
//! the question, and what the dispatcher still has to do with the answer waits in a [`Pending`].

use crate::effect::{Effect, EffectView};
use crate::key::{KeyEvent, KeyModifiers};
use crate::text;
use vstd::prelude::*;

verus! {

/// An operation on the engine or on the candidate list, with no result.
#[derive(Clone, Copy, Debug, PartialEq, Eq, Structural)]
pub enum Op {
    /// Turn English word completion on or off.
    SetEnglishMode(bool),
    /// Put a character into the composition at its cursor.
    Push(char),
    /// Tell the engine of a character that reaches the document without it.
    NotePassthrough(char),
    /// Delete the character before the cursor.
    Backspace,
    /// Drop the composition.
    Clear,
    /// Drop the auxiliary code and keep the composition.
    ClearAux,
    /// Begin an auxiliary code.
    EnterAux,
    /// Move the cursor one place left.
    CursorLeft,
    /// Move the cursor one place right.
    CursorRight,
    /// Move the cursor to the start.
    CursorHome,
    /// Move the cursor to the end.
    CursorEnd,
    /// Turn that many candidate pages.
    Page(i32),
    /// Move the highlight that many candidates.
    MoveHighlight(i32),
}

/// A question to the host, which may change the engine in answering it.
#[derive(Debug, PartialEq, Eq)]
pub enum Ask {
    /// Only look at the engine again.
    Observe,
    /// Run the shortcut bound to this digit with these modifiers, if there is one.
    DigitShortcut(usize, KeyModifiers),
    /// Offer a letter to the auxiliary code.
    PushAuxCode(char),
    /// Empty the composition and hand over what was typed.
    TakeRaw,
    /// Convert a punctuation character to its full-width text.
    Punctuate(char),
    /// Commit the candidate at this index.
    CommitIndex(usize),
    /// Accept this sentence completion.
    AcceptPrediction(String),
}

/// An [`Ask`] with its text as a sequence of characters.
pub enum AskView {
    Observe,
    DigitShortcut(usize, KeyModifiers),
    PushAuxCode(char),
    TakeRaw,
    Punctuate(char),
    CommitIndex(usize),
    AcceptPrediction(Seq<char>),
}

impl View for Ask {
    type V = AskView;

    open spec fn view(&self) -> AskView {
        match *self {
            Ask::Observe => AskView::Observe,
            Ask::DigitShortcut(digit, modifiers) => AskView::DigitShortcut(digit, modifiers),
            Ask::PushAuxCode(c) => AskView::PushAuxCode(c),
            Ask::TakeRaw => AskView::TakeRaw,
            Ask::Punctuate(c) => AskView::Punctuate(c),
            Ask::CommitIndex(index) => AskView::CommitIndex(index),
            Ask::AcceptPrediction(sentence) => AskView::AcceptPrediction(sentence@),
        }
    }
}

/// The host's answer to an [`Ask`].
#[derive(Debug, PartialEq, Eq)]
pub enum Answer {
    /// The engine has been looked at; the answer to `Observe`.
    Observed,
    /// The effect of the shortcut, if one was bound; the answer to `DigitShortcut`.
    Claimed(Option<Effect>),
    /// Whether the letter was taken; the answer to `PushAuxCode`.
    Taken(bool),
    /// The text, if there was one; the answer to `Punctuate` and `CommitIndex`.
    Choice(Option<String>),
    /// The text; the answer to `TakeRaw` and `AcceptPrediction`.
    Text(String),
}

/// An [`Answer`] with its text as a sequence of characters.
pub enum AnswerView {
    Observed,
    Claimed(Option<EffectView>),
    Taken(bool),
    Choice(Option<Seq<char>>),
    Text(Seq<char>),
}

impl View for Answer {
    type V = AnswerView;

    open spec fn view(&self) -> AnswerView {
        match *self {
            Answer::Observed => AnswerView::Observed,
            Answer::Claimed(Some(effect)) => AnswerView::Claimed(Some(effect@)),
            Answer::Claimed(None) => AnswerView::Claimed(None),
            Answer::Taken(taken) => AnswerView::Taken(taken),
            Answer::Choice(text) => AnswerView::Choice(text::text_view(text)),
            Answer::Text(text) => AnswerView::Text(text@),
        }
    }
}

impl AskView {
    /// An answer of this kind is an answer to the question.
    pub open spec fn takes(self, answer: AnswerView) -> bool {
        match self {
            AskView::Observe => answer is Observed,
            AskView::DigitShortcut(_, _) => answer is Claimed,
            AskView::PushAuxCode(_) => answer is Taken,
            AskView::TakeRaw => answer is Text,
            AskView::Punctuate(_) => answer is Choice,
            AskView::CommitIndex(_) => answer is Choice,
            AskView::AcceptPrediction(_) => answer is Text,
        }
    }
}

/// What is to be done with a text once the host has handed it over.
#[derive(Clone, Copy, Debug, PartialEq, Eq, Structural)]
pub enum After {
    /// Commit it; the key is settled.
    Finish,
    /// Commit it, then treat the key as punctuation outside a composition.
    Punctuate,
    /// Commit it, then let the key through.
    Pass,
    /// Commit it, then type the key as plain English.
    PlainEnglish,
    /// Commit it, then set the engine's English mode and go on; holds whether the key belongs to a
    /// question.
    Mode(bool),
    /// Commit it, then dispatch the key afresh.
    Restart,
}

/// The question that is open and what its answer is for.
#[derive(Clone, Copy, Debug, PartialEq, Eq, Structural)]
pub enum Awaiting {
    /// The digit shortcut's effect.
    Shortcut,
    /// A look at the engine, to dispatch the key afresh.
    Restart,
    /// A look at the engine in its new English mode; holds whether the key belongs to a question.
    Mode(bool),
    /// Whether the auxiliary code took this letter.
    AuxCode(char),
    /// The full-width question mark.
    Mark(After),
    /// The full-width text of the key.
    Punctuation,
    /// The candidate that a digit picked.
    Slot,
    /// The highlighted candidate.
    Highlighted(After),
    /// The composition as typed, or an accepted sentence.
    Text(After),
}

impl Awaiting {
    /// An answer of this kind answers the open question.
    pub open spec fn fits(self, answer: AnswerView) -> bool {
        match self {
            Awaiting::Shortcut => answer is Claimed,
            Awaiting::Restart => answer is Observed,
            Awaiting::Mode(_) => answer is Observed,
            Awaiting::AuxCode(_) => answer is Taken,
            Awaiting::Mark(_) => answer is Choice,
            Awaiting::Punctuation => answer is Choice,
            Awaiting::Slot => answer is Choice,
            Awaiting::Highlighted(_) => answer is Choice,
            Awaiting::Text(_) => answer is Text,
        }
    }

    /// Tells whether an answer of this kind answers the open question.
    pub fn accepts(&self, answer: &Answer) -> (r: bool)
        ensures
            r == self.fits(answer@),
    {
        match self {
            Awaiting::Shortcut => matches!(answer, Answer::Claimed(_)),
            Awaiting::Restart => matches!(answer, Answer::Observed),
            Awaiting::Mode(_) => matches!(answer, Answer::Observed),
            Awaiting::AuxCode(_) => matches!(answer, Answer::Taken(_)),
            Awaiting::Mark(_) => matches!(answer, Answer::Choice(_)),
            Awaiting::Punctuation => matches!(answer, Answer::Choice(_)),
            Awaiting::Slot => matches!(answer, Answer::Choice(_)),
            Awaiting::Highlighted(_) => matches!(answer, Answer::Choice(_)),
            Awaiting::Text(_) => matches!(answer, Answer::Text(_)),
        }
    }
}

/// A key that waits for an answer.
#[derive(Debug, PartialEq, Eq)]
pub struct Pending {
    /// The key.
    pub event: KeyEvent,
    /// The text committed so far, which goes ahead of what the key yields.
    pub before: Option<String>,
    /// The open question.
    pub awaiting: Awaiting,
}

/// A [`Pending`] with its text as a sequence of characters.
pub struct PendingView {
    pub event: KeyEvent,
    pub before: Option<Seq<char>>,
    pub awaiting: Awaiting,
}

impl View for Pending {
    type V = PendingView;

    open spec fn view(&self) -> PendingView {
        PendingView {
            event: self.event,
            before: text::text_view(self.before),
            awaiting: self.awaiting,
        }
    }
}

/// How a turn ends.
#[derive(Debug, PartialEq, Eq)]
pub enum Outcome {
    /// The key is settled.
    Done(Effect),
    /// The host is to answer this question.
    Ask(Ask, Pending),
}

/// One turn of the dispatcher: operations to carry out in order, then an outcome.
#[derive(Debug, PartialEq, Eq)]
pub struct Move {
    /// The operations, first to last.
    pub ops: Vec<Op>,
    /// What follows them.
    pub outcome: Outcome,
}

/// An [`Outcome`] with its text as a sequence of characters.
pub enum OutcomeView {
    Done(EffectView),
    Ask(AskView, PendingView),
}

/// A [`Move`] with its text as a sequence of characters.
pub struct MoveView {
    pub ops: Seq<Op>,
    pub outcome: OutcomeView,
}

impl View for Outcome {
    type V = OutcomeView;

    open spec fn view(&self) -> OutcomeView {
        match *self {
            Outcome::Done(effect) => OutcomeView::Done(effect@),
            Outcome::Ask(ask, pending) => OutcomeView::Ask(ask@, pending@),
        }
    }
}

impl View for Move {
    type V = MoveView;

    open spec fn view(&self) -> MoveView {
        MoveView { ops: self.ops@, outcome: self.outcome@ }
    }
}

impl MoveView {
    /// Carry out `ops`; the key is settled with `effect`, behind the text committed `before`.
    pub open spec fn settle(
        ops: Seq<Op>,
        event: KeyEvent,
        before: Option<Seq<char>>,
        effect: EffectView,
    ) -> MoveView {
        MoveView { ops, outcome: OutcomeView::Done(effect.with_prefix(before, event.typed())) }
    }

    /// Carry out `ops`, then ask.
    pub open spec fn question(
        ops: Seq<Op>,
        event: KeyEvent,
        before: Option<Seq<char>>,
        ask: AskView,
        awaiting: Awaiting,
    ) -> MoveView {
        MoveView { ops, outcome: OutcomeView::Ask(ask, PendingView { event, before, awaiting }) }
    }

    /// The character goes into the composition; the key is settled.
    pub open spec fn buffer(c: char, event: KeyEvent, before: Option<Seq<char>>) -> MoveView {
        MoveView::settle(seq![Op::Push(c)], event, before, EffectView::Changed(None))
    }
}

impl Move {
    /// Settles the key with `effect`, behind the text committed `before`.
    pub fn settle(
        ops: Vec<Op>,
        event: &KeyEvent,
        before: Option<String>,
        effect: Effect,
    ) -> (m: Move)
        ensures
            m@ == MoveView::settle(ops@, *event, text::text_view(before), effect@),
    {
        let effect = crate::effect::with_prefix(before, effect, event.typed_character());
        Move { ops, outcome: Outcome::Done(effect) }
    }

    /// Asks, and keeps the key waiting for the answer.
    pub fn question(
        ops: Vec<Op>,
        event: &KeyEvent,
        before: Option<String>,
        ask: Ask,
        awaiting: Awaiting,
    ) -> (m: Move)
        ensures
            m@ == MoveView::question(ops@, *event, text::text_view(before), ask@, awaiting),
    {
        Move { ops, outcome: Outcome::Ask(ask, Pending { event: *event, before, awaiting }) }
    }

    /// Puts the character into the composition and settles the key.
    pub fn buffer(c: char, event: &KeyEvent, before: Option<String>) -> (m: Move)
        ensures
            m@ == MoveView::buffer(c, *event, text::text_view(before)),
    {
        Move::settle(single(Op::Push(c)), event, before, Effect::Changed(None))
    }
}

/// The list that holds `op` alone.
pub fn single(op: Op) -> (ops: Vec<Op>)
    ensures
        ops@ == seq![op],
{
    let mut ops = Vec::new();
    ops.push(op);
    assert(ops@ =~= seq![op]);
    ops
}

/// Each question has one kind of answer, and whoever waits for an answer waits for that kind.
pub proof fn law_each_question_has_its_answer(
    answer: AnswerView,
    digit: usize,
    modifiers: KeyModifiers,
    c: char,
    sentence: Seq<char>,
    after: After,
    question: bool,
)
    ensures
        AskView::Observe.takes(answer) <==> answer is Observed,
        AskView::DigitShortcut(digit, modifiers).takes(answer) <==> answer is Claimed,
        AskView::PushAuxCode(c).takes(answer) <==> answer is Taken,
        AskView::Punctuate(c).takes(answer) <==> answer is Choice,
        AskView::CommitIndex(digit).takes(answer) <==> answer is Choice,
        AskView::TakeRaw.takes(answer) <==> answer is Text,
        AskView::AcceptPrediction(sentence).takes(answer) <==> answer is Text,
        Awaiting::Restart.fits(answer) <==> answer is Observed,
        Awaiting::Mode(question).fits(answer) <==> answer is Observed,
        Awaiting::Shortcut.fits(answer) <==> answer is Claimed,
        Awaiting::AuxCode(c).fits(answer) <==> answer is Taken,
        Awaiting::Mark(after).fits(answer) <==> answer is Choice,
        Awaiting::Punctuation.fits(answer) <==> answer is Choice,
        Awaiting::Slot.fits(answer) <==> answer is Choice,
        Awaiting::Highlighted(after).fits(answer) <==> answer is Choice,
        Awaiting::Text(after).fits(answer) <==> answer is Text,
{
}

/// Questions and answers are seen as what they are, their texts character by character.
pub proof fn law_the_conversation_is_seen_as_it_is(
    index: usize,
    modifiers: KeyModifiers,
    c: char,
    text: String,
    effect: Effect,
    taken: bool,
)
    ensures
        Ask::Observe@ == AskView::Observe,
        Ask::DigitShortcut(index, modifiers)@ == AskView::DigitShortcut(index, modifiers),
        Ask::PushAuxCode(c)@ == AskView::PushAuxCode(c),
        Ask::TakeRaw@ == AskView::TakeRaw,
        Ask::Punctuate(c)@ == AskView::Punctuate(c),
        Ask::CommitIndex(index)@ == AskView::CommitIndex(index),
        Ask::AcceptPrediction(text)@ == AskView::AcceptPrediction(text@),
        Answer::Observed@ == AnswerView::Observed,
        Answer::Claimed(Some(effect))@ == AnswerView::Claimed(Some(effect@)),
        Answer::Claimed(None)@ == AnswerView::Claimed(None),
        Answer::Taken(taken)@ == AnswerView::Taken(taken),
        Answer::Choice(Some(text))@ == AnswerView::Choice(Some(text@)),
        Answer::Choice(None)@ == AnswerView::Choice(None),
        Answer::Text(text)@ == AnswerView::Text(text@),
{
}

/// A turn is seen as it is: its operations in order, the effect or the question that ends it, and
/// the key that waits with the text committed so far.
pub proof fn law_turns_are_seen_as_they_are(m: Move)
    ensures
        m@.ops == m.ops@,
        m.outcome matches Outcome::Done(effect) ==> m@.outcome == OutcomeView::Done(effect@),
        m.outcome matches Outcome::Ask(ask, pending) ==> {
            &&& m@.outcome matches OutcomeView::Ask(a, p)
            &&& a == ask@
            &&& p.event == pending.event
            &&& p.awaiting == pending.awaiting
            &&& p.before is None <==> pending.before is None
            &&& pending.before matches Some(text) ==> p.before == Some(text@)
        },
{
}

/// A settled key has its effect with the text committed so far ahead of it, a question keeps that
/// text and the key waiting, and both carry out just the operations given. A character that joins
/// is the one operation and commits nothing more.
pub proof fn law_moves_by_kind(
    ops: Seq<Op>,
    event: KeyEvent,
    b: Seq<char>,
    text: Seq<char>,
    ask: AskView,
    awaiting: Awaiting,
    c: char,
)
    ensures
        MoveView::settle(ops, event, Some(b), EffectView::Changed(Some(text))) == (MoveView {
            ops,
            outcome: OutcomeView::Done(EffectView::Changed(Some(b + text))),
        }),
        MoveView::settle(ops, event, None, EffectView::Changed(Some(text))) == (MoveView {
            ops,
            outcome: OutcomeView::Done(EffectView::Changed(Some(text))),
        }),
        MoveView::question(ops, event, Some(b), ask, awaiting) == (MoveView {
            ops,
            outcome: OutcomeView::Ask(ask, PendingView { event, before: Some(b), awaiting }),
        }),
        MoveView::buffer(c, event, Some(b)) == (MoveView {
            ops: seq![Op::Push(c)],
            outcome: OutcomeView::Done(EffectView::Changed(Some(b))),
        }),
        MoveView::buffer(c, event, None) == (MoveView {
            ops: seq![Op::Push(c)],
            outcome: OutcomeView::Done(EffectView::Changed(None)),
        }),
{
    assert(b + Seq::<char>::empty() =~= b);
}

} // verus!
