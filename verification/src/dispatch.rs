//! What a key does to the composition, the candidates and the document.
//!
//! [`Router::apply_key`] begins a key and [`Router::resume`] carries it on with an answer of the
//! host. Between the two the host owns the engine; the router sees it as a
//! [`Snapshot`](crate::router::Snapshot).
//!
//! Each decision is stated first as a `.._move` function: the operations and the outcome that the
//! key has in the situation at hand, the first rule that applies deciding.

use crate::codes;
use crate::effect::{Effect, EffectView};
use crate::key::KeyEvent;
use crate::request::{
    single, After, Answer, AnswerView, Ask, AskView, Awaiting, Move, MoveView, Op, Pending,
    PendingView,
};
use crate::router::{Router, Snapshot, QUESTION_PREFIX};
use crate::text;
use vstd::prelude::*;

verus! {

// Committing a text and going on.
impl Router {
    /// The key types a character outside a composition. It is converted to full width where the
    /// mode at hand wants that, except on the keypad; else the application gets it and the engine
    /// is told.
    pub open spec fn punctuation_move(
        self,
        ops: Seq<Op>,
        event: KeyEvent,
        before: Option<Seq<char>>,
    ) -> MoveView {
        if !event.keypad && self.is_full_width(event.modifiers.types_english()) {
            MoveView::question(
                ops,
                event,
                before,
                AskView::Punctuate(event.typed()),
                Awaiting::Punctuation,
            )
        } else {
            MoveView::settle(
                ops.push(Op::NotePassthrough(event.typed())),
                event,
                before,
                EffectView::Passthrough,
            )
        }
    }

    /// The key types English without candidates: a letter is committed as it is, anything else is
    /// punctuation.
    pub open spec fn plain_english_move(
        self,
        ops: Seq<Op>,
        event: KeyEvent,
        before: Option<Seq<char>>,
    ) -> MoveView {
        if text::letter(event.typed()) {
            MoveView::settle(
                ops.push(Op::NotePassthrough(event.typed())),
                event,
                before,
                EffectView::Changed(Some(seq![event.typed()])),
            )
        } else {
            self.punctuation_move(ops, event, before)
        }
    }

    /// The engine's English mode is set for the key, and the engine looked at again. A question is
    /// never English.
    pub open spec fn mode_switch_move(
        self,
        ops: Seq<Op>,
        event: KeyEvent,
        before: Option<Seq<char>>,
        question: bool,
    ) -> MoveView {
        MoveView::question(
            ops.push(Op::SetEnglishMode(self.offers_english(event) && !question)),
            event,
            before,
            AskView::Observe,
            Awaiting::Mode(question),
        )
    }

    /// A text has been handed over: it goes behind what was committed before, and the key goes on.
    pub open spec fn after_move(
        self,
        ops: Seq<Op>,
        event: KeyEvent,
        before: Option<Seq<char>>,
        text: Seq<char>,
        after: After,
    ) -> MoveView {
        let committed = Some(text::joined(before, text));
        match after {
            After::Finish => MoveView::settle(
                ops,
                event,
                before,
                EffectView::Changed(Some(text)),
            ),
            After::Punctuate => self.punctuation_move(ops, event, committed),
            After::Pass => MoveView::settle(
                ops.push(Op::NotePassthrough(event.typed())),
                event,
                committed,
                EffectView::Passthrough,
            ),
            After::PlainEnglish => self.plain_english_move(ops, event, committed),
            After::Mode(question) => self.mode_switch_move(ops, event, committed, question),
            After::Restart => MoveView::question(
                ops,
                event,
                committed,
                AskView::Observe,
                Awaiting::Restart,
            ),
        }
    }

    /// The highlighted candidate is committed.
    pub open spec fn highlighted_move(
        self,
        event: KeyEvent,
        before: Option<Seq<char>>,
        after: After,
    ) -> MoveView {
        MoveView::question(
            seq![],
            event,
            before,
            AskView::CommitIndex(self.engine.highlight),
            Awaiting::Highlighted(after),
        )
    }

    /// The composition is committed as typed.
    pub open spec fn raw_move(
        event: KeyEvent,
        before: Option<Seq<char>>,
        after: After,
    ) -> MoveView {
        MoveView::question(seq![], event, before, AskView::TakeRaw, Awaiting::Text(after))
    }

    /// The lone question mark leaves the composition and becomes text: full-width where the mode
    /// at hand wants that, else as it is, and the engine is told.
    pub open spec fn restore_move(
        self,
        event: KeyEvent,
        before: Option<Seq<char>>,
        after: After,
    ) -> MoveView {
        if self.is_full_width(event.modifiers.types_english()) {
            MoveView::question(
                seq![Op::Clear],
                event,
                before,
                AskView::Punctuate(QUESTION_PREFIX),
                Awaiting::Mark(after),
            )
        } else {
            self.after_move(
                seq![Op::Clear, Op::NotePassthrough(QUESTION_PREFIX)],
                event,
                before,
                seq![QUESTION_PREFIX],
                after,
            )
        }
    }

    /// Treats the key as a character typed outside a composition.
    pub fn apply_punctuation(
        &self,
        ops: Vec<Op>,
        event: &KeyEvent,
        before: Option<String>,
    ) -> (m: Move)
        ensures
            m@ == self.punctuation_move(ops@, *event, text::text_view(before)),
    {
        let c = event.typed_character();
        if !event.keypad && self.full_width_for(event.modifiers.english()) {
            Move::question(ops, event, before, Ask::Punctuate(c), Awaiting::Punctuation)
        } else {
            let mut ops = ops;
            ops.push(Op::NotePassthrough(c));
            Move::settle(ops, event, before, Effect::Passthrough)
        }
    }

    /// Types the key as English without candidates.
    pub fn apply_plain_english(
        &self,
        ops: Vec<Op>,
        event: &KeyEvent,
        before: Option<String>,
    ) -> (m: Move)
        ensures
            m@ == self.plain_english_move(ops@, *event, text::text_view(before)),
    {
        let c = event.typed_character();
        if text::is_letter(c) {
            let mut ops = ops;
            ops.push(Op::NotePassthrough(c));
            Move::settle(ops, event, before, Effect::Changed(Some(text::char_string(c))))
        } else {
            self.apply_punctuation(ops, event, before)
        }
    }

    /// Tells whether the key gets English candidates.
    pub fn english_candidates(&self, event: &KeyEvent) -> (r: bool)
        ensures
            r == self.offers_english(*event),
    {
        event.modifiers.english_mode && !event.modifiers.caps && self.settings.english_candidates
    }

    /// Sets the engine's English mode for the key and looks at the engine again.
    fn switch_mode(
        &self,
        ops: Vec<Op>,
        event: &KeyEvent,
        before: Option<String>,
        question: bool,
    ) -> (m: Move)
        ensures
            m@ == self.mode_switch_move(ops@, *event, text::text_view(before), question),
    {
        let mut ops = ops;
        ops.push(Op::SetEnglishMode(self.english_candidates(event) && !question));
        Move::question(ops, event, before, Ask::Observe, Awaiting::Mode(question))
    }

    /// Puts a text that has been handed over behind what was committed before, and goes on.
    pub fn go_on(
        &self,
        ops: Vec<Op>,
        event: &KeyEvent,
        before: Option<String>,
        text: String,
        after: After,
    ) -> (m: Move)
        ensures
            m@ == self.after_move(ops@, *event, text::text_view(before), text@, after),
    {
        match after {
            After::Finish => Move::settle(ops, event, before, Effect::Changed(Some(text))),
            After::Punctuate => self.apply_punctuation(
                ops,
                event,
                Some(text::join(before, text)),
            ),
            After::Pass => {
                let mut ops = ops;
                ops.push(Op::NotePassthrough(event.typed_character()));
                Move::settle(ops, event, Some(text::join(before, text)), Effect::Passthrough)
            },
            After::PlainEnglish => self.apply_plain_english(
                ops,
                event,
                Some(text::join(before, text)),
            ),
            After::Mode(question) => self.switch_mode(
                ops,
                event,
                Some(text::join(before, text)),
                question,
            ),
            After::Restart => Move::question(
                ops,
                event,
                Some(text::join(before, text)),
                Ask::Observe,
                Awaiting::Restart,
            ),
        }
    }

    /// Commits the highlighted candidate. Where there is none, the answer is followed by the
    /// composition as typed: see [`Router::resume`].
    pub fn commit_highlighted(
        &self,
        event: &KeyEvent,
        before: Option<String>,
        after: After,
    ) -> (m: Move)
        ensures
            m@ == self.highlighted_move(*event, text::text_view(before), after),
    {
        Move::question(
            Vec::new(),
            event,
            before,
            Ask::CommitIndex(self.engine.highlight),
            Awaiting::Highlighted(after),
        )
    }

    /// Commits the composition as typed.
    pub fn commit_raw(event: &KeyEvent, before: Option<String>, after: After) -> (m: Move)
        ensures
            m@ == Router::raw_move(*event, text::text_view(before), after),
    {
        Move::question(Vec::new(), event, before, Ask::TakeRaw, Awaiting::Text(after))
    }

    /// Turns the lone question mark into text.
    pub fn restore_bare_question(
        &self,
        event: &KeyEvent,
        before: Option<String>,
        after: After,
    ) -> (m: Move)
        ensures
            m@ == self.restore_move(*event, text::text_view(before), after),
    {
        let mut ops = single(Op::Clear);
        if self.full_width_for(event.modifiers.english()) {
            Move::question(
                ops,
                event,
                before,
                Ask::Punctuate(QUESTION_PREFIX),
                Awaiting::Mark(after),
            )
        } else {
            ops.push(Op::NotePassthrough(QUESTION_PREFIX));
            assert(ops@ =~= seq![Op::Clear, Op::NotePassthrough(QUESTION_PREFIX)]);
            self.go_on(ops, event, before, text::char_string(QUESTION_PREFIX), after)
        }
    }
}

// Typing text.
impl Router {
    /// English mode with `candidates` or without. Without them the composition, if there is one, is
    /// committed as typed and the key typed plainly. With them a digit picks the candidate in its
    /// slot; letters, and what else may stand in an identifier, join the composition; page keys
    /// turn pages; any other key commits the composition, the space as the highlighted candidate,
    /// and is then punctuation.
    pub open spec fn english_move(
        self,
        event: KeyEvent,
        before: Option<Seq<char>>,
        candidates: bool,
    ) -> MoveView {
        let c = event.typed();
        if !candidates {
            if self.is_composing() {
                Router::raw_move(event, before, After::PlainEnglish)
            } else {
                self.plain_english_move(seq![], event, before)
            }
        } else if !self.is_composing() {
            if text::letter(c) {
                MoveView::buffer(c, event, before)
            } else {
                self.punctuation_move(seq![], event, before)
            }
        } else if event.digit is Some && self.slot(event.digit->0 as int) is Some {
            self.pick_move(event, before, event.digit->0)
        } else if text::letter(c) || text::digit_character(c) || c == '_' || c == '\'' || c == '-' {
            MoveView::buffer(c, event, before)
        } else if event.page_step is Some {
            MoveView::settle(
                seq![Op::Page(event.page_step->0)],
                event,
                before,
                EffectView::Navigated,
            )
        } else if c == ' ' {
            self.highlighted_move(event, before, After::Punctuate)
        } else {
            Router::raw_move(event, before, After::Punctuate)
        }
    }

    /// The candidate in the slot of the digit is committed.
    pub open spec fn pick_move(
        self,
        event: KeyEvent,
        before: Option<Seq<char>>,
        digit: usize,
    ) -> MoveView {
        MoveView::question(
            seq![],
            event,
            before,
            AskView::CommitIndex(self.slot(digit as int)->0 as usize),
            Awaiting::Slot,
        )
    }

    /// A key of the keyboard that types a Zhuyin syllable beside the letters.
    pub open spec fn zhuyin_key(self, c: char) -> bool {
        self.engine.zhuyin_mode && (text::digit_character(c) || c == '-' || c == ';' || c == ','
            || c == '.' || c == '/')
    }

    /// Chinese mode. A small letter goes to the auxiliary code if that takes it, else into the
    /// composition; Zhuyin keys, and capitals where they compose, go into the composition, a
    /// capital ending the auxiliary code. Any other capital commits the composition as typed and is
    /// let through. The rest is punctuation outside a composition and goes by
    /// [`Router::printable_move`] inside one.
    pub open spec fn chinese_move(
        self,
        c: char,
        event: KeyEvent,
        before: Option<Seq<char>>,
    ) -> MoveView {
        if text::lowercase_letter(c) {
            MoveView::question(
                seq![],
                event,
                before,
                AskView::PushAuxCode(c),
                Awaiting::AuxCode(c),
            )
        } else if text::uppercase_letter(c) {
            if self.settings.shift_letter_compose {
                if self.engine.in_aux {
                    MoveView::settle(
                        seq![Op::ClearAux, Op::Push(c)],
                        event,
                        before,
                        EffectView::Changed(None),
                    )
                } else {
                    MoveView::buffer(c, event, before)
                }
            } else if self.is_composing() {
                Router::raw_move(event, before, After::Pass)
            } else {
                MoveView::settle(
                    seq![Op::NotePassthrough(event.typed())],
                    event,
                    before,
                    EffectView::Passthrough,
                )
            }
        } else if self.zhuyin_key(c) {
            MoveView::buffer(c, event, before)
        } else if self.is_composing() {
            self.printable_move(c, event, before)
        } else {
            self.punctuation_move(seq![], event, before)
        }
    }

    /// A printable key inside a composition.
    pub open spec fn printable_move(
        self,
        c: char,
        event: KeyEvent,
        before: Option<Seq<char>>,
    ) -> MoveView {
        let swallow = MoveView::settle(seq![], event, before, EffectView::Changed(None));
        if self.special_composition_takes(c) {
            MoveView::buffer(c, event, before)
        } else if self.engine.raw_mode && c == ' ' {
            self.highlighted_move(event, before, After::Pass)
        } else if self.engine.raw_mode && text::graphic(c) {
            MoveView::buffer(c, event, before)
        } else if self.engine.aux_trigger {
            MoveView::settle(seq![Op::EnterAux], event, before, EffectView::Changed(None))
        } else if self.aux_swallows(c) {
            swallow
        } else if self.picking_digit(event) is Some {
            if self.slot(self.picking_digit(event)->0 as int) is Some {
                self.pick_move(event, before, self.picking_digit(event)->0)
            } else if self.engine.question_mode {
                swallow
            } else {
                MoveView::buffer(c, event, before)
            }
        } else if event.keypad {
            MoveView::buffer(c, event, before)
        } else if event.page_step is Some {
            MoveView::settle(
                seq![Op::Page(event.page_step->0)],
                event,
                before,
                EffectView::Navigated,
            )
        } else if c == ' ' && self.engine.zhuyin_needs_tone {
            MoveView::buffer(c, event, before)
        } else if c == ' ' {
            self.highlighted_move(event, before, After::Finish)
        } else if self.symbol_commits(c) {
            self.highlighted_move(event, before, After::Punctuate)
        } else {
            MoveView::buffer(c, event, before)
        }
    }

    /// A symbol commits the highlighted candidate before it is typed, where it would else join the
    /// composition: always while an auxiliary code is typed; else the apostrophe never does, any
    /// other does in an expression, in a question, and behind pinyin whose last syllable may be
    /// finished.
    pub open spec fn symbol_commits(self, c: char) -> bool {
        ||| self.engine.in_aux
        ||| c != '\'' && (self.engine.expression_mode || self.engine.question_mode || (
        !self.is_mixed() && self.is_trailing_syllable_complete()))
    }

    /// Types the key in English mode.
    pub fn apply_english(
        &self,
        event: &KeyEvent,
        before: Option<String>,
        candidates: bool,
    ) -> (m: Move)
        requires
            self.well_formed(),
            event.well_formed(),
        ensures
            m@ == self.english_move(*event, text::text_view(before), candidates),
    {
        let c = event.typed_character();
        let composing = self.composing();
        if !candidates {
            return if composing {
                Router::commit_raw(event, before, After::PlainEnglish)
            } else {
                self.apply_plain_english(Vec::new(), event, before)
            };
        }
        if composing {
            if let Some(digit) = event.digit {
                if let Some(index) = self.slot_index(digit) {
                    return Move::question(
                        Vec::new(),
                        event,
                        before,
                        Ask::CommitIndex(index),
                        Awaiting::Slot,
                    );
                }
            }
        }
        if text::is_letter(c) || (composing && (text::is_digit_character(c) || c == '_' || c == '\''
            || c == '-')) {
            return Move::buffer(c, event, before);
        }
        if !composing {
            return self.apply_punctuation(Vec::new(), event, before);
        }
        if let Some(step) = event.page_step {
            return Move::settle(single(Op::Page(step)), event, before, Effect::Navigated);
        }
        if c == ' ' {
            self.commit_highlighted(event, before, After::Punctuate)
        } else {
            Router::commit_raw(event, before, After::Punctuate)
        }
    }

    /// Types the key in Chinese mode, as the character `c`: its own, or that in small.
    pub fn apply_chinese(&self, c: char, event: &KeyEvent, before: Option<String>) -> (m: Move)
        requires
            self.well_formed(),
            event.well_formed(),
            c == event.typed() || c == text::lowered(event.typed()),
        ensures
            m@ == self.chinese_move(c, *event, text::text_view(before)),
    {
        let zhuyin_key = self.engine.zhuyin_mode && (text::is_digit_character(c) || c == '-' || c
            == ';' || c == ',' || c == '.' || c == '/');
        if text::is_lowercase_letter(c) {
            return Move::question(
                Vec::new(),
                event,
                before,
                Ask::PushAuxCode(c),
                Awaiting::AuxCode(c),
            );
        }
        if zhuyin_key || (text::is_uppercase_letter(c) && self.settings.shift_letter_compose) {
            if text::is_uppercase_letter(c) && self.engine.in_aux {
                let mut ops = single(Op::ClearAux);
                ops.push(Op::Push(c));
                assert(ops@ =~= seq![Op::ClearAux, Op::Push(c)]);
                return Move::settle(ops, event, before, Effect::Changed(None));
            }
            return Move::buffer(c, event, before);
        }
        if text::is_uppercase_letter(c) {
            return if self.composing() {
                Router::commit_raw(event, before, After::Pass)
            } else {
                let note = single(Op::NotePassthrough(event.typed_character()));
                Move::settle(note, event, before, Effect::Passthrough)
            };
        }
        if !self.composing() {
            return self.apply_punctuation(Vec::new(), event, before);
        }
        self.apply_printable(c, event, before)
    }

    /// Types a printable key inside a composition, as its character `c`.
    pub fn apply_printable(&self, c: char, event: &KeyEvent, before: Option<String>) -> (m: Move)
        requires
            self.well_formed(),
            event.well_formed(),
            c == event.typed(),
        ensures
            m@ == self.printable_move(c, *event, text::text_view(before)),
    {
        let expression = self.engine.expression_mode;
        if (expression && self.engine.expression_char) || (self.engine.unicode_entry && (
        text::is_digit_character(c) || c == '+')) || (c == ';' && self.engine.takes_semicolon) {
            return Move::buffer(c, event, before);
        }
        if self.engine.raw_mode {
            if c == ' ' {
                return self.commit_highlighted(event, before, After::Pass);
            }
            if text::is_graphic(c) {
                return Move::buffer(c, event, before);
            }
        }
        if self.engine.aux_trigger {
            return Move::settle(single(Op::EnterAux), event, before, Effect::Changed(None));
        }
        if self.engine.in_aux && c == self.settings.aux_code_key {
            return Move::settle(Vec::new(), event, before, Effect::Changed(None));
        }
        if self.engine.in_aux && !self.engine.aux_code.as_str().is_empty()
            && self.engine.candidate_count == 0 {
            return Move::settle(Vec::new(), event, before, Effect::Changed(None));
        }
        if let Some(digit) = event.digit {
            if !event.keypad && (!self.engine.zhuyin_mode || self.engine.navigated) {
                if let Some(index) = self.slot_index(digit) {
                    return Move::question(
                        Vec::new(),
                        event,
                        before,
                        Ask::CommitIndex(index),
                        Awaiting::Slot,
                    );
                }
                if self.engine.question_mode {
                    return Move::settle(Vec::new(), event, before, Effect::Changed(None));
                }
                return Move::buffer(c, event, before);
            }
        }
        if event.keypad {
            return Move::buffer(c, event, before);
        }
        if let Some(step) = event.page_step {
            return Move::settle(single(Op::Page(step)), event, before, Effect::Navigated);
        }
        if c == ' ' {
            if self.engine.zhuyin_needs_tone {
                return Move::buffer(c, event, before);
            }
            return self.commit_highlighted(event, before, After::Finish);
        }
        if (c != '\'' && (expression || self.engine.question_mode)) || self.engine.in_aux {
            return self.commit_highlighted(event, before, After::Punctuate);
        }
        if c != '\'' && (self.mixed_buffer() || !self.trailing_syllable_complete()) {
            return Move::buffer(c, event, before);
        }
        if c != '\'' {
            return self.commit_highlighted(event, before, After::Punctuate);
        }
        Move::buffer(c, event, before)
    }
}

// Keys as they come in.
impl Router {
    /// A key that types no character. Outside a composition the application gets it, and the
    /// engine is told of a line break. The lone question mark becomes text on any key but the two
    /// that delete it.
    pub open spec fn function_key_move(
        self,
        event: KeyEvent,
        before: Option<Seq<char>>,
    ) -> MoveView {
        if !self.is_composing() {
            MoveView::settle(
                if event.virtual_key == codes::RETURN {
                    seq![Op::NotePassthrough('\n')]
                } else {
                    seq![]
                },
                event,
                before,
                EffectView::Passthrough,
            )
        } else if self.engine.bare_question && event.virtual_key != codes::BACK
            && event.virtual_key != codes::ESCAPE {
            self.restore_move(event, before, After::Finish)
        } else if event.virtual_key == codes::RETURN {
            if self.engine.zhuyin_mode && !event.modifiers.shift {
                self.highlighted_move(event, before, After::Finish)
            } else {
                Router::raw_move(event, before, After::Finish)
            }
        } else if event.virtual_key == codes::TAB && !event.modifiers.shift {
            self.tab_move(event, before)
        } else {
            match self.editing_op(event) {
                Some((op, effect)) => MoveView::settle(seq![op], event, before, effect),
                None => MoveView::settle(seq![], event, before, EffectView::Passthrough),
            }
        }
    }

    /// Tab without Shift: English mode commits the highlighted candidate, Chinese mode accepts the
    /// sentence on offer or, without one, turns to the next page.
    pub open spec fn tab_move(self, event: KeyEvent, before: Option<Seq<char>>) -> MoveView {
        if self.engine.english_mode {
            self.highlighted_move(event, before, After::Finish)
        } else {
            match self.sentence {
                Some(sentence) => MoveView::question(
                    seq![],
                    event,
                    before,
                    AskView::AcceptPrediction(sentence@),
                    Awaiting::Text(After::Finish),
                ),
                None => MoveView::settle(
                    seq![Op::Page(1)],
                    event,
                    before,
                    EffectView::Navigated,
                ),
            }
        }
    }

    /// The operation of a function key that does one thing to an open composition.
    pub open spec fn editing_op(self, event: KeyEvent) -> Option<(Op, EffectView)> {
        let key = event.virtual_key;
        let changed = EffectView::Changed(None);
        if key == codes::BACK {
            Some((Op::Backspace, changed))
        } else if key == codes::ESCAPE {
            Some((if self.engine.in_aux { Op::ClearAux } else { Op::Clear }, changed))
        } else if key == codes::TAB || key == codes::PRIOR {
            Some((Op::Page((-1) as i32), EffectView::Navigated))
        } else if key == codes::NEXT {
            Some((Op::Page(1), EffectView::Navigated))
        } else if key == codes::DOWN {
            Some((Op::MoveHighlight(1), EffectView::Navigated))
        } else if key == codes::UP {
            Some((Op::MoveHighlight((-1) as i32), EffectView::Navigated))
        } else if key == codes::LEFT {
            Some((Op::CursorLeft, changed))
        } else if key == codes::RIGHT {
            Some((Op::CursorRight, changed))
        } else if key == codes::HOME {
            Some((Op::CursorHome, changed))
        } else if key == codes::END {
            Some((Op::CursorEnd, changed))
        } else {
            None
        }
    }

    /// The key takes the sentence on offer.
    pub open spec fn takes_sentence(self, event: KeyEvent) -> bool {
        &&& self.is_composing()
        &&& !self.engine.bare_question
        &&& event.virtual_key == codes::TAB
        &&& !event.modifiers.shift
        &&& !self.engine.english_mode
    }

    /// The sentence still on offer after a key that no shortcut claims.
    pub open spec fn sentence_after_unclaimed(self, event: KeyEvent) -> Option<String> {
        if !event.modifiers.command() && event.printable() is None && self.takes_sentence(event) {
            None
        } else {
            self.sentence
        }
    }

    /// The sentence still on offer after the first turn of a key.
    pub open spec fn sentence_after_key(self, event: KeyEvent) -> Option<String> {
        if self.is_composing() && !self.engine.expression_mode && event.digit_key is Some {
            self.sentence
        } else {
            self.sentence_after_unclaimed(event)
        }
    }

    /// The sentence still on offer after an answer.
    pub open spec fn sentence_after_answer(
        self,
        pending: PendingView,
        answer: AnswerView,
    ) -> Option<String> {
        match (pending.awaiting, answer) {
            (Awaiting::Shortcut, AnswerView::Claimed(None)) => self.sentence_after_unclaimed(
                pending.event,
            ),
            (Awaiting::Restart, _) => self.sentence_after_key(pending.event),
            _ => self.sentence,
        }
    }

    /// A key that types the printable character `c`. A console gets every character as it is
    /// typed. An empty composition may open a question or a letter mode. A lone question mark
    /// becomes text on any key but a letter; the space means just that, any other key is then
    /// dispatched afresh. English that was being completed is committed as typed once its
    /// candidates are gone. What remains is typed in the mode that the key calls for.
    pub open spec fn character_move(
        self,
        c: char,
        event: KeyEvent,
        before: Option<Seq<char>>,
    ) -> MoveView {
        let question = self.in_question();
        if self.is_console_host() {
            MoveView::settle(
                seq![Op::NotePassthrough(c)],
                event,
                before,
                EffectView::Changed(Some(seq![c])),
            )
        } else if self.opens_mode(c, event) {
            MoveView::settle(
                seq![Op::SetEnglishMode(false), Op::Push(c)],
                event,
                before,
                EffectView::Changed(None),
            )
        } else if question && self.engine.bare_question && !text::lowercase_letter(
            Router::question_letter(c, event, question),
        ) {
            self.restore_move(event, before, if c == ' ' { After::Finish } else { After::Restart })
        } else if self.is_composing() && !self.offers_english(event) && self.engine.english_mode {
            Router::raw_move(event, before, After::Mode(question))
        } else {
            self.mode_switch_move(seq![], event, before, question)
        }
    }

    /// The character opens a question or a letter mode.
    pub open spec fn opens_mode(self, c: char, event: KeyEvent) -> bool {
        !self.is_composing() && ((c == QUESTION_PREFIX && self.engine.takes_question_mark) || (
        !event.modifiers.types_english() && self.engine.takes_mode_letter))
    }

    /// A key that no shortcut claims: with a command key held, the application gets it.
    pub open spec fn unclaimed_move(self, event: KeyEvent, before: Option<Seq<char>>) -> MoveView {
        if event.modifiers.command() {
            MoveView::settle(seq![], event, before, EffectView::Passthrough)
        } else {
            match event.printable() {
                Some(c) => self.character_move(c, event, before),
                None => self.function_key_move(event, before),
            }
        }
    }

    /// A key as it comes in: inside a composition that is no expression, a digit key may be a
    /// shortcut.
    pub open spec fn key_move(self, event: KeyEvent, before: Option<Seq<char>>) -> MoveView {
        if self.is_composing() && !self.engine.expression_mode && event.digit_key is Some {
            MoveView::question(
                seq![],
                event,
                before,
                AskView::DigitShortcut(event.digit_key->0, event.modifiers),
                Awaiting::Shortcut,
            )
        } else {
            self.unclaimed_move(event, before)
        }
    }

    /// The key in the mode that was set for it.
    pub open spec fn mode_move(
        self,
        event: KeyEvent,
        before: Option<Seq<char>>,
        question: bool,
    ) -> MoveView {
        if event.modifiers.types_english() && !question {
            self.english_move(event, before, self.offers_english(event))
        } else {
            self.chinese_move(
                Router::question_letter(event.typed(), event, question),
                event,
                before,
            )
        }
    }

    /// The key goes on with the answer to its question.
    pub open spec fn resume_move(self, pending: PendingView, answer: AnswerView) -> MoveView {
        let event = pending.event;
        let before = pending.before;
        match (pending.awaiting, answer) {
            (Awaiting::Shortcut, AnswerView::Claimed(Some(effect))) => MoveView::settle(
                seq![],
                event,
                before,
                effect,
            ),
            (Awaiting::Shortcut, _) => self.unclaimed_move(event, before),
            (Awaiting::Restart, _) => self.key_move(event, before),
            (Awaiting::Mode(question), _) => self.mode_move(event, before, question),
            (Awaiting::AuxCode(_), AnswerView::Taken(true)) => MoveView::settle(
                seq![],
                event,
                before,
                EffectView::Changed(None),
            ),
            (Awaiting::AuxCode(c), _) => MoveView::buffer(c, event, before),
            (Awaiting::Mark(after), AnswerView::Choice(Some(mark))) => self.after_move(
                seq![],
                event,
                before,
                mark,
                after,
            ),
            (Awaiting::Mark(after), _) => self.after_move(
                seq![Op::NotePassthrough(QUESTION_PREFIX)],
                event,
                before,
                seq![QUESTION_PREFIX],
                after,
            ),
            (Awaiting::Punctuation, AnswerView::Choice(Some(mark))) => MoveView::settle(
                seq![],
                event,
                before,
                EffectView::Changed(Some(mark)),
            ),
            (Awaiting::Punctuation, _) => MoveView::settle(
                seq![Op::NotePassthrough(event.typed())],
                event,
                before,
                EffectView::Passthrough,
            ),
            (Awaiting::Slot, AnswerView::Choice(text)) => MoveView::settle(
                seq![],
                event,
                before,
                EffectView::Changed(text),
            ),
            (Awaiting::Highlighted(after), AnswerView::Choice(Some(text))) => self.after_move(
                seq![],
                event,
                before,
                text,
                after,
            ),
            (Awaiting::Highlighted(after), _) => Router::raw_move(event, before, after),
            (Awaiting::Text(after), AnswerView::Text(text)) => self.after_move(
                seq![],
                event,
                before,
                text,
                after,
            ),
            // No other answer fits the question.
            _ => MoveView::settle(seq![], event, before, EffectView::Changed(None)),
        }
    }

    /// Applies a function key.
    pub fn apply_function_key(&mut self, event: &KeyEvent, before: Option<String>) -> (m: Move)
        ensures
            m@ == old(self).function_key_move(*event, text::text_view(before)),
            final(self).settings == old(self).settings,
            final(self).engine == old(self).engine,
            final(self).sentence == (if old(self).takes_sentence(*event) {
                None
            } else {
                old(self).sentence
            }),
    {
        let key: u32 = event.virtual_key;
        if !self.composing() {
            let ops = if key == codes::RETURN {
                single(Op::NotePassthrough('\n'))
            } else {
                Vec::new()
            };
            return Move::settle(ops, event, before, Effect::Passthrough);
        }
        if self.engine.bare_question && key != codes::BACK && key != codes::ESCAPE {
            return self.restore_bare_question(event, before, After::Finish);
        }
        if key == codes::BACK {
            Move::settle(single(Op::Backspace), event, before, Effect::Changed(None))
        } else if key == codes::ESCAPE {
            let op = if self.engine.in_aux {
                Op::ClearAux
            } else {
                Op::Clear
            };
            Move::settle(single(op), event, before, Effect::Changed(None))
        } else if key == codes::RETURN {
            if self.engine.zhuyin_mode && !event.modifiers.shift {
                self.commit_highlighted(event, before, After::Finish)
            } else {
                Router::commit_raw(event, before, After::Finish)
            }
        } else if key == codes::TAB && event.modifiers.shift {
            Move::settle(single(Op::Page(-1)), event, before, Effect::Navigated)
        } else if key == codes::TAB && self.engine.english_mode {
            self.commit_highlighted(event, before, After::Finish)
        } else if key == codes::TAB {
            match self.sentence.take() {
                Some(sentence) => Move::question(
                    Vec::new(),
                    event,
                    before,
                    Ask::AcceptPrediction(sentence),
                    Awaiting::Text(After::Finish),
                ),
                None => Move::settle(single(Op::Page(1)), event, before, Effect::Navigated),
            }
        } else if key == codes::DOWN {
            Move::settle(single(Op::MoveHighlight(1)), event, before, Effect::Navigated)
        } else if key == codes::UP {
            Move::settle(single(Op::MoveHighlight(-1)), event, before, Effect::Navigated)
        } else if key == codes::NEXT {
            Move::settle(single(Op::Page(1)), event, before, Effect::Navigated)
        } else if key == codes::PRIOR {
            Move::settle(single(Op::Page(-1)), event, before, Effect::Navigated)
        } else if key == codes::LEFT {
            Move::settle(single(Op::CursorLeft), event, before, Effect::Changed(None))
        } else if key == codes::RIGHT {
            Move::settle(single(Op::CursorRight), event, before, Effect::Changed(None))
        } else if key == codes::HOME {
            Move::settle(single(Op::CursorHome), event, before, Effect::Changed(None))
        } else if key == codes::END {
            Move::settle(single(Op::CursorEnd), event, before, Effect::Changed(None))
        } else {
            Move::settle(Vec::new(), event, before, Effect::Passthrough)
        }
    }

    /// Applies a key that types the printable character `c`.
    pub fn apply_character(&self, c: char, event: &KeyEvent, before: Option<String>) -> (m: Move)
        ensures
            m@ == self.character_move(c, *event, text::text_view(before)),
    {
        if self.console_host() {
            let note = single(Op::NotePassthrough(c));
            return Move::settle(note, event, before, Effect::Changed(Some(text::char_string(c))));
        }
        let english = event.modifiers.english();
        let composing = self.composing();
        if !composing && ((c == QUESTION_PREFIX && self.engine.takes_question_mark) || (!english
            && self.engine.takes_mode_letter)) {
            let mut ops = single(Op::SetEnglishMode(false));
            ops.push(Op::Push(c));
            assert(ops@ =~= seq![Op::SetEnglishMode(false), Op::Push(c)]);
            return Move::settle(ops, event, before, Effect::Changed(None));
        }
        let question = composing && self.engine.question_mode;
        let letter = if question && english {
            text::to_lowered(c)
        } else {
            c
        };
        if question && !text::is_lowercase_letter(letter) && self.engine.bare_question {
            let after = if c == ' ' {
                After::Finish
            } else {
                After::Restart
            };
            return self.restore_bare_question(event, before, after);
        }
        if composing && !self.english_candidates(event) && self.engine.english_mode {
            return Router::commit_raw(event, before, After::Mode(question));
        }
        self.switch_mode(Vec::new(), event, before, question)
    }

    /// Applies a key that no shortcut claims.
    fn apply_unclaimed(&mut self, event: &KeyEvent, before: Option<String>) -> (m: Move)
        ensures
            m@ == old(self).unclaimed_move(*event, text::text_view(before)),
            final(self).settings == old(self).settings,
            final(self).engine == old(self).engine,
            final(self).sentence == old(self).sentence_after_unclaimed(*event),
    {
        if event.modifiers.has_command_key() {
            return Move::settle(Vec::new(), event, before, Effect::Passthrough);
        }
        match event.printable_character() {
            Some(c) => self.apply_character(c, event, before),
            None => self.apply_function_key(event, before),
        }
    }

    /// Applies a key, behind the text committed `before`.
    fn dispatch(&mut self, event: &KeyEvent, before: Option<String>) -> (m: Move)
        ensures
            m@ == old(self).key_move(*event, text::text_view(before)),
            final(self).settings == old(self).settings,
            final(self).engine == old(self).engine,
            final(self).sentence == old(self).sentence_after_key(*event),
    {
        if self.composing() && !self.engine.expression_mode {
            if let Some(digit) = event.digit_key {
                return Move::question(
                    Vec::new(),
                    event,
                    before,
                    Ask::DigitShortcut(digit, event.modifiers),
                    Awaiting::Shortcut,
                );
            }
        }
        self.apply_unclaimed(event, before)
    }

    /// Applies a key to the engine as it is seen in `engine`.
    pub fn apply_key(&mut self, event: &KeyEvent, engine: Snapshot) -> (m: Move)
        ensures
            m@ == old(self).seeing(engine).key_move(*event, None),
            final(self).settings == old(self).settings,
            final(self).engine == engine,
            final(self).sentence == old(self).seeing(engine).sentence_after_key(*event),
    {
        self.engine = engine;
        self.dispatch(event, None)
    }

    /// Carries a key on with the answer to its question, and with the engine as it is seen in
    /// `engine` after the answer.
    pub fn resume(&mut self, pending: Pending, answer: Answer, engine: Snapshot) -> (m: Move)
        requires
            old(self).well_formed(),
            pending.event.well_formed(),
            pending.awaiting.fits(answer@),
        ensures
            m@ == old(self).seeing(engine).resume_move(pending@, answer@),
            final(self).settings == old(self).settings,
            final(self).engine == engine,
            final(self).sentence == old(self).seeing(engine).sentence_after_answer(
                pending@,
                answer@,
            ),
    {
        self.engine = engine;
        let Pending { event, before, awaiting } = pending;
        match (awaiting, answer) {
            (Awaiting::Shortcut, Answer::Claimed(Some(effect))) => Move::settle(
                Vec::new(),
                &event,
                before,
                effect,
            ),
            (Awaiting::Shortcut, _) => self.apply_unclaimed(&event, before),
            (Awaiting::Restart, _) => self.dispatch(&event, before),
            (Awaiting::Mode(question), _) => self.apply_in_mode(&event, before, question),
            (Awaiting::AuxCode(_), Answer::Taken(true)) => Move::settle(
                Vec::new(),
                &event,
                before,
                Effect::Changed(None),
            ),
            (Awaiting::AuxCode(c), _) => Move::buffer(c, &event, before),
            (Awaiting::Mark(after), Answer::Choice(Some(mark))) => self.go_on(
                Vec::new(),
                &event,
                before,
                mark,
                after,
            ),
            (Awaiting::Mark(after), _) => self.go_on(
                single(Op::NotePassthrough(QUESTION_PREFIX)),
                &event,
                before,
                text::char_string(QUESTION_PREFIX),
                after,
            ),
            (Awaiting::Punctuation, Answer::Choice(Some(mark))) => Move::settle(
                Vec::new(),
                &event,
                before,
                Effect::Changed(Some(mark)),
            ),
            (Awaiting::Punctuation, _) => Move::settle(
                single(Op::NotePassthrough(event.typed_character())),
                &event,
                before,
                Effect::Passthrough,
            ),
            (Awaiting::Slot, Answer::Choice(text)) => Move::settle(
                Vec::new(),
                &event,
                before,
                Effect::Changed(text),
            ),
            (Awaiting::Highlighted(after), Answer::Choice(Some(text))) => self.go_on(
                Vec::new(),
                &event,
                before,
                text,
                after,
            ),
            (Awaiting::Highlighted(after), _) => Router::commit_raw(&event, before, after),
            (Awaiting::Text(after), Answer::Text(text)) => self.go_on(
                Vec::new(),
                &event,
                before,
                text,
                after,
            ),
            // No other answer fits the question.
            _ => Move::settle(Vec::new(), &event, before, Effect::Changed(None)),
        }
    }

    /// Applies the key in the mode that was set for it.
    fn apply_in_mode(&self, event: &KeyEvent, before: Option<String>, question: bool) -> (m: Move)
        requires
            self.well_formed(),
            event.well_formed(),
        ensures
            m@ == self.mode_move(*event, text::text_view(before), question),
    {
        let english = event.modifiers.english();
        if english && !question {
            self.apply_english(event, before, self.english_candidates(event))
        } else {
            let c = event.typed_character();
            let letter = if question && english {
                text::to_lowered(c)
            } else {
                c
            };
            self.apply_chinese(letter, event, before)
        }
    }
}

} // verus!
