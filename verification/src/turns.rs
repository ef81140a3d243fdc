//! What holds of every key, whatever the engine answers.

use crate::codes;
use crate::effect::EffectView;
use crate::key::KeyEvent;
use crate::request::{
    After, AnswerView, AskView, Awaiting, MoveView, Op, OutcomeView, PendingView,
};
use crate::router::{Router, Snapshot, QUESTION_PREFIX};
use crate::text;
use vstd::prelude::*;

verus! {

/// The characters that the engine is told of as having passed it by, in order.
pub open spec fn noted(ops: Seq<Op>) -> Seq<char>
    decreases ops.len(),
{
    if ops.len() == 0 {
        seq![]
    } else {
        match ops.last() {
            Op::NotePassthrough(c) => noted(ops.drop_last()).push(c),
            _ => noted(ops.drop_last()),
        }
    }
}

/// The text that an answer brings for a key that types `own`.
pub open spec fn said(answer: AnswerView, own: Seq<char>) -> Seq<char> {
    match answer {
        AnswerView::Claimed(Some(effect)) => effect.delivered(own),
        AnswerView::Choice(Some(text)) => text,
        AnswerView::Text(text) => text,
        _ => seq![],
    }
}

/// The text that the application inserts when it gets the key: the character of a text key, a line
/// break for Enter, nothing for any other key.
pub open spec fn own_text(event: KeyEvent) -> Seq<char> {
    if event.is_text() {
        seq![event.typed()]
    } else if event.printable() is None && event.virtual_key == codes::RETURN
        && !event.modifiers.command() {
        seq!['\n']
    } else {
        seq![]
    }
}

/// The text committed so far.
pub open spec fn owed(before: Option<Seq<char>>) -> Seq<char> {
    text::joined(before, seq![])
}

/// The text that a key has come to after a turn: what reaches the document once it is settled,
/// what is committed so far while it waits.
pub open spec fn text_of(m: MoveView, own: Seq<char>) -> Seq<char> {
    match m.outcome {
        OutcomeView::Done(effect) => effect.delivered(own),
        OutcomeView::Ask(_, pending) => owed(pending.before),
    }
}

/// A reply of the host: its answer, and the engine as it is seen after it.
pub struct Reply {
    pub answer: AnswerView,
    pub engine: Snapshot,
}

/// The last turn of a key that began with the engine as in `engine` and got `replies`.
pub open spec fn run(
    router: Router,
    event: KeyEvent,
    engine: Snapshot,
    replies: Seq<Reply>,
) -> MoveView
    decreases replies.len(),
{
    if replies.len() == 0 {
        router.seeing(engine).key_move(event, None)
    } else {
        let earlier = run(router, event, engine, replies.drop_last());
        match earlier.outcome {
            OutcomeView::Ask(_, pending) => router.seeing(replies.last().engine).resume_move(
                pending,
                replies.last().answer,
            ),
            OutcomeView::Done(_) => earlier,
        }
    }
}

/// Every reply answers the question that was open.
pub open spec fn orderly(
    router: Router,
    event: KeyEvent,
    engine: Snapshot,
    replies: Seq<Reply>,
) -> bool
    decreases replies.len(),
{
    replies.len() > 0 ==> {
        &&& orderly(router, event, engine, replies.drop_last())
        &&& match run(router, event, engine, replies.drop_last()).outcome {
            OutcomeView::Ask(ask, _) => ask.takes(replies.last().answer),
            OutcomeView::Done(_) => false,
        }
    }
}

/// All text of a key in the order in which it arose: what the engine was told of as having passed
/// it by, and what the answers brought.
pub open spec fn transcript(
    router: Router,
    event: KeyEvent,
    engine: Snapshot,
    replies: Seq<Reply>,
) -> Seq<char>
    decreases replies.len(),
{
    let last = noted(run(router, event, engine, replies).ops);
    if replies.len() == 0 {
        last
    } else {
        transcript(router, event, engine, replies.drop_last()) + said(
            replies.last().answer,
            own_text(event),
        ) + last
    }
}

/// The question that is open in a move fits what the router waits for, and the key is the same.
pub open spec fn coherent(m: MoveView, event: KeyEvent) -> bool {
    match m.outcome {
        OutcomeView::Ask(ask, pending) => pending.event == event && (forall|answer: AnswerView|
            ask.takes(answer) <==> #[trigger] pending.awaiting.fits(answer)),
        OutcomeView::Done(_) => true,
    }
}

proof fn lemma_noted_push(ops: Seq<Op>, op: Op)
    ensures
        noted(ops.push(op)) == (match op {
            Op::NotePassthrough(c) => noted(ops).push(c),
            _ => noted(ops),
        }),
{
    assert(ops.push(op).drop_last() =~= ops);
}

proof fn lemma_noted_few(a: Op, b: Op)
    ensures
        noted(seq![]) == Seq::<char>::empty(),
        noted(seq![a]) == (match a {
            Op::NotePassthrough(c) => seq![c],
            _ => seq![],
        }),
        noted(seq![a, b]) == (match b {
            Op::NotePassthrough(c) => noted(seq![a]).push(c),
            _ => noted(seq![a]),
        }),
{
    assert(seq![a] =~= Seq::empty().push(a));
    assert(seq![a, b] =~= seq![a].push(b));
    lemma_noted_push(Seq::empty(), a);
    lemma_noted_push(seq![a], b);
    if let Op::NotePassthrough(c) = a {
        assert(Seq::<char>::empty().push(c) =~= seq![c]);
    }
}

proof fn lemma_settle(
    ops: Seq<Op>,
    event: KeyEvent,
    before: Option<Seq<char>>,
    effect: EffectView,
)
    ensures
        text_of(MoveView::settle(ops, event, before, effect), seq![event.typed()]) == owed(before)
            + effect.delivered(seq![event.typed()]),
{
    let own = effect.delivered(seq![event.typed()]);
    match before {
        Some(b) => assert(b + seq![] =~= b),
        None => assert(seq![] + own =~= own),
    }
}

/// A move that goes on from `ops` with the text `base`: it adds at most one operation, and the
/// key's own character to the text exactly if that operation notes it.
spec fn goes_on(m: MoveView, ops: Seq<Op>, event: KeyEvent, base: Seq<char>) -> bool {
    let own = seq![event.typed()];
    ||| m.ops == ops && text_of(m, own) == base
    ||| m.ops == ops.push(Op::SetEnglishMode(true)) && text_of(m, own) == base
    ||| m.ops == ops.push(Op::SetEnglishMode(false)) && text_of(m, own) == base
    ||| m.ops == ops.push(Op::NotePassthrough(event.typed())) && text_of(m, own) == base + own
}

proof fn lemma_goes_on_noted(m: MoveView, ops: Seq<Op>, event: KeyEvent, base: Seq<char>)
    requires
        goes_on(m, ops, event, base),
    ensures
        exists|t: Seq<char>|
            noted(m.ops) == noted(ops) + t && text_of(m, seq![event.typed()]) == #[trigger] (base
                + t),
{
    let own = seq![event.typed()];
    lemma_noted_push(ops, Op::SetEnglishMode(true));
    lemma_noted_push(ops, Op::SetEnglishMode(false));
    lemma_noted_push(ops, Op::NotePassthrough(event.typed()));
    if text_of(m, own) == base && noted(m.ops) == noted(ops) {
        assert(noted(ops) + seq![] =~= noted(ops));
        assert(base =~= base + seq![]);
    } else {
        assert(noted(ops).push(event.typed()) =~= noted(ops) + own);
        assert(text_of(m, own) == base + own);
    }
}

proof fn lemma_punctuation(r: Router, ops: Seq<Op>, event: KeyEvent, before: Option<Seq<char>>)
    ensures
        goes_on(r.punctuation_move(ops, event, before), ops, event, owed(before)),
{
    lemma_settle(
        ops.push(Op::NotePassthrough(event.typed())),
        event,
        before,
        EffectView::Passthrough,
    );
}

proof fn lemma_plain_english(r: Router, ops: Seq<Op>, event: KeyEvent, before: Option<Seq<char>>)
    ensures
        goes_on(r.plain_english_move(ops, event, before), ops, event, owed(before)),
{
    lemma_punctuation(r, ops, event, before);
    lemma_settle(
        ops.push(Op::NotePassthrough(event.typed())),
        event,
        before,
        EffectView::Changed(Some(seq![event.typed()])),
    );
}

proof fn lemma_after(
    r: Router,
    ops: Seq<Op>,
    event: KeyEvent,
    before: Option<Seq<char>>,
    text: Seq<char>,
    after: After,
)
    ensures
        goes_on(
            r.after_move(ops, event, before, text, after),
            ops,
            event,
            owed(before) + text,
        ),
{
    let committed = Some(text::joined(before, text));
    assert(owed(committed) =~= owed(before) + text);
    lemma_settle(ops, event, before, EffectView::Changed(Some(text)));
    lemma_settle(
        ops.push(Op::NotePassthrough(event.typed())),
        event,
        committed,
        EffectView::Passthrough,
    );
    lemma_punctuation(r, ops, event, committed);
    lemma_plain_english(r, ops, event, committed);
}

/// A turn that begins behind the text `before`: the key's text is that text followed by what the
/// turn notes.
spec fn good_turn(m: MoveView, event: KeyEvent, before: Option<Seq<char>>) -> bool {
    text_of(m, seq![event.typed()]) == owed(before) + noted(m.ops)
}

proof fn lemma_quiet(
    ops: Seq<Op>,
    event: KeyEvent,
    before: Option<Seq<char>>,
    effect: EffectView,
)
    requires
        effect is Navigated || effect == EffectView::Changed(None),
        noted(ops) == Seq::<char>::empty(),
    ensures
        good_turn(MoveView::settle(ops, event, before, effect), event, before),
{
    lemma_settle(ops, event, before, effect);
}

proof fn lemma_good_from_goes_on(m: MoveView, event: KeyEvent, before: Option<Seq<char>>)
    requires
        goes_on(m, seq![], event, owed(before)),
    ensures
        good_turn(m, event, before),
{
    lemma_goes_on_noted(m, seq![], event, owed(before));
    let t = choose|t: Seq<char>|
        noted(m.ops) == noted(seq![]) + t && text_of(m, seq![event.typed()]) == #[trigger] (owed(
            before,
        ) + t);
    assert(noted(seq![]) + t =~= t);
}

proof fn lemma_buffer(c: char, event: KeyEvent, before: Option<Seq<char>>)
    ensures
        good_turn(MoveView::buffer(c, event, before), event, before),
{
    lemma_noted_few(Op::Push(c), Op::Push(c));
    lemma_quiet(seq![Op::Push(c)], event, before, EffectView::Changed(None));
}

proof fn lemma_ask(
    event: KeyEvent,
    before: Option<Seq<char>>,
    ask: AskView,
    awaiting: Awaiting,
)
    ensures
        good_turn(MoveView::question(seq![], event, before, ask, awaiting), event, before),
{
    assert(owed(before) + noted(seq![]) =~= owed(before));
}

proof fn lemma_page(event: KeyEvent, before: Option<Seq<char>>, step: i32)
    ensures
        good_turn(
            MoveView::settle(seq![Op::Page(step)], event, before, EffectView::Navigated),
            event,
            before,
        ),
{
    lemma_noted_few(Op::Page(step), Op::Clear);
    lemma_quiet(seq![Op::Page(step)], event, before, EffectView::Navigated);
}

proof fn lemma_english(r: Router, event: KeyEvent, before: Option<Seq<char>>, candidates: bool)
    ensures
        good_turn(r.english_move(event, before, candidates), event, before),
{
    let c = event.typed();
    lemma_ask(event, before, AskView::TakeRaw, Awaiting::Text(After::PlainEnglish));
    lemma_ask(event, before, AskView::TakeRaw, Awaiting::Text(After::Punctuate));
    lemma_ask(
        event,
        before,
        AskView::CommitIndex(r.engine.highlight),
        Awaiting::Highlighted(After::Punctuate),
    );
    if event.digit is Some {
        lemma_ask(
            event,
            before,
            AskView::CommitIndex(r.slot(event.digit->0 as int)->0 as usize),
            Awaiting::Slot,
        );
    }
    if event.page_step is Some {
        lemma_page(event, before, event.page_step->0);
    }
    lemma_buffer(c, event, before);
    lemma_plain_english(r, seq![], event, before);
    lemma_punctuation(r, seq![], event, before);
    if !r.is_composing() {
        let m = r.english_move(event, before, candidates);
        if !(candidates && text::letter(c)) {
            lemma_good_from_goes_on(m, event, before);
        }
    }
}

proof fn lemma_printable(r: Router, c: char, event: KeyEvent, before: Option<Seq<char>>)
    ensures
        good_turn(r.printable_move(c, event, before), event, before),
{
    lemma_buffer(c, event, before);
    lemma_noted_few(Op::EnterAux, Op::Clear);
    lemma_quiet(seq![], event, before, EffectView::Changed(None));
    lemma_quiet(seq![Op::EnterAux], event, before, EffectView::Changed(None));
    lemma_ask(
        event,
        before,
        AskView::CommitIndex(r.engine.highlight),
        Awaiting::Highlighted(After::Punctuate),
    );
    lemma_ask(
        event,
        before,
        AskView::CommitIndex(r.engine.highlight),
        Awaiting::Highlighted(After::Pass),
    );
    lemma_ask(
        event,
        before,
        AskView::CommitIndex(r.engine.highlight),
        Awaiting::Highlighted(After::Finish),
    );
    if event.digit is Some {
        lemma_ask(
            event,
            before,
            AskView::CommitIndex(r.slot(event.digit->0 as int)->0 as usize),
            Awaiting::Slot,
        );
    }
    if event.page_step is Some {
        lemma_page(event, before, event.page_step->0);
    }
}

proof fn lemma_chinese(r: Router, c: char, event: KeyEvent, before: Option<Seq<char>>)
    ensures
        good_turn(r.chinese_move(c, event, before), event, before),
{
    lemma_ask(event, before, AskView::PushAuxCode(c), Awaiting::AuxCode(c));
    lemma_ask(event, before, AskView::TakeRaw, Awaiting::Text(After::Pass));
    lemma_noted_few(Op::ClearAux, Op::Push(c));
    lemma_quiet(seq![Op::ClearAux, Op::Push(c)], event, before, EffectView::Changed(None));
    lemma_buffer(c, event, before);
    lemma_printable(r, c, event, before);
    lemma_noted_few(Op::NotePassthrough(event.typed()), Op::Clear);
    lemma_settle(
        seq![Op::NotePassthrough(event.typed())],
        event,
        before,
        EffectView::Passthrough,
    );
    lemma_punctuation(r, seq![], event, before);
    lemma_good_from_goes_on(r.punctuation_move(seq![], event, before), event, before);
}

proof fn lemma_restore(r: Router, event: KeyEvent, before: Option<Seq<char>>, after: After)
    ensures
        good_turn(r.restore_move(event, before, after), event, before),
{
    let note = Op::NotePassthrough(QUESTION_PREFIX);
    let ops = seq![Op::Clear, note];
    lemma_noted_few(Op::Clear, note);
    assert(owed(before) + noted(seq![Op::Clear]) =~= owed(before));
    lemma_after(r, ops, event, before, seq![QUESTION_PREFIX], after);
    let m = r.after_move(ops, event, before, seq![QUESTION_PREFIX], after);
    lemma_goes_on_noted(m, ops, event, owed(before) + seq![QUESTION_PREFIX]);
    let t = choose|t: Seq<char>|
        noted(m.ops) == noted(ops) + t && text_of(m, seq![event.typed()]) == #[trigger] ((owed(
            before,
        ) + seq![QUESTION_PREFIX]) + t);
    assert(noted(ops) =~= seq![QUESTION_PREFIX]);
    assert((owed(before) + seq![QUESTION_PREFIX]) + t =~= owed(before) + (noted(ops) + t));
}

proof fn lemma_character(r: Router, event: KeyEvent, before: Option<Seq<char>>)
    requires
        event.is_text(),
    ensures
        good_turn(r.character_move(event.typed(), event, before), event, before),
{
    let c = event.typed();
    let question = r.in_question();
    lemma_noted_few(Op::NotePassthrough(c), Op::Clear);
    lemma_settle(
        seq![Op::NotePassthrough(c)],
        event,
        before,
        EffectView::Changed(Some(seq![c])),
    );
    lemma_noted_few(Op::SetEnglishMode(false), Op::Push(c));
    lemma_quiet(
        seq![Op::SetEnglishMode(false), Op::Push(c)],
        event,
        before,
        EffectView::Changed(None),
    );
    lemma_restore(r, event, before, After::Finish);
    lemma_restore(r, event, before, After::Restart);
    lemma_ask(event, before, AskView::TakeRaw, Awaiting::Text(After::Mode(question)));
    let switched = r.mode_switch_move(seq![], event, before, question);
    lemma_good_from_goes_on(switched, event, before);
}

proof fn lemma_key(r: Router, event: KeyEvent, before: Option<Seq<char>>)
    requires
        event.is_text(),
    ensures
        good_turn(r.unclaimed_move(event, before), event, before),
        good_turn(r.key_move(event, before), event, before),
{
    lemma_character(r, event, before);
    if event.digit_key is Some {
        lemma_ask(
            event,
            before,
            AskView::DigitShortcut(event.digit_key->0, event.modifiers),
            Awaiting::Shortcut,
        );
    }
}

/// One answer keeps the order: the text that the key comes to is the text committed before, then
/// what the answer brings, then what the turn notes as passing the engine by. So nothing that the
/// engine hands over is lost, doubled or overtaken by the key's own character.
pub proof fn law_answer_keeps_order(r: Router, pending: PendingView, answer: AnswerView)
    requires
        pending.event.is_text(),
        pending.awaiting.fits(answer),
    ensures
        text_of(r.resume_move(pending, answer), seq![pending.event.typed()]) == owed(pending.before)
            + said(answer, seq![pending.event.typed()]) + noted(r.resume_move(pending, answer).ops),
{
    let event = pending.event;
    let before = pending.before;
    let own = seq![event.typed()];
    let m = r.resume_move(pending, answer);
    let spoken = said(answer, own);
    let base = owed(before) + spoken;
    lemma_key(r, event, before);
    lemma_ask(event, before, AskView::TakeRaw, Awaiting::Text(After::Finish));
    assert(noted(seq![]) == Seq::<char>::empty());
    assert(owed(before) + seq![] =~= owed(before));
    assert(base + seq![] =~= base);
    match (pending.awaiting, answer) {
        (Awaiting::Shortcut, AnswerView::Claimed(Some(effect))) => {
            lemma_settle(seq![], event, before, effect);
        },
        (Awaiting::Mode(question), _) => {
            lemma_english(r, event, before, r.offers_english(event));
            lemma_chinese(
                r,
                Router::question_letter(event.typed(), event, question),
                event,
                before,
            );
        },
        (Awaiting::AuxCode(c), _) => {
            lemma_buffer(c, event, before);
            lemma_quiet(seq![], event, before, EffectView::Changed(None));
        },
        (Awaiting::Mark(after), AnswerView::Choice(None)) => {
            let ops = seq![Op::NotePassthrough(QUESTION_PREFIX)];
            lemma_noted_few(ops[0], Op::Clear);
            lemma_after(r, ops, event, before, seq![QUESTION_PREFIX], after);
            lemma_goes_on_noted(m, ops, event, owed(before) + seq![QUESTION_PREFIX]);
            let t = choose|t: Seq<char>|
                noted(m.ops) == noted(ops) + t && text_of(m, own) == #[trigger] ((owed(before)
                    + seq![QUESTION_PREFIX]) + t);
            assert((owed(before) + seq![QUESTION_PREFIX]) + t =~= base + (noted(ops) + t));
        },
        (Awaiting::Punctuation, AnswerView::Choice(Some(mark))) => {
            lemma_settle(seq![], event, before, EffectView::Changed(Some(mark)));
        },
        (Awaiting::Punctuation, _) => {
            let ops = seq![Op::NotePassthrough(event.typed())];
            lemma_noted_few(ops[0], Op::Clear);
            lemma_settle(ops, event, before, EffectView::Passthrough);
        },
        (Awaiting::Slot, AnswerView::Choice(text)) => {
            lemma_settle(seq![], event, before, EffectView::Changed(text));
        },
        (Awaiting::Highlighted(after), AnswerView::Choice(None)) => {
            lemma_ask(event, before, AskView::TakeRaw, Awaiting::Text(after));
        },
        (Awaiting::Mark(after), _) | (Awaiting::Highlighted(after), _) | (
            Awaiting::Text(after),
            _,
        ) => {
            lemma_after(r, seq![], event, before, spoken, after);
            lemma_goes_on_noted(m, seq![], event, base);
            let t = choose|t: Seq<char>|
                noted(m.ops) == noted(seq![]) + t && text_of(m, own) == #[trigger] (base + t);
            assert(noted(seq![]) + t =~= t);
        },
        _ => {},
    }
}

/// The most questions that can still follow, this one counted, once the router waits like this.
pub open spec fn questions_left(awaiting: Awaiting) -> nat {
    match awaiting {
        Awaiting::Shortcut => 7,
        Awaiting::Restart => 5,
        Awaiting::Mode(_) => 4,
        Awaiting::AuxCode(_) => 1,
        Awaiting::Punctuation => 1,
        Awaiting::Slot => 1,
        Awaiting::Mark(after) => 1 + questions_after(after),
        Awaiting::Text(after) => 1 + questions_after(after),
        Awaiting::Highlighted(after) => 2 + questions_after(after),
    }
}

/// The most questions that can follow a text.
pub open spec fn questions_after(after: After) -> nat {
    match after {
        After::Finish => 0,
        After::Pass => 0,
        After::Punctuate => 1,
        After::PlainEnglish => 1,
        After::Mode(_) => 4,
        After::Restart => 5,
    }
}

/// Wherever the key is dispatched afresh, nothing is composed any more.
pub open spec fn restarts_idle(
    router: Router,
    event: KeyEvent,
    engine: Snapshot,
    replies: Seq<Reply>,
) -> bool
    decreases replies.len(),
{
    replies.len() > 0 ==> {
        &&& restarts_idle(router, event, engine, replies.drop_last())
        &&& match run(router, event, engine, replies.drop_last()).outcome {
            OutcomeView::Ask(_, pending) => pending.awaiting is Restart
                ==> replies.last().engine.composition@.len() == 0,
            OutcomeView::Done(_) => true,
        }
    }
}

/// A move leaves at most `n` questions to come.
pub open spec fn at_most(m: MoveView, n: nat) -> bool {
    match m.outcome {
        OutcomeView::Ask(_, pending) => questions_left(pending.awaiting) <= n,
        OutcomeView::Done(_) => true,
    }
}

proof fn lemma_after_at_most(
    r: Router,
    ops: Seq<Op>,
    event: KeyEvent,
    before: Option<Seq<char>>,
    text: Seq<char>,
    after: After,
)
    ensures
        at_most(r.after_move(ops, event, before, text, after), questions_after(after)),
{
}

proof fn lemma_key_at_most(r: Router, event: KeyEvent, before: Option<Seq<char>>)
    ensures
        at_most(r.unclaimed_move(event, before), 6),
        at_most(r.key_move(event, before), 7),
        !r.is_composing() ==> at_most(r.key_move(event, before), 4),
{
    let mark = seq![QUESTION_PREFIX];
    let ops = seq![Op::Clear, Op::NotePassthrough(QUESTION_PREFIX)];
    lemma_after_at_most(r, ops, event, before, mark, After::Finish);
    lemma_after_at_most(r, ops, event, before, mark, After::Restart);
}

proof fn lemma_mode_at_most(r: Router, event: KeyEvent, before: Option<Seq<char>>, question: bool)
    ensures
        at_most(r.mode_move(event, before, question), 3),
{
}

/// Every answer brings the key closer to being settled. The one proviso: dispatched afresh after
/// the lone question mark was taken out, the key finds nothing composed.
pub proof fn law_answers_make_progress(r: Router, pending: PendingView, answer: AnswerView)
    requires
        pending.awaiting.fits(answer),
        pending.awaiting is Restart ==> !r.is_composing(),
    ensures
        at_most(
            r.resume_move(pending, answer),
            (questions_left(pending.awaiting) - 1) as nat,
        ),
{
    let event = pending.event;
    let before = pending.before;
    lemma_key_at_most(r, event, before);
    match (pending.awaiting, answer) {
        (Awaiting::Mode(question), _) => {
            lemma_mode_at_most(r, event, before, question);
        },
        (Awaiting::Mark(after), AnswerView::Choice(None)) => {
            let note = seq![Op::NotePassthrough(QUESTION_PREFIX)];
            lemma_after_at_most(r, note, event, before, seq![QUESTION_PREFIX], after);
        },
        (Awaiting::Mark(after), AnswerView::Choice(Some(text))) | (
            Awaiting::Highlighted(after),
            AnswerView::Choice(Some(text)),
        ) | (Awaiting::Text(after), AnswerView::Text(text)) => {
            lemma_after_at_most(r, seq![], event, before, text, after);
        },
        _ => {},
    }
}

proof fn lemma_after_coherent(
    r: Router,
    ops: Seq<Op>,
    event: KeyEvent,
    before: Option<Seq<char>>,
    text: Seq<char>,
    after: After,
)
    ensures
        coherent(r.after_move(ops, event, before, text, after), event),
{
}

proof fn lemma_key_coherent(r: Router, event: KeyEvent, before: Option<Seq<char>>)
    ensures
        coherent(r.unclaimed_move(event, before), event),
        coherent(r.key_move(event, before), event),
{
    let mark = seq![QUESTION_PREFIX];
    let ops = seq![Op::Clear, Op::NotePassthrough(QUESTION_PREFIX)];
    lemma_after_coherent(r, ops, event, before, mark, After::Finish);
    lemma_after_coherent(r, ops, event, before, mark, After::Restart);
}

proof fn lemma_mode_coherent(
    r: Router,
    event: KeyEvent,
    before: Option<Seq<char>>,
    question: bool,
)
    ensures
        coherent(r.mode_move(event, before, question), event),
{
}

/// Every question is one whose answers the router accepts: whatever answers the question that a
/// turn ends with fits what the router then waits for, and the key it waits with is the same.
pub proof fn law_questions_can_be_answered(
    r: Router,
    event: KeyEvent,
    before: Option<Seq<char>>,
    awaiting: Awaiting,
    answer: AnswerView,
)
    requires
        awaiting.fits(answer),
    ensures
        coherent(r.key_move(event, before), event),
        coherent(r.resume_move(PendingView { event, before, awaiting }, answer), event),
{
    lemma_key_coherent(r, event, before);
    match (awaiting, answer) {
        (Awaiting::Mode(question), _) => {
            lemma_mode_coherent(r, event, before, question);
        },
        (Awaiting::Mark(after), AnswerView::Choice(None)) => {
            let note = seq![Op::NotePassthrough(QUESTION_PREFIX)];
            lemma_after_coherent(r, note, event, before, seq![QUESTION_PREFIX], after);
        },
        (Awaiting::Mark(after), AnswerView::Choice(Some(text))) | (
            Awaiting::Highlighted(after),
            AnswerView::Choice(Some(text)),
        ) | (Awaiting::Text(after), AnswerView::Text(text)) => {
            lemma_after_coherent(r, seq![], event, before, text, after);
        },
        _ => {},
    }
}

proof fn lemma_run_coherent(
    router: Router,
    event: KeyEvent,
    engine: Snapshot,
    replies: Seq<Reply>,
)
    requires
        orderly(router, event, engine, replies),
    ensures
        coherent(run(router, event, engine, replies), event),
    decreases replies.len(),
{
    if replies.len() == 0 {
        law_questions_can_be_answered(
            router.seeing(engine),
            event,
            None,
            Awaiting::Restart,
            AnswerView::Observed,
        );
    } else {
        let earlier = replies.drop_last();
        lemma_run_coherent(router, event, engine, earlier);
        match run(router, event, engine, earlier).outcome {
            OutcomeView::Ask(_, pending) => {
                assert(pending.awaiting.fits(replies.last().answer));
                law_questions_can_be_answered(
                    router.seeing(replies.last().engine),
                    event,
                    pending.before,
                    pending.awaiting,
                    replies.last().answer,
                );
            },
            OutcomeView::Done(_) => {},
        }
    }
}

/// What a key that is no text key can wait for: a shortcut, or a text to settle with. Nothing goes
/// ahead of that.
spec fn waits_plainly(m: MoveView) -> bool {
    match m.outcome {
        OutcomeView::Ask(_, pending) => pending.before is None && (pending.awaiting is Shortcut
            || pending.awaiting == Awaiting::Mark(After::Finish) || pending.awaiting
            == Awaiting::Highlighted(After::Finish) || pending.awaiting == Awaiting::Text(
            After::Finish,
        )),
        OutcomeView::Done(_) => true,
    }
}

/// The first turn of a key that is no text key.
proof fn lemma_function_turn(r: Router, event: KeyEvent)
    requires
        !event.is_text(),
    ensures
        waits_plainly(r.unclaimed_move(event, None)),
        waits_plainly(r.key_move(event, None)),
        text_of(r.unclaimed_move(event, None), own_text(event)) == noted(
            r.unclaimed_move(event, None).ops,
        ),
        text_of(r.key_move(event, None), own_text(event)) == noted(r.key_move(event, None).ops),
{
    assert(noted(seq![]) == Seq::<char>::empty());
    lemma_noted_few(Op::Clear, Op::NotePassthrough(QUESTION_PREFIX));
    lemma_noted_few(Op::NotePassthrough('\n'), Op::Clear);
    assert(noted(seq![Op::Clear, Op::NotePassthrough(QUESTION_PREFIX)]) =~= seq![QUESTION_PREFIX]);
    lemma_noted_few(Op::Page(1), Op::Clear);
    if let Some((op, _)) = r.editing_op(event) {
        lemma_noted_few(op, Op::Clear);
    }
}

/// A later turn of a key that is no text key.
proof fn lemma_function_answer(r: Router, m: MoveView, event: KeyEvent, answer: AnswerView)
    requires
        !event.is_text(),
        waits_plainly(m),
        m.outcome matches OutcomeView::Ask(_, pending) && pending.event == event
            && pending.awaiting.fits(answer),
    ensures
        ({
            let pending = m.outcome->Ask_1;
            let next = r.resume_move(pending, answer);
            &&& waits_plainly(next)
            &&& text_of(next, own_text(event)) == said(answer, own_text(event)) + noted(next.ops)
        }),
{
    let pending = m.outcome->Ask_1;
    let next = r.resume_move(pending, answer);
    let spoken = said(answer, own_text(event));
    lemma_function_turn(r, event);
    lemma_noted_few(Op::NotePassthrough(QUESTION_PREFIX), Op::Clear);
    assert(noted(seq![]) == Seq::<char>::empty());
    assert(spoken + seq![] =~= spoken);
    assert(Seq::<char>::empty() + noted(next.ops) =~= noted(next.ops));
}

/// Text comes out in the order in which it was typed. However many turns a key takes, and whatever
/// the engine answers, what reaches the document once the key is settled is exactly what the engine
/// handed over and what it was told of as passing it by, each piece once and in the order in which
/// it arose.
pub proof fn law_text_keeps_order(
    router: Router,
    event: KeyEvent,
    engine: Snapshot,
    replies: Seq<Reply>,
)
    requires
        orderly(router, event, engine, replies),
    ensures
        text_of(run(router, event, engine, replies), own_text(event)) == transcript(
            router,
            event,
            engine,
            replies,
        ),
{
    lemma_text_keeps_order(router, event, engine, replies);
}

proof fn lemma_text_keeps_order(
    router: Router,
    event: KeyEvent,
    engine: Snapshot,
    replies: Seq<Reply>,
)
    requires
        orderly(router, event, engine, replies),
    ensures
        text_of(run(router, event, engine, replies), own_text(event)) == transcript(
            router,
            event,
            engine,
            replies,
        ),
        !event.is_text() ==> waits_plainly(run(router, event, engine, replies)),
    decreases replies.len(),
{
    let m = run(router, event, engine, replies);
    if replies.len() == 0 {
        if event.is_text() {
            lemma_key(router.seeing(engine), event, None);
        } else {
            lemma_function_turn(router.seeing(engine), event);
        }
        assert(owed(None) + noted(m.ops) =~= noted(m.ops));
    } else {
        let earlier = replies.drop_last();
        let seen = router.seeing(replies.last().engine);
        let answer = replies.last().answer;
        lemma_text_keeps_order(router, event, engine, earlier);
        lemma_run_coherent(router, event, engine, earlier);
        match run(router, event, engine, earlier).outcome {
            OutcomeView::Ask(ask, pending) => {
                assert(pending.awaiting.fits(answer));
                if event.is_text() {
                    law_answer_keeps_order(seen, pending, answer);
                } else {
                    lemma_function_answer(
                        seen,
                        run(router, event, engine, earlier),
                        event,
                        answer,
                    );
                    assert(owed(pending.before) =~= seq![]);
                    assert(transcript(router, event, engine, earlier) =~= seq![]);
                    assert(seq![] + said(answer, own_text(event)) =~= said(
                        answer,
                        own_text(event),
                    ));
                }
            },
            OutcomeView::Done(_) => {},
        }
    }
}

/// A key is settled after at most seven questions.
pub proof fn law_key_is_settled(
    router: Router,
    event: KeyEvent,
    engine: Snapshot,
    replies: Seq<Reply>,
)
    requires
        orderly(router, event, engine, replies),
        restarts_idle(router, event, engine, replies),
    ensures
        replies.len() <= 7,
        at_most(run(router, event, engine, replies), (7 - replies.len()) as nat),
    decreases replies.len(),
{
    if replies.len() == 0 {
        lemma_key_at_most(router.seeing(engine), event, None);
    } else {
        let earlier = replies.drop_last();
        law_key_is_settled(router, event, engine, earlier);
        lemma_run_coherent(router, event, engine, earlier);
        match run(router, event, engine, earlier).outcome {
            OutcomeView::Ask(_, pending) => {
                assert(pending.awaiting.fits(replies.last().answer));
                law_answers_make_progress(
                    router.seeing(replies.last().engine),
                    pending,
                    replies.last().answer,
                );
            },
            OutcomeView::Done(_) => {},
        }
    }
}

} // verus!
