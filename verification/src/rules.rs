//! The rules that a user can rely on, read off the dispatcher's decisions.

use crate::codes;
use crate::effect::EffectView;
use crate::key::KeyEvent;
use crate::request::{
    After, AnswerView, AskView, Awaiting, MoveView, Op, OutcomeView, PendingView,
};
use crate::router::{Router, QUESTION_PREFIX};
use crate::text;
use vstd::prelude::*;

verus! {

/// A console never gets a composition: whatever the engine is at, a character typed there is
/// committed as it is and noted, and nothing is put into the composition. Outside a composition
/// that is all the key does.
pub proof fn law_console_types_directly(r: Router, event: KeyEvent, before: Option<Seq<char>>)
    requires
        r.is_console_host(),
        event.is_text(),
    ensures
        r.unclaimed_move(event, before) == MoveView::settle(
            seq![Op::NotePassthrough(event.typed())],
            event,
            before,
            EffectView::Changed(Some(seq![event.typed()])),
        ),
        !r.is_composing() ==> r.key_move(event, before) == r.unclaimed_move(event, before),
{
}

/// A key held with Ctrl, Alt or a Windows key belongs to the application unless a shortcut claims
/// it: nothing is done to the engine.
pub proof fn law_command_keys_belong_to_the_application(r: Router, pending: PendingView)
    requires
        pending.event.modifiers.command(),
        pending.awaiting is Shortcut,
        pending.before is None,
    ensures
        r.resume_move(pending, AnswerView::Claimed(None)) == (MoveView {
            ops: seq![],
            outcome: OutcomeView::Done(EffectView::Passthrough),
        }),
        !r.is_composing() || r.engine.expression_mode || pending.event.digit_key is None
            ==> r.key_move(pending.event, None) == (MoveView {
            ops: seq![],
            outcome: OutcomeView::Done(EffectView::Passthrough),
        }),
{
}

/// Outside a composition the function keys belong to the application, and of them the engine hears
/// of the line break alone.
pub proof fn law_idle_function_keys_belong_to_the_application(r: Router, event: KeyEvent)
    requires
        !r.is_composing(),
        event.printable() is None,
    ensures
        r.key_move(event, None).outcome == OutcomeView::Done(EffectView::Passthrough),
        event.virtual_key == codes::RETURN && !event.modifiers.command() ==> r.key_move(
            event,
            None,
        ).ops == seq![Op::NotePassthrough('\n')],
        event.virtual_key != codes::RETURN || event.modifiers.command() ==> r.key_move(
            event,
            None,
        ).ops == Seq::<Op>::empty(),
{
}

/// A question mark typed into an empty composition opens a question where the engine takes it, in
/// Chinese and in English mode alike.
pub proof fn law_question_mark_opens_a_question(
    r: Router,
    event: KeyEvent,
    before: Option<Seq<char>>,
)
    requires
        !r.is_composing(),
        !r.is_console_host(),
        r.engine.takes_question_mark,
        event.is_text(),
        event.typed() == QUESTION_PREFIX,
    ensures
        r.key_move(event, before) == MoveView::settle(
            seq![Op::SetEnglishMode(false), Op::Push(QUESTION_PREFIX)],
            event,
            before,
            EffectView::Changed(None),
        ),
{
}

/// A lone question mark becomes text on any text key but a letter that goes on with the question:
/// it leaves the composition, and what follows it in the document is nothing for the space and the
/// key dispatched afresh for any other. On a function key other than Backspace and Esc it becomes
/// text too, and the key itself is taken.
pub proof fn law_lone_question_mark_becomes_text(
    r: Router,
    event: KeyEvent,
    before: Option<Seq<char>>,
)
    requires
        r.in_question(),
        r.engine.bare_question,
        !event.modifiers.command(),
    ensures
        event.is_text() && !r.is_console_host() && !text::lowercase_letter(
            Router::question_letter(event.typed(), event, true),
        ) ==> r.unclaimed_move(event, before) == r.restore_move(
            event,
            before,
            if event.typed() == ' ' {
                After::Finish
            } else {
                After::Restart
            },
        ),
        event.printable() is None && event.virtual_key != codes::BACK && event.virtual_key
            != codes::ESCAPE ==> r.unclaimed_move(event, before) == r.restore_move(
            event,
            before,
            After::Finish,
        ),
{
}

/// The restored question mark is committed ahead of the key: full-width where the mode at hand
/// wants that and the engine has it, else as it is and noted.
pub proof fn law_restored_mark_comes_first(
    r: Router,
    seen_later: Router,
    event: KeyEvent,
    mark: Seq<char>,
)
    ensures
        ({
            let waiting = PendingView {
                event,
                before: None,
                awaiting: Awaiting::Mark(After::Restart),
            };
            let plain = PendingView {
                event,
                before: Some(seq![QUESTION_PREFIX]),
                awaiting: Awaiting::Restart,
            };
            let full = PendingView { before: Some(mark), ..plain };
            let asked = r.restore_move(event, None, After::Restart);
            &&& r.is_full_width(event.modifiers.types_english()) ==> asked == (MoveView {
                ops: seq![Op::Clear],
                outcome: OutcomeView::Ask(AskView::Punctuate(QUESTION_PREFIX), waiting),
            })
            &&& !r.is_full_width(event.modifiers.types_english()) ==> asked == (MoveView {
                ops: seq![Op::Clear, Op::NotePassthrough(QUESTION_PREFIX)],
                outcome: OutcomeView::Ask(AskView::Observe, plain),
            })
            &&& seen_later.resume_move(waiting, AnswerView::Choice(Some(mark)))
                == (MoveView { ops: seq![], outcome: OutcomeView::Ask(AskView::Observe, full) })
            &&& seen_later.resume_move(waiting, AnswerView::Choice(None)) == (MoveView {
                ops: seq![Op::NotePassthrough(QUESTION_PREFIX)],
                outcome: OutcomeView::Ask(AskView::Observe, plain),
            })
        }),
{
}

/// Esc drops the auxiliary code and keeps the composition; without an auxiliary code it drops the
/// composition.
pub proof fn law_escape_drops_the_code_first(r: Router, event: KeyEvent)
    requires
        r.is_composing(),
        event.virtual_key == codes::ESCAPE,
        event.printable() is None,
        !event.modifiers.command(),
    ensures
        r.unclaimed_move(event, None) == (MoveView {
            ops: if r.engine.in_aux {
                seq![Op::ClearAux]
            } else {
                seq![Op::Clear]
            },
            outcome: OutcomeView::Done(EffectView::Changed(None)),
        }),
{
}

/// Caps Lock types plain English: a letter is committed as it is and noted, behind the composition
/// as typed where there is one, and never gets candidates.
pub proof fn law_caps_types_plain_english(
    r: Router,
    seen_later: Router,
    event: KeyEvent,
    raw: Seq<char>,
)
    requires
        event.modifiers.caps,
        text::letter(event.typed()),
    ensures
        ({
            let c = event.typed();
            let waiting = PendingView {
                event,
                before: None,
                awaiting: Awaiting::Text(After::PlainEnglish),
            };
            &&& !r.offers_english(event)
            &&& !r.is_composing() ==> r.mode_move(event, None, false) == (MoveView {
                ops: seq![Op::NotePassthrough(c)],
                outcome: OutcomeView::Done(EffectView::Changed(Some(seq![c]))),
            })
            &&& r.is_composing() ==> r.mode_move(event, None, false) == (MoveView {
                ops: seq![],
                outcome: OutcomeView::Ask(AskView::TakeRaw, waiting),
            })
            &&& seen_later.resume_move(waiting, AnswerView::Text(raw)) == (MoveView {
                ops: seq![Op::NotePassthrough(c)],
                outcome: OutcomeView::Done(EffectView::Changed(Some(raw + seq![c]))),
            })
        }),
{
    let c = event.typed();
    assert(Seq::<Op>::empty().push(Op::NotePassthrough(c)) =~= seq![Op::NotePassthrough(c)]);
}

/// The keypad never picks a candidate and never commits: inside a Chinese composition a keypad
/// digit or operator settles at once with nothing committed, and it joins the composition unless an
/// auxiliary code is begun or being typed. Whether the last syllable is finished does not matter.
pub proof fn law_keypad_never_picks(
    r: Router,
    event: KeyEvent,
    before: Option<Seq<char>>,
    question: bool,
)
    requires
        r.is_composing(),
        !event.modifiers.types_english(),
        event.keypad,
        !text::letter(event.typed()),
        event.typed() != ' ',
    ensures
        r.mode_move(event, before, question).outcome == MoveView::settle(
            seq![],
            event,
            before,
            EffectView::Changed(None),
        ).outcome,
        !r.engine.aux_trigger && !r.engine.in_aux ==> r.mode_move(event, before, question)
            == MoveView::buffer(event.typed(), event, before),
{
}

/// The key is typed in Chinese mode into plain pinyin: no expression, question, code point, Zhuyin,
/// literal text or auxiliary code.
pub open spec fn into_plain_pinyin(r: Router, event: KeyEvent) -> bool {
    &&& !event.modifiers.types_english()
    &&& r.is_composing()
    &&& !r.special_composition_takes(event.typed())
    &&& !r.engine.expression_mode
    &&& !r.engine.question_mode
    &&& !r.engine.zhuyin_mode
    &&& !r.engine.raw_mode
    &&& !r.engine.aux_trigger
    &&& !r.engine.in_aux
}

/// Inside plain pinyin a digit of the main row picks the candidate in its slot, whether or not the
/// last syllable is finished; where the page has no such slot the digit joins the composition. A
/// slot whose candidate has not arrived yet commits nothing.
pub proof fn law_main_digit_picks_or_joins(
    r: Router,
    seen_later: Router,
    event: KeyEvent,
    before: Option<Seq<char>>,
)
    requires
        into_plain_pinyin(r, event),
        !text::letter(event.typed()),
        !event.keypad,
        event.digit is Some,
    ensures
        match r.slot(event.digit->0 as int) {
            Some(index) => r.mode_move(event, before, false).outcome == OutcomeView::Ask(
                AskView::CommitIndex(index as usize),
                PendingView { event, before, awaiting: Awaiting::Slot },
            ),
            None => r.mode_move(event, before, false) == MoveView::buffer(
                event.typed(),
                event,
                before,
            ),
        },
        seen_later.resume_move(
            PendingView { event, before, awaiting: Awaiting::Slot },
            AnswerView::Choice(None),
        ) == MoveView::settle(seq![], event, before, EffectView::Changed(None)),
{
}

/// Inside plain pinyin a symbol joins the composition while the last syllable is unfinished or the
/// composition already holds something foreign to pinyin; else it commits the highlighted candidate
/// and follows it. The apostrophe, which separates syllables, always joins.
pub proof fn law_symbol_joins_or_commits(
    r: Router,
    event: KeyEvent,
    before: Option<Seq<char>>,
)
    requires
        into_plain_pinyin(r, event),
        !text::letter(event.typed()),
        event.typed() != ' ',
        !event.keypad,
        event.digit is None,
        event.page_step is None,
    ensures
        r.mode_move(event, before, false) == (if event.typed() == '\'' || r.is_mixed()
            || !r.is_trailing_syllable_complete() {
            MoveView::buffer(event.typed(), event, before)
        } else {
            r.highlighted_move(event, before, After::Punctuate)
        }),
{
}

/// Punctuation behind a candidate makes one commit, the candidate first: with the candidate
/// `chosen` handed over, the key settles with `chosen` and the full-width `mark` that the engine
/// gives for it, or with `chosen` and the key's own character where it gives none or is not asked.
pub proof fn law_candidate_comes_before_punctuation(
    r: Router,
    seen_later: Router,
    event: KeyEvent,
    chosen: Seq<char>,
    mark: Seq<char>,
)
    ensures
        ({
            let c = event.typed();
            let waiting = PendingView {
                event,
                before: None,
                awaiting: Awaiting::Highlighted(After::Punctuate),
            };
            let asking = PendingView {
                event,
                before: Some(chosen),
                awaiting: Awaiting::Punctuation,
            };
            let halfwidth = MoveView {
                ops: seq![Op::NotePassthrough(c)],
                outcome: OutcomeView::Done(EffectView::Changed(Some(chosen + seq![c]))),
            };
            let full = MoveView {
                ops: seq![],
                outcome: OutcomeView::Done(EffectView::Changed(Some(chosen + mark))),
            };
            let next = r.resume_move(waiting, AnswerView::Choice(Some(chosen)));
            &&& event.keypad || !r.is_full_width(event.modifiers.types_english())
                ==> next == halfwidth
            &&& !event.keypad && r.is_full_width(event.modifiers.types_english()) ==> next
                == (MoveView {
                ops: seq![],
                outcome: OutcomeView::Ask(AskView::Punctuate(c), asking),
            })
            &&& seen_later.resume_move(asking, AnswerView::Choice(Some(mark))) == full
            &&& seen_later.resume_move(asking, AnswerView::Choice(None)) == halfwidth
        }),
{
    let c = event.typed();
    assert(Seq::<Op>::empty().push(Op::NotePassthrough(c)) =~= seq![Op::NotePassthrough(c)]);
}

/// A space behind literal text commits that text and the space in one piece: the candidate `whole`
/// where there is one, else the composition as typed.
pub proof fn law_space_commits_literal_text_whole(
    r: Router,
    seen_later: Router,
    event: KeyEvent,
    whole: Seq<char>,
)
    requires
        r.is_composing(),
        r.engine.raw_mode,
        !r.special_composition_takes(' '),
        !event.modifiers.types_english(),
        event.typed() == ' ',
    ensures
        r.mode_move(event, None, false) == r.highlighted_move(event, None, After::Pass),
        ({
            let waiting = PendingView {
                event,
                before: None,
                awaiting: Awaiting::Highlighted(After::Pass),
            };
            let raw = PendingView { awaiting: Awaiting::Text(After::Pass), ..waiting };
            let settled = MoveView {
                ops: seq![Op::NotePassthrough(' ')],
                outcome: OutcomeView::Done(EffectView::Changed(Some(whole + seq![' ']))),
            };
            &&& seen_later.resume_move(waiting, AnswerView::Choice(Some(whole))) == settled
            &&& seen_later.resume_move(waiting, AnswerView::Choice(None)).outcome
                == OutcomeView::Ask(AskView::TakeRaw, raw)
            &&& seen_later.resume_move(raw, AnswerView::Text(whole)) == settled
        }),
{
    assert(Seq::<Op>::empty().push(Op::NotePassthrough(' ')) =~= seq![Op::NotePassthrough(' ')]);
}

/// The characters of a series of keys, in order.
pub open spec fn typed_text(keys: Seq<KeyEvent>) -> Seq<char> {
    keys.map_values(|key: KeyEvent| key.typed())
}

/// A composition is taken literally while `keys` are typed: `seen[i]` is what the router sees
/// before the key at `i`, `seen.last()` what it sees after them all, and each key's character has
/// gone behind the composition.
pub open spec fn typed_literally(seen: Seq<Router>, keys: Seq<KeyEvent>) -> bool {
    &&& seen.len() == keys.len() + 1
    &&& forall|i: int|
        0 <= i < seen.len() ==> (#[trigger] seen[i]).is_composing() && seen[i].engine.raw_mode
    &&& forall|i: int| 0 <= i < keys.len() ==> text::graphic((#[trigger] keys[i]).typed())
    &&& forall|i: int|
        0 <= i < keys.len() ==> (#[trigger] seen[i + 1]).engine.composition@
            == seen[i].engine.composition@.push(keys[i].typed())
}

proof fn lemma_literal_composition(seen: Seq<Router>, keys: Seq<KeyEvent>)
    requires
        typed_literally(seen, keys),
    ensures
        seen.last().engine.composition@ == seen[0].engine.composition@ + typed_text(keys),
    decreases keys.len(),
{
    if keys.len() == 0 {
        assert(seen[0].engine.composition@ + typed_text(keys) =~= seen[0].engine.composition@);
    } else {
        let n = keys.len() - 1;
        let fewer = keys.drop_last();
        let earlier = seen.drop_last();
        assert forall|i: int| 0 <= i < fewer.len() implies (#[trigger] earlier[i
            + 1]).engine.composition@ == earlier[i].engine.composition@.push(
            fewer[i].typed(),
        ) by {
            assert(earlier[i + 1] == seen[i + 1]);
        }
        assert forall|i: int| 0 <= i < fewer.len() implies text::graphic(
            (#[trigger] fewer[i]).typed(),
        ) by {
            assert(fewer[i] == keys[i]);
        }
        lemma_literal_composition(earlier, fewer);
        assert(seen[n + 1].engine.composition@ == seen[n].engine.composition@.push(
            keys[n].typed(),
        ));
        assert(typed_text(keys) =~= typed_text(fewer).push(keys[n].typed()));
        assert((seen[0].engine.composition@ + typed_text(fewer)).push(keys[n].typed())
            =~= seen[0].engine.composition@ + typed_text(keys));
    }
}

/// Literal text comes out as it was typed. Once a composition is taken literally, every visible
/// ASCII character joins it and settles with nothing committed: no digit picks a candidate, no page
/// key turns a page. The space then commits what was composed, all those characters in the order
/// in which they were typed, and the space itself: as the candidate where there is one, else as the
/// composition is handed over. A key in Chinese mode that types no letter takes just this way.
pub proof fn law_literal_text_keeps_order(seen: Seq<Router>, keys: Seq<KeyEvent>, space: KeyEvent)
    requires
        typed_literally(seen, keys),
        !seen.last().special_composition_takes(' '),
        space.typed() == ' ',
    ensures
        forall|i: int|
            0 <= i < keys.len() ==> (#[trigger] seen[i]).printable_move(
                keys[i].typed(),
                keys[i],
                None,
            ) == (MoveView {
                ops: seq![Op::Push(keys[i].typed())],
                outcome: OutcomeView::Done(EffectView::Changed(None)),
            }),
        forall|i: int|
            0 <= i < keys.len() && !text::letter(keys[i].typed())
                && !keys[i].modifiers.types_english() ==> (#[trigger] seen[i]).mode_move(
                keys[i],
                None,
                false,
            ) == seen[i].printable_move(keys[i].typed(), keys[i], None),
        !space.modifiers.types_english() ==> seen.last().mode_move(space, None, false)
            == seen.last().printable_move(' ', space, None),
        ({
            let whole = seen.last().engine.composition@;
            let waiting = PendingView {
                event: space,
                before: None,
                awaiting: Awaiting::Highlighted(After::Pass),
            };
            let raw = PendingView { awaiting: Awaiting::Text(After::Pass), ..waiting };
            let settled = MoveView {
                ops: seq![Op::NotePassthrough(' ')],
                outcome: OutcomeView::Done(
                    EffectView::Changed(
                        Some(seen[0].engine.composition@ + typed_text(keys) + seq![' ']),
                    ),
                ),
            };
            &&& seen.last().printable_move(' ', space, None) == (MoveView {
                ops: seq![],
                outcome: OutcomeView::Ask(
                    AskView::CommitIndex(seen.last().engine.highlight),
                    waiting,
                ),
            })
            &&& forall|later: Router| #[trigger]
                later.resume_move(waiting, AnswerView::Choice(Some(whole))) == settled
            &&& forall|later: Router| #[trigger]
                later.resume_move(waiting, AnswerView::Choice(None)) == (MoveView {
                    ops: seq![],
                    outcome: OutcomeView::Ask(AskView::TakeRaw, raw),
                })
            &&& forall|later: Router| #[trigger]
                later.resume_move(raw, AnswerView::Text(whole)) == settled
        }),
{
    lemma_literal_composition(seen, keys);
    assert forall|i: int| 0 <= i < keys.len() implies (#[trigger] seen[i]).printable_move(
        keys[i].typed(),
        keys[i],
        None,
    ) == MoveView::buffer(keys[i].typed(), keys[i], None) by {
        assert(text::graphic(keys[i].typed()));
    }
    assert(Seq::<Op>::empty().push(Op::NotePassthrough(' ')) =~= seq![Op::NotePassthrough(' ')]);
}

/// A keypad key joins a Chinese composition and the next space brings the whole out: the engine,
/// once it has put the key's character behind the composition and takes the composition literally,
/// sees the space commit what was composed, the character and the space, in that order.
pub proof fn law_keypad_key_comes_out_in_place(
    r: Router,
    keypad_key: KeyEvent,
    later: Router,
    space: KeyEvent,
)
    requires
        r.is_composing(),
        !r.engine.aux_trigger,
        !r.engine.in_aux,
        !keypad_key.modifiers.types_english(),
        keypad_key.keypad,
        !text::letter(keypad_key.typed()),
        keypad_key.typed() != ' ',
        later.engine.composition@ == r.engine.composition@.push(keypad_key.typed()),
        later.engine.raw_mode,
        !later.special_composition_takes(' '),
        !space.modifiers.types_english(),
        space.typed() == ' ',
    ensures
        r.mode_move(keypad_key, None, false) == (MoveView {
            ops: seq![Op::Push(keypad_key.typed())],
            outcome: OutcomeView::Done(EffectView::Changed(None)),
        }),
        later.mode_move(space, None, false) == later.highlighted_move(space, None, After::Pass),
        later.resume_move(
            PendingView {
                event: space,
                before: None,
                awaiting: Awaiting::Highlighted(After::Pass),
            },
            AnswerView::Choice(Some(later.engine.composition@)),
        ).outcome == OutcomeView::Done(
            EffectView::Changed(
                Some(r.engine.composition@ + seq![keypad_key.typed()] + seq![' ']),
            ),
        ),
{
    law_keypad_never_picks(r, keypad_key, None, false);
    law_space_commits_literal_text_whole(later, later, space, later.engine.composition@);
    assert(r.engine.composition@.push(keypad_key.typed()) =~= r.engine.composition@ + seq![
        keypad_key.typed(),
    ]);
}

/// While an auxiliary code is typed, its trigger does nothing more, and a code that leaves no
/// candidate holds every other key that is neither a letter nor literal text: nothing is committed
/// and nothing changes.
pub proof fn law_aux_code_holds_keys(r: Router, event: KeyEvent, before: Option<Seq<char>>)
    requires
        !event.modifiers.types_english(),
        r.is_composing(),
        r.engine.in_aux,
        !r.engine.aux_trigger,
        !r.engine.raw_mode,
        !r.special_composition_takes(event.typed()),
        !text::letter(event.typed()),
        !r.zhuyin_key(event.typed()),
        event.typed() == r.settings.aux_code_key || (r.engine.aux_code@.len() > 0
            && r.engine.candidate_count == 0),
    ensures
        r.mode_move(event, before, false) == MoveView::settle(
            seq![],
            event,
            before,
            EffectView::Changed(None),
        ),
{
}

/// In English mode with candidates a digit picks the candidate in its slot, and joins the
/// composition as part of an identifier where the page has no such slot.
pub proof fn law_english_digit_picks_or_joins(
    r: Router,
    event: KeyEvent,
    before: Option<Seq<char>>,
)
    requires
        r.is_composing(),
        r.offers_english(event),
        text::digit_character(event.typed()),
    ensures
        r.mode_move(event, before, false) == (if event.digit is Some && r.slot(
            event.digit->0 as int,
        ) is Some {
            r.pick_move(event, before, event.digit->0)
        } else {
            MoveView::buffer(event.typed(), event, before)
        }),
{
}

/// Outside a composition, Chinese mode hands a character that it does not convert to the
/// application and tells the engine: where punctuation is half-width, on the keypad, and where the
/// engine has no full-width text for it.
pub proof fn law_unconverted_characters_pass(r: Router, seen_later: Router, event: KeyEvent)
    requires
        !r.is_composing(),
        !event.modifiers.types_english(),
        !text::letter(event.typed()),
        !r.zhuyin_key(event.typed()),
    ensures
        ({
            let c = event.typed();
            let passed = MoveView {
                ops: seq![Op::NotePassthrough(c)],
                outcome: OutcomeView::Done(EffectView::Passthrough),
            };
            let waiting = PendingView { event, before: None, awaiting: Awaiting::Punctuation };
            &&& event.keypad || !r.is_full_width(false) ==> r.mode_move(event, None, false)
                == passed
            &&& !event.keypad && r.is_full_width(false) ==> r.mode_move(event, None, false)
                == (MoveView {
                ops: seq![],
                outcome: OutcomeView::Ask(AskView::Punctuate(c), waiting),
            })
            &&& seen_later.resume_move(waiting, AnswerView::Choice(None)) == passed
        }),
{
    let c = event.typed();
    assert(Seq::<Op>::empty().push(Op::NotePassthrough(c)) =~= seq![Op::NotePassthrough(c)]);
}

/// A key that waits like this cannot end up with the application alone: text goes ahead of it, or
/// it is taken.
pub open spec fn kept(pending: PendingView) -> bool {
    pending.before is Some || !(pending.awaiting is Shortcut || pending.awaiting is Restart
        || pending.awaiting is Mode || pending.awaiting is Punctuation)
}

/// The move does not let the key through bare, now or later.
pub open spec fn keeps_key(m: MoveView) -> bool {
    match m.outcome {
        OutcomeView::Done(effect) => effect !is Passthrough,
        OutcomeView::Ask(_, pending) => kept(pending),
    }
}

/// Inside a composition the application never gets a bare text key, which would land ahead of the
/// composition's text: typed in either mode, such a key is taken.
pub proof fn law_composing_takes_text_keys(
    r: Router,
    event: KeyEvent,
    before: Option<Seq<char>>,
    question: bool,
)
    requires
        r.is_composing(),
    ensures
        keeps_key(r.mode_move(event, before, question)),
{
}

proof fn lemma_after_keeps(
    r: Router,
    ops: Seq<Op>,
    event: KeyEvent,
    before: Option<Seq<char>>,
    text: Seq<char>,
    after: After,
)
    ensures
        keeps_key(r.after_move(ops, event, before, text, after)),
{
}

proof fn lemma_text_ahead_keeps_dispatch(r: Router, event: KeyEvent, before: Option<Seq<char>>)
    requires
        before is Some,
    ensures
        keeps_key(r.unclaimed_move(event, before)),
        keeps_key(r.key_move(event, before)),
{
    lemma_after_keeps(
        r,
        seq![Op::Clear, Op::NotePassthrough('?')],
        event,
        before,
        seq!['?'],
        After::Finish,
    );
}

proof fn lemma_text_ahead_keeps_mode(
    r: Router,
    event: KeyEvent,
    before: Option<Seq<char>>,
    question: bool,
)
    requires
        before is Some,
    ensures
        keeps_key(r.mode_move(event, before, question)),
{
}

/// A key that cannot end up with the application alone stays so, whatever is answered.
pub proof fn law_kept_keys_stay_kept(r: Router, pending: PendingView, answer: AnswerView)
    requires
        kept(pending),
        pending.awaiting.fits(answer),
    ensures
        keeps_key(r.resume_move(pending, answer)),
{
    let event = pending.event;
    let before = pending.before;
    match (pending.awaiting, answer) {
        (Awaiting::Shortcut, _) | (Awaiting::Restart, _) => {
            lemma_text_ahead_keeps_dispatch(r, event, before);
        },
        (Awaiting::Mode(question), _) => {
            lemma_text_ahead_keeps_mode(r, event, before, question);
        },
        (Awaiting::Mark(after), AnswerView::Choice(None)) => {
            lemma_after_keeps(r, seq![Op::NotePassthrough('?')], event, before, seq!['?'], after);
        },
        (Awaiting::Mark(after), AnswerView::Choice(Some(text))) | (
            Awaiting::Highlighted(after),
            AnswerView::Choice(Some(text)),
        ) | (Awaiting::Text(after), AnswerView::Text(text)) => {
            lemma_after_keeps(r, seq![], event, before, text, after);
        },
        _ => {},
    }
}

/// A question about a character is typed in small letters, even where the key types capitals.
pub proof fn law_question_letters_are_small(
    r: Router,
    event: KeyEvent,
    before: Option<Seq<char>>,
)
    requires
        event.modifiers.types_english(),
        text::letter(event.typed()),
    ensures
        r.mode_move(event, before, true).outcome == OutcomeView::Ask(
            AskView::PushAuxCode(text::lowered(event.typed())),
            PendingView {
                event,
                before,
                awaiting: Awaiting::AuxCode(text::lowered(event.typed())),
            },
        ),
        text::lowercase_letter(text::lowered(event.typed())),
{
}

/// The slots of a page are candidates of that page: a digit's slot lies on the page of the
/// highlight and holds a candidate, no two digits share a slot, and a highlighted candidate has the
/// slot of its place on the page.
pub proof fn law_slots_lie_on_the_page(r: Router, digit: int, other: int)
    requires
        r.well_formed(),
        digit >= 1,
        other >= 1,
    ensures
        r.slot(digit) matches Some(index) ==> {
            &&& 0 <= index < r.engine.candidate_count
            &&& index / r.settings.page_size as int == r.engine.highlight as int
                / r.settings.page_size as int
        },
        r.slot(digit) is Some && r.slot(digit) == r.slot(other) ==> digit == other,
        r.engine.highlight < r.engine.candidate_count ==> r.slot(
            r.engine.highlight as int % r.settings.page_size as int + 1,
        ) == Some(r.engine.highlight as int),
{
    let size = r.settings.page_size as int;
    let highlight = r.engine.highlight as int;
    vstd::arithmetic::div_mod::lemma_fundamental_div_mod(highlight, size);
    vstd::arithmetic::mul::lemma_mul_is_commutative(highlight / size, size);
    if let Some(index) = r.slot(digit) {
        vstd::arithmetic::mul::lemma_mul_nonnegative(highlight / size, size);
        vstd::arithmetic::div_mod::lemma_fundamental_div_mod_converse(
            index,
            size,
            highlight / size,
            digit - 1,
        );
    }
}

} // verus!
