//! What each key comes to, told by what the router sees and what the key is.
//!
//! The laws here speak of the fields of the snapshot, the settings and the key, of the operations
//! and of the outcome, each written out.

use crate::effect::EffectView;
use crate::key::KeyEvent;
use crate::request::{
    After, AnswerView, AskView, Awaiting, MoveView, Op, OutcomeView, PendingView,
};
use crate::router::{Router, Snapshot};
use vstd::prelude::*;

verus! {

/// `a` to `z`.
pub open spec fn small(c: char) -> bool {
    'a' <= c <= 'z'
}

/// `A` to `Z`.
pub open spec fn capital(c: char) -> bool {
    'A' <= c <= 'Z'
}

/// `0` to `9`.
pub open spec fn figure(c: char) -> bool {
    '0' <= c <= '9'
}

/// `!` to `~`.
pub open spec fn visible(c: char) -> bool {
    '!' <= c <= '~'
}

/// Caps Lock is lit or English mode is on.
pub open spec fn english(event: KeyEvent) -> bool {
    event.modifiers.caps || event.modifiers.english_mode
}

/// Ctrl, Alt or a Windows key is held.
pub open spec fn commanded(event: KeyEvent) -> bool {
    event.modifiers.ctrl || event.modifiers.alt || event.modifiers.win
}

/// The key types nothing printable: no character, or one below the space or from DEL to U+009F.
pub open spec fn textless(event: KeyEvent) -> bool {
    match event.character {
        Some(c) => (c as u32) < 32 || 127 <= (c as u32) <= 159,
        None => true,
    }
}

/// The character of the key, NUL for a key without one.
pub open spec fn own(event: KeyEvent) -> char {
    match event.character {
        Some(c) => c,
        None => '\0',
    }
}

/// Punctuation is full-width for this key.
pub open spec fn full(r: Router, event: KeyEvent) -> bool {
    if english(event) {
        r.settings.english_full_width
    } else {
        r.settings.full_width
    }
}

/// The key gets English candidates.
pub open spec fn completes(r: Router, event: KeyEvent) -> bool {
    event.modifiers.english_mode && !event.modifiers.caps && r.settings.english_candidates
}

/// Something is composed.
pub open spec fn busy(r: Router) -> bool {
    r.engine.composition@.len() > 0
}

/// The candidate `digit` places into the page of the highlight, counted from one.
pub open spec fn nth_on_page(r: Router, digit: int) -> int {
    r.engine.highlight as int - r.engine.highlight as int % r.settings.page_size as int + digit - 1
}

/// The page of the highlight has that candidate.
pub open spec fn on_page(r: Router, digit: int) -> bool {
    digit <= r.settings.page_size && nth_on_page(r, digit) < r.engine.candidate_count
}

/// The composition holds a character that is neither `a` to `z` nor the apostrophe.
pub open spec fn mixed(r: Router) -> bool {
    exists|i: int|
        0 <= i < r.engine.composition@.len() && !small(#[trigger] r.engine.composition@[i])
            && r.engine.composition@[i] != '\''
}

/// The composition can be split into syllables, and every way to do so leaves the last unfinished.
pub open spec fn unfinished(r: Router) -> bool {
    busy(r) && match r.engine.segmentation {
        Some(ways) => forall|i: int| 0 <= i < ways@.len() ==> #[trigger] ways@[i],
        None => false,
    }
}

/// The small letter of a capital, any other character as it is.
pub open spec fn shrunk(c: char) -> char {
    if capital(c) {
        (c as u32 + 32) as char
    } else {
        c
    }
}

/// `conhost.exe`.
pub open spec fn console_name() -> Seq<char> {
    seq!['c', 'o', 'n', 'h', 'o', 's', 't', '.', 'e', 'x', 'e']
}

/// `a` is the character `b`, or its capital.
pub open spec fn alike(a: char, b: char) -> bool {
    a == b || (capital(a) && a as u32 + 32 == b as u32)
}

/// The focused application is called `conhost.exe`, in any case.
pub open spec fn in_console(r: Router) -> bool {
    match r.settings.focused_app {
        Some(app) => app@.len() == 11 && forall|i: int|
            0 <= i < 11 ==> alike(#[trigger] app@[i], console_name()[i]),
        None => false,
    }
}

/// The operations, then the key settled: with `effect` where nothing was committed before, else
/// with what was committed before, followed by what `effect` brings for a key that types `c`.
pub open spec fn settled(
    ops: Seq<Op>,
    before: Option<Seq<char>>,
    effect: EffectView,
    c: char,
) -> MoveView {
    MoveView {
        ops,
        outcome: OutcomeView::Done(
            match (before, effect) {
                (None, _) => effect,
                (Some(b), EffectView::Passthrough) => EffectView::Changed(Some(b.push(c))),
                (Some(b), EffectView::Changed(Some(t))) => EffectView::Changed(Some(b + t)),
                (Some(b), _) => EffectView::Changed(Some(b)),
            },
        ),
    }
}

/// The operations, then a question.
pub open spec fn asking(
    ops: Seq<Op>,
    ask: AskView,
    event: KeyEvent,
    before: Option<Seq<char>>,
    awaiting: Awaiting,
) -> MoveView {
    MoveView { ops, outcome: OutcomeView::Ask(ask, PendingView { event, before, awaiting }) }
}

/// `c` joins the composition and nothing is committed beyond what was before.
pub open spec fn joins(c: char, before: Option<Seq<char>>) -> MoveView {
    settled(seq![Op::Push(c)], before, EffectView::Changed(None), c)
}

/// Nothing happens and nothing is committed beyond what was before.
pub open spec fn swallowed(before: Option<Seq<char>>) -> MoveView {
    settled(seq![], before, EffectView::Changed(None), ' ')
}

/// The text committed before, and `more` behind it.
pub open spec fn behind(before: Option<Seq<char>>, more: Seq<char>) -> Seq<char> {
    match before {
        Some(b) => b + more,
        None => more,
    }
}

proof fn lemma_settled(event: KeyEvent)
    ensures
        forall|ops: Seq<Op>, before: Option<Seq<char>>, effect: EffectView| #[trigger]
            MoveView::settle(ops, event, before, effect) == settled(
                ops,
                before,
                effect,
                own(event),
            ),
        forall|op: Op| #[trigger] Seq::<Op>::empty().push(op) == seq![op],
{
    assert forall|ops: Seq<Op>, before: Option<Seq<char>>, effect: EffectView| #[trigger]
        MoveView::settle(ops, event, before, effect) == settled(
            ops,
            before,
            effect,
            own(event),
        ) by {
        if let Some(b) = before {
            assert(b + seq![own(event)] =~= b.push(own(event)));
            assert(b + Seq::<char>::empty() =~= b);
        }
    }
    assert forall|op: Op| #[trigger] Seq::<Op>::empty().push(op) == seq![op] by {
        assert(Seq::<Op>::empty().push(op) =~= seq![op]);
    }
}

proof fn lemma_page_start(r: Router)
    requires
        r.settings.page_size > 0,
    ensures
        r.page_start() == r.engine.highlight as int - r.engine.highlight as int
            % r.settings.page_size as int,
{
    let size = r.settings.page_size as int;
    let highlight = r.engine.highlight as int;
    vstd::arithmetic::div_mod::lemma_fundamental_div_mod(highlight, size);
    vstd::arithmetic::mul::lemma_mul_is_commutative(highlight / size, size);
}

/// The slots of a page count up from its first candidate: the slot of a digit is that many places
/// into the page of the highlight, it exists exactly if the page is that long and the candidates
/// reach that far, and the slot of the next digit is the next candidate.
pub proof fn law_slots_count_up_from_the_page_start(r: Router, digit: int)
    requires
        r.settings.page_size > 0,
        digit >= 1,
    ensures
        r.slot(digit) == (if digit <= r.settings.page_size && r.engine.highlight as int
            - r.engine.highlight as int % r.settings.page_size as int + digit - 1
            < r.engine.candidate_count {
            Some(
                r.engine.highlight as int - r.engine.highlight as int % r.settings.page_size as int
                    + digit - 1,
            )
        } else {
            None
        }),
        r.slot(digit) matches Some(index) ==> index == (r.engine.highlight as int
            / r.settings.page_size as int) * r.settings.page_size as int + digit - 1,
        r.slot(digit) is Some && r.slot(digit + 1) is Some ==> r.slot(digit + 1)->0 == r.slot(
            digit,
        )->0 + 1,
        r.slot(1) is Some ==> (r.slot(1)->0) % r.settings.page_size as int == 0,
        r.slot(digit + 1) is Some ==> r.slot(digit) is Some,
{
    lemma_page_start(r);
    let size = r.settings.page_size as int;
    let highlight = r.engine.highlight as int;
    vstd::arithmetic::div_mod::lemma_mod_multiples_basic(highlight / size, size);
}

/// A character typed outside a composition is converted where punctuation is full-width and the key
/// is not on the keypad; else the application gets it and the engine is told.
pub proof fn law_punctuation_is_converted_or_passes(
    r: Router,
    ops: Seq<Op>,
    event: KeyEvent,
    before: Option<Seq<char>>,
)
    ensures
        !event.keypad && full(r, event) ==> r.punctuation_move(ops, event, before) == asking(
            ops,
            AskView::Punctuate(own(event)),
            event,
            before,
            Awaiting::Punctuation,
        ),
        event.keypad || !full(r, event) ==> r.punctuation_move(ops, event, before) == settled(
            ops.push(Op::NotePassthrough(own(event))),
            before,
            EffectView::Passthrough,
            own(event),
        ),
{
    lemma_settled(event);
}

/// Plain English commits a letter of either case as it is and tells the engine; any other character
/// is punctuation.
pub proof fn law_plain_english_commits_letters(
    r: Router,
    ops: Seq<Op>,
    event: KeyEvent,
    before: Option<Seq<char>>,
)
    ensures
        ({
            let c = own(event);
            let m = r.plain_english_move(ops, event, before);
            &&& small(c) || capital(c) ==> m == settled(
                ops.push(Op::NotePassthrough(c)),
                before,
                EffectView::Changed(Some(seq![c])),
                c,
            )
            &&& !small(c) && !capital(c) && !event.keypad && full(r, event) ==> m == asking(
                ops,
                AskView::Punctuate(c),
                event,
                before,
                Awaiting::Punctuation,
            )
            &&& !small(c) && !capital(c) && (event.keypad || !full(r, event)) ==> m == settled(
                ops.push(Op::NotePassthrough(c)),
                before,
                EffectView::Passthrough,
                c,
            )
        }),
{
    lemma_settled(event);
}

/// The highlighted candidate is asked for by the index of the highlight, and the composition as
/// typed is asked for as such; neither does anything to the engine first.
pub proof fn law_commits_ask_first(
    r: Router,
    event: KeyEvent,
    before: Option<Seq<char>>,
    after: After,
)
    ensures
        r.highlighted_move(event, before, after) == (MoveView {
            ops: seq![],
            outcome: OutcomeView::Ask(
                AskView::CommitIndex(r.engine.highlight),
                PendingView { event, before, awaiting: Awaiting::Highlighted(after) },
            ),
        }),
        Router::raw_move(event, before, after) == (MoveView {
            ops: seq![],
            outcome: OutcomeView::Ask(
                AskView::TakeRaw,
                PendingView { event, before, awaiting: Awaiting::Text(after) },
            ),
        }),
{
}

/// A text that was handed over goes behind what was committed before, and the key behind the text:
/// nothing, its converted character, its own character, or whatever the key comes to afresh.
pub proof fn law_handed_text_goes_ahead_of_the_key(
    r: Router,
    ops: Seq<Op>,
    event: KeyEvent,
    before: Option<Seq<char>>,
    text: Seq<char>,
    question: bool,
)
    ensures
        ({
            let c = own(event);
            let so_far = Some(behind(before, text));
            let converts = !event.keypad && full(r, event);
            let passes = settled(
                ops.push(Op::NotePassthrough(c)),
                so_far,
                EffectView::Passthrough,
                c,
            );
            let converting = asking(
                ops,
                AskView::Punctuate(c),
                event,
                so_far,
                Awaiting::Punctuation,
            );
            &&& r.after_move(ops, event, before, text, After::Finish) == (MoveView {
                ops,
                outcome: OutcomeView::Done(EffectView::Changed(so_far)),
            })
            &&& r.after_move(ops, event, before, text, After::Pass) == passes
            &&& r.after_move(ops, event, before, text, After::Punctuate) == (if converts {
                converting
            } else {
                passes
            })
            &&& r.after_move(ops, event, before, text, After::PlainEnglish) == (if small(c)
                || capital(c) {
                settled(
                    ops.push(Op::NotePassthrough(c)),
                    so_far,
                    EffectView::Changed(Some(seq![c])),
                    c,
                )
            } else if converts {
                converting
            } else {
                passes
            })
            &&& r.after_move(ops, event, before, text, After::Mode(question)) == asking(
                ops.push(Op::SetEnglishMode(completes(r, event) && !question)),
                AskView::Observe,
                event,
                so_far,
                Awaiting::Mode(question),
            )
            &&& r.after_move(ops, event, before, text, After::Restart) == asking(
                ops,
                AskView::Observe,
                event,
                so_far,
                Awaiting::Restart,
            )
        }),
{
    lemma_settled(event);
}

/// The lone question mark leaves the composition. Where punctuation is full-width its converted
/// text is asked for; else the engine is told of the mark as it is, which is committed.
pub proof fn law_lone_mark_is_cleared_and_committed(
    r: Router,
    event: KeyEvent,
    before: Option<Seq<char>>,
    after: After,
)
    ensures
        full(r, event) ==> r.restore_move(event, before, after) == asking(
            seq![Op::Clear],
            AskView::Punctuate('?'),
            event,
            before,
            Awaiting::Mark(after),
        ),
        !full(r, event) ==> r.restore_move(event, before, After::Finish) == (MoveView {
            ops: seq![Op::Clear, Op::NotePassthrough('?')],
            outcome: OutcomeView::Done(EffectView::Changed(Some(behind(before, seq!['?'])))),
        }),
        !full(r, event) ==> r.restore_move(event, before, After::Restart) == asking(
            seq![Op::Clear, Op::NotePassthrough('?')],
            AskView::Observe,
            event,
            Some(behind(before, seq!['?'])),
            Awaiting::Restart,
        ),
        !full(r, event) ==> r.restore_move(event, before, after) == r.after_move(
            seq![Op::Clear, Op::NotePassthrough('?')],
            event,
            before,
            seq!['?'],
            after,
        ),
{
    lemma_settled(event);
}

/// English with candidates. Outside a composition a letter opens one and anything else is
/// punctuation. Inside one, a digit with a candidate on the page picks it. Any other letter of
/// either case, digit, underscore, apostrophe or hyphen joins; a page key turns pages; a space
/// commits the highlighted candidate and any other character the composition as typed, and is then
/// punctuation.
pub proof fn law_english_with_candidates(r: Router, event: KeyEvent, before: Option<Seq<char>>)
    requires
        r.settings.page_size > 0,
        event.digit is Some ==> event.digit->0 >= 1,
    ensures
        ({
            let c = own(event);
            let m = r.english_move(event, before, true);
            let letter = small(c) || capital(c);
            let joining = letter || figure(c) || c == '_' || c == '\'' || c == '-';
            let picks = event.digit is Some && on_page(r, event.digit->0 as int);
            &&& completes(r, event) ==> r.resume_move(
                PendingView { event, before, awaiting: Awaiting::Mode(false) },
                AnswerView::Observed,
            ) == m
            &&& !busy(r) && letter ==> m == joins(c, before)
            &&& !busy(r) && !letter && !event.keypad && full(r, event) ==> m == asking(
                seq![],
                AskView::Punctuate(c),
                event,
                before,
                Awaiting::Punctuation,
            )
            &&& !busy(r) && !letter && (event.keypad || !full(r, event)) ==> m == settled(
                seq![Op::NotePassthrough(c)],
                before,
                EffectView::Passthrough,
                c,
            )
            &&& busy(r) && picks ==> m == asking(
                seq![],
                AskView::CommitIndex(nth_on_page(r, event.digit->0 as int) as usize),
                event,
                before,
                Awaiting::Slot,
            )
            &&& busy(r) && !picks && joining ==> m == joins(c, before)
            &&& busy(r) && !picks && !joining && event.page_step is Some ==> m == settled(
                seq![Op::Page(event.page_step->0)],
                before,
                EffectView::Navigated,
                c,
            )
            &&& busy(r) && !picks && event.page_step is None && c == ' ' ==> m == asking(
                seq![],
                AskView::CommitIndex(r.engine.highlight),
                event,
                before,
                Awaiting::Highlighted(After::Punctuate),
            )
            &&& busy(r) && !picks && !joining && event.page_step is None && c != ' ' ==> m
                == asking(
                seq![],
                AskView::TakeRaw,
                event,
                before,
                Awaiting::Text(After::Punctuate),
            )
        }),
{
    lemma_settled(event);
    if event.digit is Some {
        law_slots_count_up_from_the_page_start(r, event.digit->0 as int);
    }
}

/// English without candidates, which Caps Lock types too. Inside a composition the composition is
/// asked for as typed and the key goes behind it; outside one a letter is committed as it is and
/// anything else is punctuation.
pub proof fn law_english_without_candidates(r: Router, event: KeyEvent, before: Option<Seq<char>>)
    ensures
        ({
            let c = own(event);
            let m = r.english_move(event, before, false);
            let letter = small(c) || capital(c);
            &&& english(event) && !completes(r, event) ==> r.resume_move(
                PendingView { event, before, awaiting: Awaiting::Mode(false) },
                AnswerView::Observed,
            ) == m
            &&& busy(r) ==> m == asking(
                seq![],
                AskView::TakeRaw,
                event,
                before,
                Awaiting::Text(After::PlainEnglish),
            )
            &&& !busy(r) && letter ==> m == settled(
                seq![Op::NotePassthrough(c)],
                before,
                EffectView::Changed(Some(seq![c])),
                c,
            )
            &&& !busy(r) && !letter && !event.keypad && full(r, event) ==> m == asking(
                seq![],
                AskView::Punctuate(c),
                event,
                before,
                Awaiting::Punctuation,
            )
            &&& !busy(r) && !letter && (event.keypad || !full(r, event)) ==> m == settled(
                seq![Op::NotePassthrough(c)],
                before,
                EffectView::Passthrough,
                c,
            )
        }),
{
    lemma_settled(event);
}

/// The composition is mixed from its first foreign character on: an empty one is not, and one more
/// character makes or leaves it mixed exactly if it is foreign or the composition was mixed.
pub proof fn law_mixed_from_the_first_foreign_character(r: Router, longer: Router, c: char)
    requires
        longer.engine.composition@ == r.engine.composition@.push(c),
    ensures
        r.is_mixed() == mixed(r),
        !busy(r) ==> !r.is_mixed(),
        longer.is_mixed() == (r.is_mixed() || !('a' <= c <= 'z' || c == '\'')),
{
    lemma_mixed(r);
    lemma_mixed(longer);
    let n = r.engine.composition@.len() as int;
    assert(longer.engine.composition@[n] == c);
    if mixed(r) {
        let i = choose|i: int|
            0 <= i < r.engine.composition@.len() && !small(#[trigger] r.engine.composition@[i])
                && r.engine.composition@[i] != '\'';
        assert(longer.engine.composition@[i] == r.engine.composition@[i]);
    }
    if mixed(longer) {
        let i = choose|i: int|
            0 <= i < longer.engine.composition@.len() && !small(
                #[trigger] longer.engine.composition@[i],
            ) && longer.engine.composition@[i] != '\'';
        assert(i < n ==> longer.engine.composition@[i] == r.engine.composition@[i]);
    }
}

proof fn lemma_mixed(r: Router)
    ensures
        r.is_mixed() == mixed(r),
{
    if r.is_mixed() {
        let i = choose|i: int|
            0 <= i < r.engine.composition@.len() && crate::router::foreign_to_pinyin(
                #[trigger] r.engine.composition@[i],
            );
        assert(!small(r.engine.composition@[i]));
    }
    if mixed(r) {
        let i = choose|i: int|
            0 <= i < r.engine.composition@.len() && !small(#[trigger] r.engine.composition@[i])
                && r.engine.composition@[i] != '\'';
        assert(crate::router::foreign_to_pinyin(r.engine.composition@[i]));
    }
}

/// The last syllable counts as finished unless the composition can be split and every way to split
/// it leaves that syllable unfinished.
pub proof fn law_last_syllable_is_finished_somehow(r: Router)
    ensures
        r.is_trailing_syllable_complete() == !unfinished(r),
{
    if let Some(ways) = r.engine.segmentation {
        if ways@.contains(false) {
            let i = choose|i: int| 0 <= i < ways@.len() && ways@[i] == false;
            assert(!ways@[i]);
        } else {
            assert forall|i: int| 0 <= i < ways@.len() implies #[trigger] ways@[i] by {
                if !ways@[i] {
                    assert(ways@[i] == false);
                    assert(ways@.contains(false));
                }
            }
        }
    }
}

/// The console is known by its name alone, whatever the case of its letters.
pub proof fn law_console_is_known_by_its_name(r: Router)
    ensures
        r.is_console_host() == in_console(r),
{
    reveal_strlit("conhost.exe");
    let name = console_name();
    assert("conhost.exe"@ =~= name);
    if let Some(app) = r.settings.focused_app {
        let low = crate::text::lowered_text(app@);
        if r.is_console_host() {
            assert forall|i: int| 0 <= i < 11 implies alike(#[trigger] app@[i], name[i]) by {
                assert(low[i] == crate::text::lowered(app@[i]));
            }
        }
        if in_console(r) {
            assert forall|i: int| 0 <= i < 11 implies #[trigger] low[i] == name[i] by {
                assert(alike(app@[i], name[i]));
                assert(!capital(name[i]));
            }
            assert(low =~= name);
        }
    }
}

/// Chinese mode, for a letter or a Zhuyin key. A small letter is offered to the auxiliary code. A
/// capital joins where capitals compose, ending an auxiliary code, and else goes to the application
/// behind the composition as typed. A Zhuyin key joins. A question typed in English mode gets its
/// capitals as small letters.
pub proof fn law_chinese_letters(
    r: Router,
    c: char,
    event: KeyEvent,
    before: Option<Seq<char>>,
    question: bool,
)
    ensures
        ({
            let m = r.chinese_move(c, event, before);
            let zhuyin = r.engine.zhuyin_mode && (figure(c) || c == '-' || c == ';' || c == ','
                || c == '.' || c == '/');
            &&& (!english(event) || question) && c == (if question && english(event) {
                shrunk(own(event))
            } else {
                own(event)
            }) ==> r.resume_move(
                PendingView { event, before, awaiting: Awaiting::Mode(question) },
                AnswerView::Observed,
            ) == m
            &&& small(c) ==> m == asking(
                seq![],
                AskView::PushAuxCode(c),
                event,
                before,
                Awaiting::AuxCode(c),
            )
            &&& capital(c) && r.settings.shift_letter_compose && r.engine.in_aux ==> m == settled(
                seq![Op::ClearAux, Op::Push(c)],
                before,
                EffectView::Changed(None),
                c,
            )
            &&& capital(c) && r.settings.shift_letter_compose && !r.engine.in_aux ==> m == joins(
                c,
                before,
            )
            &&& capital(c) && !r.settings.shift_letter_compose && busy(r) ==> m == asking(
                seq![],
                AskView::TakeRaw,
                event,
                before,
                Awaiting::Text(After::Pass),
            )
            &&& capital(c) && !r.settings.shift_letter_compose && !busy(r) ==> m == settled(
                seq![Op::NotePassthrough(own(event))],
                before,
                EffectView::Passthrough,
                own(event),
            )
            &&& zhuyin ==> m == joins(c, before)
        }),
{
    lemma_settled(event);
}

/// Chinese mode, for a character that is neither a letter nor a Zhuyin key: outside a composition it
/// is punctuation, inside one it is a printable key of the composition.
pub proof fn law_chinese_symbols(
    r: Router,
    event: KeyEvent,
    before: Option<Seq<char>>,
    question: bool,
)
    requires
        !small(own(event)) && !capital(own(event)),
        !(r.engine.zhuyin_mode && (figure(own(event)) || own(event) == '-' || own(event) == ';'
            || own(event) == ',' || own(event) == '.' || own(event) == '/')),
    ensures
        ({
            let c = own(event);
            let m = r.chinese_move(c, event, before);
            &&& !english(event) || question ==> r.resume_move(
                PendingView { event, before, awaiting: Awaiting::Mode(question) },
                AnswerView::Observed,
            ) == m
            &&& busy(r) ==> m == r.printable_move(c, event, before)
            &&& !busy(r) && !event.keypad && full(r, event) ==> m == asking(
                seq![],
                AskView::Punctuate(c),
                event,
                before,
                Awaiting::Punctuation,
            )
            &&& !busy(r) && (event.keypad || !full(r, event)) ==> m == settled(
                seq![Op::NotePassthrough(c)],
                before,
                EffectView::Passthrough,
                c,
            )
        }),
{
    lemma_settled(event);
}

/// An expression, a code point or a scheme that types the semicolon takes the key for itself.
pub open spec fn specially_taken(r: Router, c: char) -> bool {
    ||| r.engine.expression_mode && r.engine.expression_char
    ||| r.engine.unicode_entry && (figure(c) || c == '+')
    ||| c == ';' && r.engine.takes_semicolon
}

/// The composition is literal text and the key a visible character or a space.
pub open spec fn literally_taken(r: Router, c: char) -> bool {
    r.engine.raw_mode && (visible(c) || c == ' ')
}

/// The auxiliary code lets nothing happen: its own key once more, or a code without candidates.
pub open spec fn held_by_code(r: Router, c: char) -> bool {
    r.engine.in_aux && (c == r.settings.aux_code_key || (r.engine.aux_code@.len() > 0
        && r.engine.candidate_count == 0))
}

/// The key is a digit that picks in Chinese mode.
pub open spec fn picks_by_digit(r: Router, event: KeyEvent) -> bool {
    event.digit is Some && !event.keypad && (!r.engine.zhuyin_mode || r.engine.navigated)
}

/// Nothing special, literal or auxiliary has a claim on the key.
pub open spec fn unclaimed_text(r: Router, c: char) -> bool {
    !specially_taken(r, c) && !literally_taken(r, c) && !r.engine.aux_trigger && !held_by_code(r, c)
}

/// A printable key that a special composition, literal text or an auxiliary code has a claim on: it
/// joins the special composition or the literal text, begins the code, or does nothing. The space
/// commits literal text and goes behind it.
pub proof fn law_printable_keys_with_a_claim(r: Router, event: KeyEvent, before: Option<Seq<char>>)
    ensures
        ({
            let c = own(event);
            let m = r.printable_move(c, event, before);
            &&& specially_taken(r, c) ==> m == joins(c, before)
            &&& !specially_taken(r, c) && r.engine.raw_mode && visible(c) ==> m == joins(c, before)
            &&& !specially_taken(r, c) && r.engine.raw_mode && c == ' ' ==> m == asking(
                seq![],
                AskView::CommitIndex(r.engine.highlight),
                event,
                before,
                Awaiting::Highlighted(After::Pass),
            )
            &&& !specially_taken(r, c) && !literally_taken(r, c) && r.engine.aux_trigger ==> m
                == settled(seq![Op::EnterAux], before, EffectView::Changed(None), c)
            &&& !specially_taken(r, c) && !literally_taken(r, c) && !r.engine.aux_trigger
                && held_by_code(r, c) ==> m == swallowed(before)
        }),
{
    lemma_settled(event);
}

/// A printable key that nothing has a claim on and that picks, is on the keypad, or turns pages. A
/// digit picks the candidate that many places into the page; without one there it joins, or in a
/// question does nothing. The keypad joins. A page key turns pages.
pub proof fn law_printable_digits_and_page_keys(
    r: Router,
    event: KeyEvent,
    before: Option<Seq<char>>,
)
    requires
        r.settings.page_size > 0,
        event.digit is Some ==> event.digit->0 >= 1,
        unclaimed_text(r, own(event)),
    ensures
        ({
            let c = own(event);
            let m = r.printable_move(c, event, before);
            let digit = event.digit->0 as int;
            &&& picks_by_digit(r, event) && on_page(r, digit) ==> m == asking(
                seq![],
                AskView::CommitIndex(nth_on_page(r, digit) as usize),
                event,
                before,
                Awaiting::Slot,
            )
            &&& picks_by_digit(r, event) && !on_page(r, digit) && r.engine.question_mode ==> m
                == swallowed(before)
            &&& picks_by_digit(r, event) && !on_page(r, digit) && !r.engine.question_mode ==> m
                == joins(c, before)
            &&& event.keypad ==> m == joins(c, before)
            &&& !picks_by_digit(r, event) && !event.keypad && event.page_step is Some ==> m
                == settled(
                seq![Op::Page(event.page_step->0)],
                before,
                EffectView::Navigated,
                c,
            )
        }),
{
    lemma_settled(event);
    if event.digit is Some {
        law_slots_count_up_from_the_page_start(r, event.digit->0 as int);
    }
}

/// Any other printable key. The space finishes a syllable that waits for its tone, and else commits
/// the highlighted candidate. A symbol commits the highlighted candidate and goes behind it while
/// an auxiliary code is typed; the apostrophe else joins; any other symbol commits in an expression
/// and in a question, and joins else exactly if the composition is mixed or its last syllable
/// unfinished.
pub proof fn law_printable_space_and_symbols(r: Router, event: KeyEvent, before: Option<Seq<char>>)
    requires
        unclaimed_text(r, own(event)),
        !picks_by_digit(r, event),
        !event.keypad,
        event.page_step is None,
    ensures
        ({
            let c = own(event);
            let m = r.printable_move(c, event, before);
            let commits = asking(
                seq![],
                AskView::CommitIndex(r.engine.highlight),
                event,
                before,
                Awaiting::Highlighted(After::Punctuate),
            );
            &&& c == ' ' && r.engine.zhuyin_needs_tone ==> m == joins(' ', before)
            &&& c == ' ' && !r.engine.zhuyin_needs_tone ==> m == asking(
                seq![],
                AskView::CommitIndex(r.engine.highlight),
                event,
                before,
                Awaiting::Highlighted(After::Finish),
            )
            &&& c != ' ' && r.engine.in_aux ==> m == commits
            &&& c == '\'' && !r.engine.in_aux ==> m == joins(c, before)
            &&& c != ' ' && c != '\'' && !r.engine.in_aux && (r.engine.expression_mode
                || r.engine.question_mode) ==> m == commits
            &&& c != ' ' && c != '\'' && !r.engine.in_aux && !r.engine.expression_mode
                && !r.engine.question_mode ==> m == (if mixed(r) || unfinished(r) {
                joins(c, before)
            } else {
                commits
            })
        }),
{
    lemma_settled(event);
    lemma_mixed(r);
    law_last_syllable_is_finished_somehow(r);
}

/// Outside a composition a key without text goes to the application, and the engine is told of the
/// line break. A lone question mark becomes text on every such key but Backspace and Esc.
pub proof fn law_function_keys_when_idle_or_behind_a_lone_mark(
    r: Router,
    event: KeyEvent,
    before: Option<Seq<char>>,
)
    ensures
        ({
            let m = r.function_key_move(event, before);
            let key = event.virtual_key;
            let lone = busy(r) && r.engine.bare_question && key != 0x08 && key != 0x1B;
            &&& !busy(r) && key == 0x0D ==> m == settled(
                seq![Op::NotePassthrough('\n')],
                before,
                EffectView::Passthrough,
                own(event),
            )
            &&& !busy(r) && key != 0x0D ==> m == settled(
                seq![],
                before,
                EffectView::Passthrough,
                own(event),
            )
            &&& lone && full(r, event) ==> m == asking(
                seq![Op::Clear],
                AskView::Punctuate('?'),
                event,
                before,
                Awaiting::Mark(After::Finish),
            )
            &&& lone && !full(r, event) ==> m == (MoveView {
                ops: seq![Op::Clear, Op::NotePassthrough('?')],
                outcome: OutcomeView::Done(EffectView::Changed(Some(behind(before, seq!['?'])))),
            })
        }),
{
    lemma_settled(event);
}

/// Inside a composition that is no lone question mark, Enter commits it as typed, and under Zhuyin
/// without Shift as the highlighted candidate. Tab with Shift turns one page back; without Shift it
/// commits the highlighted candidate of English, accepts the sentence on offer, or turns a page.
pub proof fn law_enter_and_tab_inside_a_composition(
    r: Router,
    event: KeyEvent,
    before: Option<Seq<char>>,
)
    requires
        busy(r),
        !r.engine.bare_question,
    ensures
        ({
            let m = r.function_key_move(event, before);
            let key = event.virtual_key;
            let shift = event.modifiers.shift;
            let highlighted = asking(
                seq![],
                AskView::CommitIndex(r.engine.highlight),
                event,
                before,
                Awaiting::Highlighted(After::Finish),
            );
            &&& key == 0x0D && r.engine.zhuyin_mode && !shift ==> m == highlighted
            &&& key == 0x0D && (!r.engine.zhuyin_mode || shift) ==> m == asking(
                seq![],
                AskView::TakeRaw,
                event,
                before,
                Awaiting::Text(After::Finish),
            )
            &&& key == 0x09 && shift ==> m == settled(
                seq![Op::Page((-1) as i32)],
                before,
                EffectView::Navigated,
                own(event),
            )
            &&& key == 0x09 && !shift && r.engine.english_mode ==> m == highlighted
            &&& key == 0x09 && !shift && !r.engine.english_mode ==> m == (match r.sentence {
                Some(sentence) => asking(
                    seq![],
                    AskView::AcceptPrediction(sentence@),
                    event,
                    before,
                    Awaiting::Text(After::Finish),
                ),
                None => settled(
                    seq![Op::Page(1)],
                    before,
                    EffectView::Navigated,
                    own(event),
                ),
            })
        }),
{
    lemma_settled(event);
}

/// Inside a composition that is no lone question mark, or for the two keys that delete one: which
/// operation each editing key is, and that every other key goes to the application.
pub proof fn law_editing_keys_inside_a_composition(
    r: Router,
    event: KeyEvent,
    before: Option<Seq<char>>,
)
    requires
        busy(r),
        !r.engine.bare_question || event.virtual_key == 0x08 || event.virtual_key == 0x1B,
    ensures
        ({
            let m = r.function_key_move(event, before);
            let key = event.virtual_key;
            let c = own(event);
            let changed = EffectView::Changed(None);
            let moved = EffectView::Navigated;
            &&& key == 0x08 ==> m == settled(seq![Op::Backspace], before, changed, c)
            &&& key == 0x1B && r.engine.in_aux ==> m == settled(
                seq![Op::ClearAux],
                before,
                changed,
                c,
            )
            &&& key == 0x1B && !r.engine.in_aux ==> m == settled(
                seq![Op::Clear],
                before,
                changed,
                c,
            )
            &&& key == 0x21 ==> m == settled(seq![Op::Page((-1) as i32)], before, moved, c)
            &&& key == 0x22 ==> m == settled(seq![Op::Page(1)], before, moved, c)
            &&& key == 0x23 ==> m == settled(seq![Op::CursorEnd], before, changed, c)
            &&& key == 0x24 ==> m == settled(seq![Op::CursorHome], before, changed, c)
            &&& key == 0x25 ==> m == settled(seq![Op::CursorLeft], before, changed, c)
            &&& key == 0x26 ==> m == settled(
                seq![Op::MoveHighlight((-1) as i32)],
                before,
                moved,
                c,
            )
            &&& key == 0x27 ==> m == settled(seq![Op::CursorRight], before, changed, c)
            &&& key == 0x28 ==> m == settled(seq![Op::MoveHighlight(1)], before, moved, c)
            &&& key != 0x08 && key != 0x09 && key != 0x0D && key != 0x1B && !(0x21 <= key <= 0x28)
                ==> m == settled(seq![], before, EffectView::Passthrough, c)
        }),
{
    lemma_settled(event);
}

/// A character before its mode is set. A console gets it as it is. Outside a composition it may
/// open a question or a letter mode. Behind a lone question mark anything but a letter of the
/// question turns the mark into text, and all but the space is then dispatched afresh. English that
/// was completed and no longer is gets committed as typed. Else the engine's English mode is set:
/// on exactly if the key completes English and belongs to no question.
pub proof fn law_characters_before_their_mode(
    r: Router,
    c: char,
    event: KeyEvent,
    before: Option<Seq<char>>,
)
    ensures
        ({
            let m = r.character_move(c, event, before);
            let console = in_console(r);
            let opens = !busy(r) && ((c == '?' && r.engine.takes_question_mark) || (!english(event)
                && r.engine.takes_mode_letter));
            let question = busy(r) && r.engine.question_mode;
            let lone = question && r.engine.bare_question && !small(c) && !(english(event)
                && capital(c));
            let rest = !console && !opens && !lone;
            let stale = busy(r) && r.engine.english_mode && !completes(r, event);
            &&& console ==> m == settled(
                seq![Op::NotePassthrough(c)],
                before,
                EffectView::Changed(Some(seq![c])),
                c,
            )
            &&& !console && opens ==> m == settled(
                seq![Op::SetEnglishMode(false), Op::Push(c)],
                before,
                EffectView::Changed(None),
                c,
            )
            &&& !console && lone && full(r, event) ==> m == asking(
                seq![Op::Clear],
                AskView::Punctuate('?'),
                event,
                before,
                Awaiting::Mark(
                    if c == ' ' {
                        After::Finish
                    } else {
                        After::Restart
                    },
                ),
            )
            &&& !console && lone && !full(r, event) && c == ' ' ==> m == (MoveView {
                ops: seq![Op::Clear, Op::NotePassthrough('?')],
                outcome: OutcomeView::Done(EffectView::Changed(Some(behind(before, seq!['?'])))),
            })
            &&& !console && lone && !full(r, event) && c != ' ' ==> m == asking(
                seq![Op::Clear, Op::NotePassthrough('?')],
                AskView::Observe,
                event,
                Some(behind(before, seq!['?'])),
                Awaiting::Restart,
            )
            &&& rest && stale ==> m == asking(
                seq![],
                AskView::TakeRaw,
                event,
                before,
                Awaiting::Text(After::Mode(question)),
            )
            &&& rest && !stale ==> m == asking(
                seq![Op::SetEnglishMode(completes(r, event) && !question)],
                AskView::Observe,
                event,
                before,
                Awaiting::Mode(question),
            )
        }),
{
    lemma_settled(event);
    law_console_is_known_by_its_name(r);
}

/// The first turn of a key. Inside a composition that is no expression a digit key is asked for as a
/// shortcut first, with its digit and its modifiers. A key that no shortcut claims goes to the
/// application if a command key is held, and else by its printable character or as a function key.
/// A key that is dispatched afresh takes the same way.
pub proof fn law_keys_are_told_apart(r: Router, event: KeyEvent, before: Option<Seq<char>>)
    ensures
        ({
            let first = r.key_move(event, before);
            let unclaimed = r.resume_move(
                PendingView { event, before, awaiting: Awaiting::Shortcut },
                AnswerView::Claimed(None),
            );
            let shortcut = busy(r) && !r.engine.expression_mode && event.digit_key is Some;
            &&& shortcut ==> first == asking(
                seq![],
                AskView::DigitShortcut(event.digit_key->0, event.modifiers),
                event,
                before,
                Awaiting::Shortcut,
            )
            &&& !shortcut ==> first == unclaimed
            &&& r.resume_move(
                PendingView { event, before, awaiting: Awaiting::Restart },
                AnswerView::Observed,
            ) == first
            &&& commanded(event) ==> unclaimed == settled(
                seq![],
                before,
                EffectView::Passthrough,
                own(event),
            )
            &&& !commanded(event) && textless(event) ==> unclaimed == r.function_key_move(
                event,
                before,
            )
            &&& !commanded(event) && !textless(event) ==> unclaimed == r.character_move(
                own(event),
                event,
                before,
            )
        }),
{
    lemma_settled(event);
}

/// What an answer other than a mere look at the engine comes to: the effect of the shortcut; the
/// letter, which joins unless the auxiliary code took it; the converted text, or the character
/// itself; and the candidate of a digit, if there is one.
pub proof fn law_answers_settle_keys(
    r: Router,
    event: KeyEvent,
    before: Option<Seq<char>>,
    effect: EffectView,
    letter: char,
    text: Seq<char>,
)
    ensures
        ({
            let c = own(event);
            let shortcut = PendingView { event, before, awaiting: Awaiting::Shortcut };
            let code = PendingView { event, before, awaiting: Awaiting::AuxCode(letter) };
            let mark = PendingView { event, before, awaiting: Awaiting::Punctuation };
            let slot = PendingView { event, before, awaiting: Awaiting::Slot };
            &&& r.resume_move(shortcut, AnswerView::Claimed(Some(effect))) == settled(
                seq![],
                before,
                effect,
                c,
            )
            &&& r.resume_move(code, AnswerView::Taken(true)) == swallowed(before)
            &&& r.resume_move(code, AnswerView::Taken(false)) == joins(letter, before)
            &&& r.resume_move(mark, AnswerView::Choice(Some(text))) == settled(
                seq![],
                before,
                EffectView::Changed(Some(text)),
                c,
            )
            &&& r.resume_move(mark, AnswerView::Choice(None)) == settled(
                seq![Op::NotePassthrough(c)],
                before,
                EffectView::Passthrough,
                c,
            )
            &&& r.resume_move(slot, AnswerView::Choice(Some(text))) == settled(
                seq![],
                before,
                EffectView::Changed(Some(text)),
                c,
            )
            &&& r.resume_move(slot, AnswerView::Choice(None)) == swallowed(before)
        }),
{
    lemma_settled(event);
}

/// What a text that was asked for comes to: a candidate, the composition as typed and a converted
/// mark go on alike, with nothing done to the engine. Where there is no highlighted candidate the
/// composition is asked for as typed; where there is no converted mark the mark goes on as it is and
/// the engine is told.
pub proof fn law_answers_hand_text_over(
    r: Router,
    event: KeyEvent,
    before: Option<Seq<char>>,
    text: Seq<char>,
    after: After,
)
    ensures
        ({
            let highlighted = PendingView { event, before, awaiting: Awaiting::Highlighted(after) };
            let raw = PendingView { event, before, awaiting: Awaiting::Text(after) };
            let mark = PendingView { event, before, awaiting: Awaiting::Mark(after) };
            let on = r.after_move(seq![], event, before, text, after);
            &&& r.resume_move(highlighted, AnswerView::Choice(Some(text))) == on
            &&& r.resume_move(raw, AnswerView::Text(text)) == on
            &&& r.resume_move(mark, AnswerView::Choice(Some(text))) == on
            &&& r.resume_move(highlighted, AnswerView::Choice(None)) == (MoveView {
                ops: seq![],
                outcome: OutcomeView::Ask(AskView::TakeRaw, raw),
            })
            &&& r.resume_move(mark, AnswerView::Choice(None)) == r.after_move(
                seq![Op::NotePassthrough('?')],
                event,
                before,
                seq!['?'],
                after,
            )
        }),
{
}

/// The sentence on offer is used up by one key alone, a Tab without Shift and without a command key
/// in a Chinese composition that is no lone question mark, and only in the turn that acts on it.
pub proof fn law_only_tab_uses_the_sentence_up(
    r: Router,
    event: KeyEvent,
    before: Option<Seq<char>>,
    answer: AnswerView,
    awaiting: Awaiting,
)
    ensures
        ({
            let tab = event.virtual_key == 0x09 && !event.modifiers.shift && busy(r)
                && !r.engine.bare_question && !r.engine.english_mode;
            let uses = tab && !commanded(event) && textless(event);
            let shortcut = busy(r) && !r.engine.expression_mode && event.digit_key is Some;
            let pending = PendingView { event, before, awaiting };
            let after_answer = r.sentence_after_answer(pending, answer);
            &&& r.takes_sentence(event) == tab
            &&& r.sentence_after_key(event) == (if uses && !shortcut {
                None
            } else {
                r.sentence
            })
            &&& awaiting == Awaiting::Shortcut && answer == AnswerView::Claimed(None)
                ==> after_answer == (if uses {
                None
            } else {
                r.sentence
            })
            &&& awaiting == Awaiting::Restart ==> after_answer == r.sentence_after_key(event)
            &&& awaiting != Awaiting::Restart && !(awaiting == Awaiting::Shortcut && answer
                == AnswerView::Claimed(None)) ==> after_answer == r.sentence
        }),
{
}

/// A look at the engine replaces what was seen of it and nothing else.
pub proof fn law_looking_replaces_the_view_alone(r: Router, engine: Snapshot)
    ensures
        r.seeing(engine).engine == engine,
        r.seeing(engine).settings == r.settings,
        r.seeing(engine).sentence == r.sentence,
{
}

/// Inside a Chinese composition that is not literal text, the space commits the highlighted
/// candidate, whichever that is, unless a syllable waits for its tone, an auxiliary code is begun or
/// holds the key, or an expression takes it.
pub proof fn law_space_commits_the_highlight(
    r: Router,
    event: KeyEvent,
    before: Option<Seq<char>>,
    question: bool,
)
    requires
        r.engine.composition@.len() > 0,
        event.character == Some(' '),
        !event.modifiers.caps && !event.modifiers.english_mode,
        !event.keypad,
        event.digit is None,
        event.page_step is None,
        !r.engine.raw_mode,
        !r.engine.zhuyin_needs_tone,
        !r.engine.aux_trigger,
        !(r.engine.in_aux && (' ' == r.settings.aux_code_key || (r.engine.aux_code@.len() > 0
            && r.engine.candidate_count == 0))),
        !(r.engine.expression_mode && r.engine.expression_char),
    ensures
        r.resume_move(
            PendingView { event, before, awaiting: Awaiting::Mode(question) },
            AnswerView::Observed,
        ) == (MoveView {
            ops: seq![],
            outcome: OutcomeView::Ask(
                AskView::CommitIndex(r.engine.highlight),
                PendingView { event, before, awaiting: Awaiting::Highlighted(After::Finish) },
            ),
        }),
{
    law_chinese_symbols(r, event, before, question);
    law_printable_space_and_symbols(r, event, before);
}

/// In English mode with candidates a letter of either case that picks no slot joins, inside a
/// composition as well as outside one: the one operation is to push the character typed, and
/// nothing is committed beyond what was before.
pub proof fn law_english_letters_join(
    r: Router,
    event: KeyEvent,
    before: Option<Seq<char>>,
    c: char,
)
    requires
        r.settings.page_size > 0,
        event.character == Some(c),
        'a' <= c <= 'z' || 'A' <= c <= 'Z',
        event.modifiers.english_mode,
        !event.modifiers.caps,
        r.settings.english_candidates,
        event.digit is Some ==> event.digit->0 >= 1 && (event.digit->0 > r.settings.page_size
            || r.engine.highlight as int - r.engine.highlight as int % r.settings.page_size as int
            + event.digit->0 - 1 >= r.engine.candidate_count),
    ensures
        r.resume_move(
            PendingView { event, before, awaiting: Awaiting::Mode(false) },
            AnswerView::Observed,
        ) == (MoveView {
            ops: seq![Op::Push(c)],
            outcome: OutcomeView::Done(EffectView::Changed(before)),
        }),
        r.english_move(event, before, true) == (MoveView {
            ops: seq![Op::Push(c)],
            outcome: OutcomeView::Done(EffectView::Changed(before)),
        }),
{
    law_english_with_candidates(r, event, before);
}

/// Enter without a command key, inside a composition that is no lone question mark: whatever the
/// English mode, it asks for the composition as typed if the keyboard is not Zhuyin or Shift is
/// held, and for the highlighted candidate else.
pub proof fn law_enter_commits_as_typed_but_under_zhuyin(
    r: Router,
    event: KeyEvent,
    before: Option<Seq<char>>,
)
    requires
        r.engine.composition@.len() > 0,
        !r.engine.bare_question,
        event.virtual_key == 0x0D,
        event.character is None || event.character == Some('\r'),
        !event.modifiers.ctrl && !event.modifiers.alt && !event.modifiers.win,
        event.digit_key is None,
    ensures
        r.key_move(event, before) == (if !r.engine.zhuyin_mode || event.modifiers.shift {
            MoveView {
                ops: seq![],
                outcome: OutcomeView::Ask(
                    AskView::TakeRaw,
                    PendingView { event, before, awaiting: Awaiting::Text(After::Finish) },
                ),
            }
        } else {
            MoveView {
                ops: seq![],
                outcome: OutcomeView::Ask(
                    AskView::CommitIndex(r.engine.highlight),
                    PendingView { event, before, awaiting: Awaiting::Highlighted(After::Finish) },
                ),
            }
        }),
{
    law_keys_are_told_apart(r, event, before);
    law_enter_and_tab_inside_a_composition(r, event, before);
}

} // verus!
