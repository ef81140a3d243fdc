//! Keys played out turn by turn, with the answers of the engine written out.

use qingjian_keys::codes;
use qingjian_keys::effect::{with_prefix, Effect};
use qingjian_keys::key::{KeyEvent, KeyModifiers};
use qingjian_keys::request::{After, Answer, Ask, Awaiting, Move, Op, Outcome, Pending};
use qingjian_keys::router::{Router, Settings, Snapshot};

fn idle() -> Snapshot {
    Snapshot {
        composition: String::new(),
        segmentation: None,
        expression_mode: false,
        question_mode: false,
        bare_question: false,
        english_mode: false,
        zhuyin_mode: false,
        zhuyin_needs_tone: false,
        raw_mode: false,
        unicode_entry: false,
        takes_semicolon: false,
        takes_question_mark: false,
        takes_mode_letter: false,
        expression_char: false,
        aux_trigger: false,
        in_aux: false,
        aux_code: String::new(),
        candidate_count: 0,
        highlight: 0,
        navigated: false,
    }
}

fn composing(text: &str, unfinished: &[bool]) -> Snapshot {
    Snapshot {
        composition: text.to_owned(),
        segmentation: Some(unfinished.to_vec()),
        candidate_count: 20,
        ..idle()
    }
}

fn settings() -> Settings {
    Settings {
        page_size: 9,
        shift_letter_compose: false,
        aux_code_key: '`',
        english_candidates: true,
        full_width: true,
        english_full_width: false,
        focused_app: None,
    }
}

fn router() -> Router {
    Router::new(settings(), idle())
}

fn typed(c: char) -> KeyEvent {
    let digit = c.to_digit(10).filter(|d| *d > 0).map(|d| d as usize);
    KeyEvent {
        virtual_key: c.to_ascii_uppercase() as u32,
        character: Some(c),
        modifiers: KeyModifiers::default(),
        digit_key: digit,
        digit,
        keypad: false,
        page_step: match c {
            '[' => Some(-1),
            ']' => Some(1),
            _ => None,
        },
    }
}

fn function(code: u32) -> KeyEvent {
    KeyEvent {
        virtual_key: code,
        character: None,
        modifiers: KeyModifiers::default(),
        digit_key: None,
        digit: None,
        keypad: false,
        page_step: None,
    }
}

fn english(event: KeyEvent) -> KeyEvent {
    let modifiers = KeyModifiers { english_mode: true, ..event.modifiers };
    KeyEvent { modifiers, ..event }
}

fn caps(event: KeyEvent) -> KeyEvent {
    let modifiers = KeyModifiers { caps: true, ..event.modifiers };
    KeyEvent { modifiers, ..event }
}

fn shift(event: KeyEvent) -> KeyEvent {
    let modifiers = KeyModifiers { shift: true, ..event.modifiers };
    KeyEvent { modifiers, ..event }
}

fn ctrl(event: KeyEvent) -> KeyEvent {
    let modifiers = KeyModifiers { ctrl: true, ..event.modifiers };
    KeyEvent { modifiers, ..event }
}

fn done(ops: &[Op], effect: Effect) -> Move {
    Move { ops: ops.to_vec(), outcome: Outcome::Done(effect) }
}

fn changed(text: &str) -> Effect {
    Effect::Changed(Some(text.to_owned()))
}

fn asked(ops: &[Op], ask: Ask, event: KeyEvent, before: Option<&str>, awaiting: Awaiting) -> Move {
    let pending = Pending { event, before: before.map(|b| b.to_owned()), awaiting };
    Move { ops: ops.to_vec(), outcome: Outcome::Ask(ask, pending) }
}

/// Answers the question of a move.
fn reply(router: &mut Router, turn: Move, answer: Answer, seen: Snapshot) -> Move {
    match turn.outcome {
        Outcome::Ask(_, pending) => {
            assert!(pending.awaiting.accepts(&answer));
            router.resume(pending, answer, seen)
        }
        Outcome::Done(effect) => panic!("already settled: {effect:?}"),
    }
}

/// Takes a text key up to the turn in which it is typed in its mode.
fn in_mode(router: &mut Router, event: KeyEvent, seen: Snapshot, again: Snapshot) -> Move {
    let mut turn = router.apply_key(&event, seen);
    if let Outcome::Ask(Ask::DigitShortcut(_, _), _) = &turn.outcome {
        let same = Snapshot {
            composition: again.composition.clone(),
            segmentation: again.segmentation.clone(),
            aux_code: again.aux_code.clone(),
            ..again
        };
        turn = reply(router, turn, Answer::Claimed(None), same);
    }
    assert!(matches!(turn.outcome, Outcome::Ask(Ask::Observe, _)));
    reply(router, turn, Answer::Observed, again)
}

fn type_into(event: KeyEvent, seen: fn() -> Snapshot) -> Move {
    in_mode(&mut router(), event, seen(), seen())
}

fn wenti() -> Snapshot {
    composing("wenti", &[false, true])
}

fn gpt() -> Snapshot {
    composing("gpt", &[true, true])
}

#[test]
fn prefixes_go_ahead_of_every_effect() {
    let text = || Some("ab".to_owned());
    assert_eq!(with_prefix(None, Effect::Passthrough, 'c'), Effect::Passthrough);
    assert_eq!(with_prefix(text(), Effect::Passthrough, 'c'), changed("abc"));
    assert_eq!(with_prefix(text(), changed("，"), ','), changed("ab，"));
    assert_eq!(with_prefix(text(), Effect::Changed(None), 'c'), changed("ab"));
    assert_eq!(with_prefix(text(), Effect::Navigated, 'c'), changed("ab"));
    let twice = with_prefix(text(), with_prefix(Some("-".to_owned()), Effect::Passthrough, 'c'), 'c');
    assert_eq!(twice, with_prefix(Some("ab-".to_owned()), Effect::Passthrough, 'c'));
}

#[test]
fn slots_are_counted_on_the_page_of_the_highlight() {
    let seen = Snapshot { highlight: 10, candidate_count: 14, ..composing("g", &[true]) };
    let router = Router::new(settings(), seen);
    assert_eq!(router.slot_index(1), Some(9));
    assert_eq!(router.slot_index(2), Some(10));
    assert_eq!(router.slot_index(5), Some(13));
    assert_eq!(router.slot_index(6), None);
    assert_eq!(router.slot_index(10), None);
}

#[test]
fn slot_of_a_far_highlight_does_not_overflow() {
    let seen = Snapshot { highlight: usize::MAX, candidate_count: usize::MAX, ..idle() };
    let router = Router::new(Settings { page_size: usize::MAX, ..settings() }, seen);
    assert_eq!(router.slot_index(1), None);
    assert_eq!(router.slot_index(usize::MAX), None);
}

#[test]
fn the_composition_is_told_apart() {
    let at = |seen: Snapshot| Router::new(settings(), seen);
    assert!(!at(idle()).composing());
    assert!(at(wenti()).composing());
    assert!(!at(wenti()).mixed_buffer());
    assert!(!at(composing("xi'an", &[false])).mixed_buffer());
    assert!(at(composing("gpt-", &[])).mixed_buffer());
    assert!(at(composing("G", &[])).mixed_buffer());
    assert!(at(wenti()).trailing_syllable_complete());
    assert!(!at(gpt()).trailing_syllable_complete());
    assert!(!at(composing("x", &[])).trailing_syllable_complete());
    assert!(at(Snapshot { segmentation: None, ..gpt() }).trailing_syllable_complete());
    assert!(at(idle()).trailing_syllable_complete());
}

#[test]
fn a_console_is_known_by_its_name_in_any_case() {
    let on = |app: Option<&str>| {
        let settings = Settings { focused_app: app.map(|a| a.to_owned()), ..settings() };
        Router::new(settings, idle()).console_host()
    };
    assert!(on(Some("conhost.exe")));
    assert!(on(Some("ConHost.EXE")));
    assert!(!on(Some("WindowsTerminal.exe")));
    assert!(!on(Some("conhost.ex")));
    assert!(!on(None));
}

#[test]
fn a_console_gets_each_character_at_once() {
    let settings = Settings { focused_app: Some("Conhost.exe".to_owned()), ..settings() };
    let mut router = Router::new(settings, idle());
    assert_eq!(
        router.apply_key(&typed('a'), idle()),
        done(&[Op::NotePassthrough('a')], changed("a"))
    );
    assert_eq!(
        router.apply_key(&english(typed('?')), Snapshot { takes_question_mark: true, ..idle() }),
        done(&[Op::NotePassthrough('?')], changed("?"))
    );
}

#[test]
fn a_digit_inside_a_composition_may_be_a_shortcut() {
    let mut router = router();
    let key = ctrl(typed('2'));
    let turn = router.apply_key(&key, wenti());
    assert_eq!(turn, asked(&[], Ask::DigitShortcut(2, key.modifiers), key, None, Awaiting::Shortcut));
    let claimed = Answer::Claimed(Some(changed("problem")));
    assert_eq!(reply(&mut router, turn, claimed, idle()), done(&[], changed("problem")));

    let turn = router.apply_key(&key, wenti());
    assert_eq!(
        reply(&mut router, turn, Answer::Claimed(None), wenti()),
        done(&[], Effect::Passthrough)
    );
}

#[test]
fn an_expression_has_no_digit_shortcuts() {
    let mut router = router();
    let seen = || Snapshot { expression_mode: true, expression_char: true, ..composing("v1", &[]) };
    let key = shift(typed('2'));
    let turn = router.apply_key(&key, seen());
    assert_eq!(
        turn,
        asked(&[Op::SetEnglishMode(false)], Ask::Observe, key, None, Awaiting::Mode(false))
    );
    assert_eq!(
        reply(&mut router, turn, Answer::Observed, seen()),
        done(&[Op::Push('2')], Effect::Changed(None))
    );
}

#[test]
fn command_keys_and_idle_function_keys_belong_to_the_application() {
    let mut router = router();
    assert_eq!(router.apply_key(&ctrl(typed('c')), idle()), done(&[], Effect::Passthrough));
    assert_eq!(router.apply_key(&ctrl(typed('c')), wenti()), done(&[], Effect::Passthrough));
    assert_eq!(router.apply_key(&function(codes::BACK), idle()), done(&[], Effect::Passthrough));
    assert_eq!(
        router.apply_key(&function(codes::RETURN), idle()),
        done(&[Op::NotePassthrough('\n')], Effect::Passthrough)
    );
    let control = KeyEvent { character: Some('\r'), ..function(codes::RETURN) };
    assert_eq!(
        router.apply_key(&control, idle()),
        done(&[Op::NotePassthrough('\n')], Effect::Passthrough)
    );
}

#[test]
fn function_keys_edit_the_composition() {
    let mut router = router();
    let mut press = |code: u32| router.apply_key(&function(code), wenti());
    assert_eq!(press(codes::BACK), done(&[Op::Backspace], Effect::Changed(None)));
    assert_eq!(press(codes::ESCAPE), done(&[Op::Clear], Effect::Changed(None)));
    assert_eq!(press(codes::LEFT), done(&[Op::CursorLeft], Effect::Changed(None)));
    assert_eq!(press(codes::RIGHT), done(&[Op::CursorRight], Effect::Changed(None)));
    assert_eq!(press(codes::HOME), done(&[Op::CursorHome], Effect::Changed(None)));
    assert_eq!(press(codes::END), done(&[Op::CursorEnd], Effect::Changed(None)));
    assert_eq!(press(codes::DOWN), done(&[Op::MoveHighlight(1)], Effect::Navigated));
    assert_eq!(press(codes::UP), done(&[Op::MoveHighlight(-1)], Effect::Navigated));
    assert_eq!(press(codes::NEXT), done(&[Op::Page(1)], Effect::Navigated));
    assert_eq!(press(codes::PRIOR), done(&[Op::Page(-1)], Effect::Navigated));
    assert_eq!(press(0x70), done(&[], Effect::Passthrough));
}

#[test]
fn escape_leaves_the_auxiliary_code_first() {
    let mut router = router();
    let seen = Snapshot { in_aux: true, ..wenti() };
    assert_eq!(
        router.apply_key(&function(codes::ESCAPE), seen),
        done(&[Op::ClearAux], Effect::Changed(None))
    );
}

#[test]
fn enter_commits_as_typed_and_under_zhuyin_the_candidate() {
    let mut router = router();
    let key = function(codes::RETURN);
    let turn = router.apply_key(&key, wenti());
    assert_eq!(turn, asked(&[], Ask::TakeRaw, key, None, Awaiting::Text(After::Finish)));
    assert_eq!(
        reply(&mut router, turn, Answer::Text("wenti".to_owned()), idle()),
        done(&[], changed("wenti"))
    );

    let zhuyin = || Snapshot { zhuyin_mode: true, highlight: 3, ..wenti() };
    let turn = router.apply_key(&key, zhuyin());
    assert_eq!(turn, asked(&[], Ask::CommitIndex(3), key, None, Awaiting::Highlighted(After::Finish)));
    let turn = reply(&mut router, turn, Answer::Choice(None), zhuyin());
    assert_eq!(turn, asked(&[], Ask::TakeRaw, key, None, Awaiting::Text(After::Finish)));
    assert_eq!(
        reply(&mut router, turn, Answer::Text("jp6".to_owned()), idle()),
        done(&[], changed("jp6"))
    );

    let key = shift(key);
    let turn = router.apply_key(&key, zhuyin());
    assert_eq!(turn, asked(&[], Ask::TakeRaw, key, None, Awaiting::Text(After::Finish)));
}

#[test]
fn tab_accepts_the_sentence_once_and_then_turns_pages() {
    let mut router = router();
    let key = function(codes::TAB);
    router.sentence = Some("问题很大".to_owned());
    let turn = router.apply_key(&key, wenti());
    assert_eq!(
        turn,
        asked(
            &[],
            Ask::AcceptPrediction("问题很大".to_owned()),
            key,
            None,
            Awaiting::Text(After::Finish)
        )
    );
    assert_eq!(router.sentence, None);
    assert_eq!(
        reply(&mut router, turn, Answer::Text("问题很大".to_owned()), idle()),
        done(&[], changed("问题很大"))
    );
    assert_eq!(router.apply_key(&key, wenti()), done(&[Op::Page(1)], Effect::Navigated));
}

#[test]
fn tab_leaves_the_sentence_alone_where_it_means_something_else() {
    let mut router = router();
    router.sentence = Some("问题很大".to_owned());
    let key = function(codes::TAB);
    assert_eq!(router.apply_key(&shift(key), wenti()), done(&[Op::Page(-1)], Effect::Navigated));
    let seen = Snapshot { english_mode: true, ..composing("hel", &[]) };
    assert_eq!(
        router.apply_key(&key, seen),
        asked(&[], Ask::CommitIndex(0), key, None, Awaiting::Highlighted(After::Finish))
    );
    assert_eq!(router.sentence.as_deref(), Some("问题很大"));
}

#[test]
fn a_question_mark_opens_a_question_where_it_is_taken() {
    let mut router = router();
    let seen = || Snapshot { takes_question_mark: true, ..idle() };
    let opened = || done(&[Op::SetEnglishMode(false), Op::Push('?')], Effect::Changed(None));
    assert_eq!(router.apply_key(&typed('?'), seen()), opened());
    assert_eq!(router.apply_key(&english(typed('?')), seen()), opened());
    assert_eq!(
        router.apply_key(&typed('?'), idle()),
        asked(&[Op::SetEnglishMode(false)], Ask::Observe, typed('?'), None, Awaiting::Mode(false))
    );
}

#[test]
fn a_letter_mode_opens_in_chinese_only() {
    let mut router = router();
    let seen = || Snapshot { takes_mode_letter: true, ..idle() };
    assert_eq!(
        router.apply_key(&typed('V'), seen()),
        done(&[Op::SetEnglishMode(false), Op::Push('V')], Effect::Changed(None))
    );
    let key = english(typed('V'));
    assert_eq!(
        router.apply_key(&key, seen()),
        asked(&[Op::SetEnglishMode(true)], Ask::Observe, key, None, Awaiting::Mode(false))
    );
}

fn bare_question() -> Snapshot {
    Snapshot { question_mode: true, bare_question: true, ..composing("?", &[]) }
}

#[test]
fn a_lone_question_mark_and_a_space_make_a_question_mark() {
    let mut router = router();
    let key = typed(' ');
    let turn = router.apply_key(&key, bare_question());
    assert_eq!(
        turn,
        asked(&[Op::Clear], Ask::Punctuate('?'), key, None, Awaiting::Mark(After::Finish))
    );
    assert_eq!(
        reply(&mut router, turn, Answer::Choice(Some("？".to_owned())), idle()),
        done(&[], changed("？"))
    );

    let key = english(typed(' '));
    assert_eq!(
        router.apply_key(&key, bare_question()),
        done(&[Op::Clear, Op::NotePassthrough('?')], changed("?"))
    );
}

#[test]
fn a_lone_question_mark_goes_ahead_of_the_next_key() {
    let mut router = router();
    let key = typed(',');
    let turn = router.apply_key(&key, bare_question());
    let turn = reply(&mut router, turn, Answer::Choice(None), idle());
    assert_eq!(
        turn,
        asked(&[Op::NotePassthrough('?')], Ask::Observe, key, Some("?"), Awaiting::Restart)
    );
    let turn = reply(&mut router, turn, Answer::Observed, idle());
    assert_eq!(
        turn,
        asked(&[Op::SetEnglishMode(false)], Ask::Observe, key, Some("?"), Awaiting::Mode(false))
    );
    let turn = reply(&mut router, turn, Answer::Observed, idle());
    assert_eq!(turn, asked(&[], Ask::Punctuate(','), key, Some("?"), Awaiting::Punctuation));
    assert_eq!(
        reply(&mut router, turn, Answer::Choice(Some("，".to_owned())), idle()),
        done(&[], changed("?，"))
    );
}

#[test]
fn a_lone_question_mark_swallows_enter_and_goes_with_backspace() {
    let mut router = router();
    let key = function(codes::RETURN);
    let turn = router.apply_key(&key, bare_question());
    assert_eq!(
        reply(&mut router, turn, Answer::Choice(Some("？".to_owned())), idle()),
        done(&[], changed("？"))
    );
    assert_eq!(
        router.apply_key(&function(codes::BACK), bare_question()),
        done(&[Op::Backspace], Effect::Changed(None))
    );
    assert_eq!(
        router.apply_key(&function(codes::ESCAPE), bare_question()),
        done(&[Op::Clear], Effect::Changed(None))
    );
}

#[test]
fn question_letters_are_small_under_caps() {
    let mut router = router();
    let key = caps(typed('N'));
    let turn = in_mode(&mut router, key, bare_question(), bare_question());
    assert_eq!(turn, asked(&[], Ask::PushAuxCode('n'), key, None, Awaiting::AuxCode('n')));
    assert_eq!(
        reply(&mut router, turn, Answer::Taken(false), bare_question()),
        done(&[Op::Push('n')], Effect::Changed(None))
    );
}

#[test]
fn letters_go_to_the_auxiliary_code_first() {
    let mut router = router();
    let turn = in_mode(&mut router, typed('x'), wenti(), wenti());
    assert_eq!(turn, asked(&[], Ask::PushAuxCode('x'), typed('x'), None, Awaiting::AuxCode('x')));
    assert_eq!(
        reply(&mut router, turn, Answer::Taken(true), wenti()),
        done(&[], Effect::Changed(None))
    );
}

#[test]
fn losing_english_candidates_commits_the_word_first() {
    let mut router = router();
    let key = caps(english(typed('A')));
    let seen = || Snapshot { english_mode: true, ..composing("hel", &[]) };
    let turn = router.apply_key(&key, seen());
    assert_eq!(turn, asked(&[], Ask::TakeRaw, key, None, Awaiting::Text(After::Mode(false))));
    let turn = reply(&mut router, turn, Answer::Text("hel".to_owned()), idle());
    assert_eq!(
        turn,
        asked(&[Op::SetEnglishMode(false)], Ask::Observe, key, Some("hel"), Awaiting::Mode(false))
    );
    assert_eq!(
        reply(&mut router, turn, Answer::Observed, idle()),
        done(&[Op::NotePassthrough('A')], changed("helA"))
    );
}

#[test]
fn plain_english_types_letters_and_passes_the_rest() {
    assert_eq!(
        type_into(caps(typed('A')), idle),
        done(&[Op::NotePassthrough('A')], changed("A"))
    );
    assert_eq!(
        type_into(caps(typed(',')), idle),
        done(&[Op::NotePassthrough(',')], Effect::Passthrough)
    );
    let mut router = router();
    let key = caps(typed('!'));
    let turn = in_mode(&mut router, key, wenti(), wenti());
    assert_eq!(turn, asked(&[], Ask::TakeRaw, key, None, Awaiting::Text(After::PlainEnglish)));
    assert_eq!(
        reply(&mut router, turn, Answer::Text("wenti".to_owned()), idle()),
        done(&[Op::NotePassthrough('!')], changed("wenti!"))
    );
}

fn foo() -> Snapshot {
    Snapshot { english_mode: true, candidate_count: 3, ..composing("foo", &[]) }
}

#[test]
fn english_words_take_letters_and_parts_of_identifiers() {
    let push = |c: char| done(&[Op::Push(c)], Effect::Changed(None));
    assert_eq!(type_into(english(typed('f')), idle), push('f'));
    assert_eq!(type_into(english(typed('F')), foo), push('F'));
    assert_eq!(type_into(english(typed('_')), foo), push('_'));
    assert_eq!(type_into(english(typed('-')), foo), push('-'));
    assert_eq!(type_into(english(typed('\'')), foo), push('\''));
    assert_eq!(type_into(english(typed('0')), foo), push('0'));
    assert_eq!(type_into(english(typed('7')), foo), push('7'));
    assert_eq!(
        type_into(english(typed('_')), idle),
        done(&[Op::NotePassthrough('_')], Effect::Passthrough)
    );
}

#[test]
fn english_digits_pick_and_page_keys_turn() {
    let key = english(typed('2'));
    assert_eq!(
        type_into(key, foo),
        asked(&[], Ask::CommitIndex(1), key, None, Awaiting::Slot)
    );
    assert_eq!(type_into(english(typed(']')), foo), done(&[Op::Page(1)], Effect::Navigated));
    assert_eq!(
        type_into(english(typed(']')), idle),
        done(&[Op::NotePassthrough(']')], Effect::Passthrough)
    );
}

#[test]
fn english_space_commits_the_word_and_itself() {
    let mut router = router();
    let key = english(typed(' '));
    let turn = in_mode(&mut router, key, foo(), foo());
    assert_eq!(
        turn,
        asked(&[], Ask::CommitIndex(0), key, None, Awaiting::Highlighted(After::Punctuate))
    );
    assert_eq!(
        reply(&mut router, turn, Answer::Choice(Some("food".to_owned())), idle()),
        done(&[Op::NotePassthrough(' ')], changed("food "))
    );

    let key = english(typed(','));
    let turn = in_mode(&mut router, key, foo(), foo());
    assert_eq!(turn, asked(&[], Ask::TakeRaw, key, None, Awaiting::Text(After::Punctuate)));
    assert_eq!(
        reply(&mut router, turn, Answer::Text("foo".to_owned()), idle()),
        done(&[Op::NotePassthrough(',')], changed("foo,"))
    );
}

#[test]
fn capitals_pass_or_compose() {
    assert_eq!(
        type_into(typed('G'), idle),
        done(&[Op::NotePassthrough('G')], Effect::Passthrough)
    );
    let composes = Settings { shift_letter_compose: true, ..settings() };
    let mut router = Router::new(composes, idle());
    assert_eq!(
        in_mode(&mut router, typed('G'), wenti(), wenti()),
        done(&[Op::Push('G')], Effect::Changed(None))
    );
    let aux = || Snapshot { in_aux: true, ..wenti() };
    assert_eq!(
        in_mode(&mut router, typed('G'), aux(), aux()),
        done(&[Op::ClearAux, Op::Push('G')], Effect::Changed(None))
    );
}

#[test]
fn zhuyin_keys_are_letters() {
    let zhuyin = || Snapshot { zhuyin_mode: true, ..wenti() };
    let idle_zhuyin = || Snapshot { zhuyin_mode: true, ..idle() };
    for c in "0;-,./".chars() {
        assert_eq!(type_into(typed(c), zhuyin), done(&[Op::Push(c)], Effect::Changed(None)));
        assert_eq!(type_into(typed(c), idle_zhuyin), done(&[Op::Push(c)], Effect::Changed(None)));
    }
    let tone = || Snapshot { zhuyin_mode: true, zhuyin_needs_tone: true, ..wenti() };
    assert_eq!(type_into(typed(' '), tone), done(&[Op::Push(' ')], Effect::Changed(None)));
}

#[test]
fn main_digits_pick_or_join_and_keypad_digits_join() {
    assert_eq!(
        type_into(typed('6'), gpt),
        asked(&[], Ask::CommitIndex(5), typed('6'), None, Awaiting::Slot)
    );
    let short = || Snapshot { candidate_count: 3, ..wenti() };
    assert_eq!(type_into(typed('6'), short), done(&[Op::Push('6')], Effect::Changed(None)));
    let keypad = KeyEvent { keypad: true, digit_key: None, ..typed('1') };
    assert_eq!(type_into(keypad, wenti), done(&[Op::Push('1')], Effect::Changed(None)));
    let plus = KeyEvent { keypad: true, ..typed('+') };
    assert_eq!(type_into(plus, wenti), done(&[Op::Push('+')], Effect::Changed(None)));
}

#[test]
fn a_slot_without_its_candidate_commits_nothing() {
    let mut router = router();
    let turn = in_mode(&mut router, typed('6'), gpt(), gpt());
    assert_eq!(
        reply(&mut router, turn, Answer::Choice(None), gpt()),
        done(&[], Effect::Changed(None))
    );
}

#[test]
fn a_question_swallows_digits_without_a_slot_and_code_points_take_them() {
    let question = || Snapshot { question_mode: true, candidate_count: 0, ..composing("umu", &[]) };
    assert_eq!(type_into(typed('6'), question), done(&[], Effect::Changed(None)));
    let code = || Snapshot { question_mode: true, unicode_entry: true, ..composing("u4", &[]) };
    assert_eq!(type_into(typed('6'), code), done(&[Op::Push('6')], Effect::Changed(None)));
    assert_eq!(type_into(typed('+'), code), done(&[Op::Push('+')], Effect::Changed(None)));
}

#[test]
fn symbols_join_unfinished_or_mixed_text_and_follow_a_finished_candidate() {
    assert_eq!(type_into(typed('-'), gpt), done(&[Op::Push('-')], Effect::Changed(None)));
    assert_eq!(type_into(typed('\''), wenti), done(&[Op::Push('\'')], Effect::Changed(None)));
    let mixed = || Snapshot { segmentation: None, ..composing("gpt-", &[]) };
    assert_eq!(type_into(typed(','), mixed), done(&[Op::Push(',')], Effect::Changed(None)));

    let mut router = router();
    let turn = in_mode(&mut router, typed(','), wenti(), wenti());
    assert_eq!(
        turn,
        asked(&[], Ask::CommitIndex(0), typed(','), None, Awaiting::Highlighted(After::Punctuate))
    );
    let turn = reply(&mut router, turn, Answer::Choice(Some("问题".to_owned())), idle());
    assert_eq!(
        turn,
        asked(&[], Ask::Punctuate(','), typed(','), Some("问题"), Awaiting::Punctuation)
    );
    assert_eq!(
        reply(&mut router, turn, Answer::Choice(Some("，".to_owned())), idle()),
        done(&[], changed("问题，"))
    );

    let turn = in_mode(&mut router, typed('#'), wenti(), wenti());
    let turn = reply(&mut router, turn, Answer::Choice(Some("问题".to_owned())), idle());
    assert_eq!(
        reply(&mut router, turn, Answer::Choice(None), idle()),
        done(&[Op::NotePassthrough('#')], changed("问题#"))
    );
}

#[test]
fn a_keyboard_scheme_may_take_the_semicolon() {
    let seen = || Snapshot { takes_semicolon: true, ..wenti() };
    assert_eq!(type_into(typed(';'), seen), done(&[Op::Push(';')], Effect::Changed(None)));
}

#[test]
fn literal_text_takes_everything_up_to_the_space() {
    let raw = || Snapshot { raw_mode: true, segmentation: None, ..composing("hello,", &[]) };
    assert_eq!(type_into(typed('6'), raw), done(&[Op::Push('6')], Effect::Changed(None)));
    assert_eq!(type_into(typed(']'), raw), done(&[Op::Push(']')], Effect::Changed(None)));
    let mut router = router();
    let turn = in_mode(&mut router, typed(' '), raw(), raw());
    let turn = reply(&mut router, turn, Answer::Choice(None), raw());
    assert_eq!(
        reply(&mut router, turn, Answer::Text("hello,".to_owned()), idle()),
        done(&[Op::NotePassthrough(' ')], changed("hello, "))
    );
}

#[test]
fn page_keys_and_the_space_work_on_the_candidates() {
    assert_eq!(type_into(typed('['), wenti), done(&[Op::Page(-1)], Effect::Navigated));
    let mut router = router();
    let turn = in_mode(&mut router, typed(' '), wenti(), wenti());
    assert_eq!(
        reply(&mut router, turn, Answer::Choice(Some("问题".to_owned())), idle()),
        done(&[], changed("问题"))
    );
}

#[test]
fn the_auxiliary_code_is_entered_held_and_left() {
    let trigger = || Snapshot { aux_trigger: true, ..wenti() };
    assert_eq!(type_into(typed('`'), trigger), done(&[Op::EnterAux], Effect::Changed(None)));
    let entered = || Snapshot { in_aux: true, ..wenti() };
    assert_eq!(type_into(typed('`'), entered), done(&[], Effect::Changed(None)));
    let stuck =
        || Snapshot { in_aux: true, aux_code: "q".to_owned(), candidate_count: 0, ..wenti() };
    assert_eq!(type_into(typed(' '), stuck), done(&[], Effect::Changed(None)));
    assert_eq!(type_into(typed(','), stuck), done(&[], Effect::Changed(None)));
    assert_eq!(
        type_into(typed('\''), entered),
        asked(&[], Ask::CommitIndex(0), typed('\''), None, Awaiting::Highlighted(After::Punctuate))
    );
}

#[test]
fn idle_keypad_keys_stay_half_width() {
    let plus = KeyEvent { keypad: true, ..typed('+') };
    assert_eq!(
        type_into(plus, idle),
        done(&[Op::NotePassthrough('+')], Effect::Passthrough)
    );
    assert_eq!(
        type_into(typed('+'), idle),
        asked(&[], Ask::Punctuate('+'), typed('+'), None, Awaiting::Punctuation)
    );
}

#[test]
fn answers_of_the_wrong_kind_are_told() {
    assert!(Awaiting::Slot.accepts(&Answer::Choice(None)));
    assert!(!Awaiting::Slot.accepts(&Answer::Observed));
    assert!(Awaiting::Text(After::Finish).accepts(&Answer::Text(String::new())));
    assert!(!Awaiting::Text(After::Finish).accepts(&Answer::Choice(None)));
    assert!(Awaiting::Shortcut.accepts(&Answer::Claimed(None)));
    assert!(!Awaiting::Mode(true).accepts(&Answer::Taken(true)));
}
