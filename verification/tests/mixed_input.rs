//! Digits and symbols typed into a Chinese composition come out in the order in which they were
//! typed. The dispatcher runs against a small engine with a word list.

use qingjian_keys::effect::Effect;
use qingjian_keys::key::{KeyEvent, KeyModifiers};
use qingjian_keys::request::{Answer, Ask, Op, Outcome};
use qingjian_keys::router::{Router, Settings, Snapshot};

/// Word, pinyin and weight. `g` has ten words, `han` eight.
const DICT: &str = "\
个\tge\t9000
哥\tge\t8000
给\tgei\t7000
高\tgao\t6000
敢\tgan\t5500
干\tgan\t5000
刚\tgang\t4500
该\tgai\t4000
感\tgan\t3500
顾\tgu\t3000
怕\tpa\t6000
他\tta\t5000
喊\than\t4000
汉\than\t3800
含\than\t3600
寒\than\t3400
汗\than\t3200
旱\than\t3000
憾\than\t2800
翰\than\t2600
问题\twen ti\t3000
下载\txia zai\t2000
";

const SYLLABLES: [&str; 17] = [
    "ge", "gei", "gao", "gan", "gang", "gai", "gu", "pa", "ta", "han", "wen", "ti", "xia", "zai",
    "de", "e", "se",
];

struct Word {
    text: String,
    pinyin: Vec<String>,
    weight: u32,
}

/// An engine of the plainest kind: a buffer, a word list, no learning.
struct Engine {
    words: Vec<Word>,
    buffer: String,
    english: bool,
    noted: String,
}

impl Engine {
    fn new(dict: &str) -> Engine {
        let mut words = Vec::new();
        for line in dict.lines() {
            let fields: Vec<&str> = line.split('\t').collect();
            words.push(Word {
                text: fields[0].to_owned(),
                pinyin: fields[1].split(' ').map(|s| s.to_owned()).collect(),
                weight: fields[2].parse().unwrap(),
            });
        }
        Engine { words, buffer: String::new(), english: false, noted: String::new() }
    }

    fn raw_mode(&self) -> bool {
        self.buffer.chars().any(|c| !c.is_ascii_lowercase() && c != '\'')
    }

    /// Every way to cut the buffer into syllables and beginnings of syllables, or `None`.
    fn segmentations(&self) -> Option<Vec<Vec<String>>> {
        let mut found = Vec::new();
        split(&self.buffer, &mut Vec::new(), &mut found);
        if found.is_empty() {
            None
        } else {
            Some(found)
        }
    }

    fn candidates(&self) -> Vec<String> {
        let Some(readings) = self.segmentations() else {
            return Vec::new();
        };
        let mut found: Vec<&Word> = Vec::new();
        for word in &self.words {
            let fits = readings.iter().any(|pieces| {
                pieces.len() >= word.pinyin.len()
                    && word.pinyin.iter().zip(pieces).all(|(full, piece)| full.starts_with(piece.as_str()))
            });
            if fits {
                found.push(word);
            }
        }
        found.sort_by_key(|w| (w.pinyin.len(), w.weight));
        found.reverse();
        found.iter().map(|w| w.text.clone()).collect()
    }

    fn take_raw(&mut self) -> String {
        std::mem::take(&mut self.buffer)
    }

    fn commit_index(&mut self, index: usize) -> Option<String> {
        let text = self.candidates().get(index).cloned();
        if text.is_some() {
            self.buffer.clear();
        }
        text
    }

    fn punctuate(&self, c: char) -> Option<String> {
        match c {
            ',' => Some("，".to_owned()),
            '?' => Some("？".to_owned()),
            _ => None,
        }
    }
}

fn split(rest: &str, pieces: &mut Vec<String>, found: &mut Vec<Vec<String>>) {
    if rest.is_empty() {
        if !pieces.is_empty() {
            found.push(pieces.clone());
        }
        return;
    }
    for end in 1..=rest.len().min(5) {
        let Some(piece) = rest.get(..end) else {
            continue;
        };
        if piece == "k" || SYLLABLES.iter().any(|s| s.starts_with(piece)) {
            pieces.push(piece.to_owned());
            split(&rest[end..], pieces, found);
            pieces.pop();
        }
    }
}

/// The host: it owns the engine and carries out what the dispatcher wants.
struct Host {
    router: Router,
    engine: Engine,
    apps: Vec<(u32, String)>,
}

fn snapshot_of(engine: &Engine) -> Snapshot {
    Snapshot {
        composition: engine.buffer.clone(),
        segmentation: engine.segmentations().map(|readings| {
            readings.iter().map(|pieces| {
                let last = pieces[pieces.len() - 1].as_str();
                !SYLLABLES.iter().any(|s| *s == last)
            }).collect()
        }),
        expression_mode: false,
        question_mode: false,
        bare_question: false,
        english_mode: engine.english,
        zhuyin_mode: false,
        zhuyin_needs_tone: false,
        raw_mode: engine.raw_mode(),
        unicode_entry: false,
        takes_semicolon: false,
        takes_question_mark: false,
        takes_mode_letter: false,
        expression_char: false,
        aux_trigger: false,
        in_aux: false,
        aux_code: String::new(),
        candidate_count: engine.candidates().len(),
        highlight: 0,
        navigated: false,
    }
}

fn router(dict: &str) -> Host {
    let engine = Engine::new(dict);
    let settings = Settings {
        page_size: 9,
        shift_letter_compose: false,
        aux_code_key: '`',
        english_candidates: true,
        full_width: true,
        english_full_width: false,
        focused_app: None,
    };
    let router = Router { settings, engine: snapshot_of(&engine), sentence: None };
    Host { router, engine, apps: Vec::new() }
}

fn event(vk: u32, ch: char) -> KeyEvent {
    let keypad = (0x60..=0x6f).contains(&vk);
    let digit = if (0x31..=0x39).contains(&vk) {
        Some((vk - 0x30) as usize)
    } else if (0x61..=0x69).contains(&vk) {
        Some((vk - 0x60) as usize)
    } else {
        None
    };
    KeyEvent {
        virtual_key: vk,
        character: Some(ch),
        modifiers: KeyModifiers::default(),
        digit_key: if keypad { None } else { digit },
        digit,
        keypad,
        page_step: match ch {
            '[' => Some(-1),
            ']' => Some(1),
            _ => None,
        },
    }
}

impl Host {
    fn perform(&mut self, op: Op) {
        match op {
            Op::SetEnglishMode(on) => self.engine.english = on,
            Op::Push(c) => self.engine.buffer.push(c),
            Op::NotePassthrough(c) => self.engine.noted.push(c),
            Op::Clear => self.engine.buffer.clear(),
            Op::Backspace => {
                self.engine.buffer.pop();
            }
            other => panic!("not expected here: {other:?}"),
        }
    }

    fn answer(&mut self, ask: Ask) -> Answer {
        match ask {
            Ask::Observe => Answer::Observed,
            Ask::DigitShortcut(_, _) => Answer::Claimed(None),
            Ask::PushAuxCode(_) => Answer::Taken(false),
            Ask::TakeRaw => Answer::Text(self.engine.take_raw()),
            Ask::Punctuate(c) => Answer::Choice(self.engine.punctuate(c)),
            Ask::CommitIndex(index) => Answer::Choice(self.engine.commit_index(index)),
            Ask::AcceptPrediction(text) => Answer::Text(text),
        }
    }

    fn press(&mut self, session: u32, event: KeyEvent) -> Effect {
        self.router.settings.focused_app =
            self.apps.iter().find(|(id, _)| *id == session).map(|(_, app)| app.clone());
        let seen = snapshot_of(&self.engine);
        let mut turn = self.router.apply_key(&event, seen);
        loop {
            for op in turn.ops {
                self.perform(op);
            }
            match turn.outcome {
                Outcome::Done(effect) => return effect,
                Outcome::Ask(ask, pending) => {
                    let answer = self.answer(ask);
                    assert!(pending.awaiting.accepts(&answer));
                    let seen = snapshot_of(&self.engine);
                    turn = self.router.resume(pending, answer, seen);
                }
            }
        }
    }
}

/// Sends a character key and returns the text to commit.
fn key(router: &mut Host, vk: u32, ch: char) -> Option<String> {
    key_at(router, 1, vk, ch)
}

fn key_at(router: &mut Host, session: u32, vk: u32, ch: char) -> Option<String> {
    match router.press(session, event(vk, ch)) {
        Effect::Changed(text) => text,
        _ => None,
    }
}

fn outcome_at(router: &mut Host, session: u32, vk: u32, ch: char) -> Effect {
    router.press(session, event(vk, ch))
}

#[test]
fn mixed_word_keeps_order_digit() {
    let mut router = router(DICT);
    for c in "gpt".chars() {
        assert_eq!(key(&mut router, c as u32, c), None, "拼音字母不应上屏");
    }
    let selected = key(&mut router, b'6' as u32, '6').expect("主键区数字应选候选");
    assert_ne!(selected, "gpt6");
    assert!(!selected.is_ascii());
}

#[test]
fn numpad_digit_joins_mixed_candidate() {
    let mut router = router(DICT);
    for c in "gpt".chars() {
        assert_eq!(key(&mut router, c as u32, c), None);
    }
    assert_eq!(key(&mut router, 0x66, '6'), None);
    assert_eq!(key(&mut router, 0x20, ' '), Some("gpt6 ".to_owned()));
}

#[test]
fn numpad_after_complete_syllable_joins_the_buffer() {
    let mut router = router(DICT);
    for c in "han".chars() {
        assert_eq!(key(&mut router, c as u32, c), None);
    }
    assert_eq!(key(&mut router, 0x66, '6'), None);
    assert_eq!(key(&mut router, 0x20, ' '), Some("han6 ".to_owned()));
}

#[test]
fn numpad_digit_never_selects_on_complete_syllable() {
    let mut router = router(DICT);
    for c in "wenti".chars() {
        assert_eq!(key(&mut router, c as u32, c), None);
    }
    assert_eq!(key(&mut router, 0x65, '5'), None);
    assert_eq!(key(&mut router, 0x20, ' '), Some("wenti5 ".to_owned()));
}

#[test]
fn main_digit_without_a_slot_joins_the_buffer() {
    let mut router = router(DICT);
    for c in "wenti".chars() {
        assert_eq!(key(&mut router, c as u32, c), None);
    }
    assert_eq!(key(&mut router, b'6' as u32, '6'), None);
    assert_eq!(key(&mut router, 0x20, ' '), Some("wenti6 ".to_owned()));
}

#[test]
fn mixed_word_keeps_order_symbol() {
    let mut router = router(DICT);
    for c in "deepseek".chars() {
        assert_eq!(key(&mut router, c as u32, c), None);
    }
    assert_eq!(key(&mut router, 0xBD, '-'), None);
    assert_eq!(key(&mut router, 0x20, ' '), Some("deepseek- ".to_owned()));
}

#[test]
fn mixed_word_no_dictionary_keeps_order() {
    let mut router = router("");
    for c in "gpt".chars() {
        assert_eq!(key(&mut router, c as u32, c), None);
    }
    assert_eq!(key(&mut router, b'6' as u32, '6'), None);
    assert_eq!(key(&mut router, 0x20, ' '), Some("gpt6 ".to_owned()));
}

#[test]
fn complete_syllable_digit_still_selects() {
    let mut router = router(DICT);
    for c in "han".chars() {
        assert_eq!(key(&mut router, c as u32, c), None);
    }
    let committed = key(&mut router, b'5' as u32, '5').expect("应选中一个候选");
    assert_ne!(committed, "han5");
    assert!(!committed.is_ascii());
}

#[test]
fn complete_syllable_comma_commits_candidate_then_punct() {
    let mut router = router(DICT);
    for c in "wenti".chars() {
        assert_eq!(key(&mut router, c as u32, c), None);
    }
    assert_eq!(key(&mut router, 0xBC, ','), Some("问题，".to_owned()));
}

#[test]
fn unconverted_symbols_are_passthrough_when_not_composing() {
    let mut router = router(DICT);
    assert_eq!(outcome_at(&mut router, 1, 0xBD, '-'), Effect::Passthrough);
    assert_eq!(outcome_at(&mut router, 1, b'6' as u32, '6'), Effect::Passthrough);
}

#[test]
fn gpt_dash_six_sequence_keeps_order() {
    let mut router = router(DICT);
    for c in "gpt".chars() {
        assert_eq!(key(&mut router, c as u32, c), None);
    }
    assert_eq!(key(&mut router, 0xBD, '-'), None);
    assert_eq!(key(&mut router, 0x66, '6'), None);
    assert_eq!(key(&mut router, 0x20, ' '), Some("gpt-6 ".to_owned()));
}

#[test]
fn console_host_passes_all_keys_through_without_composing() {
    let mut router = router(DICT);
    let session = 2;
    router.apps.push((session, "conhost.exe".to_owned()));
    for c in "gpt-6".chars() {
        let vk = if c == '-' { 0xBD } else { c as u32 };
        assert_eq!(key_at(&mut router, session, vk, c), Some(c.to_string()));
    }
    assert_eq!(router.engine.buffer, "");
    assert_eq!(router.engine.noted, "gpt-6");
}

#[test]
fn fifth_candidate_of_han_is_picked_by_five() {
    let mut router = router(DICT);
    for c in "han".chars() {
        key(&mut router, c as u32, c);
    }
    assert_eq!(key(&mut router, b'5' as u32, '5'), Some("汗".to_owned()));
    assert_eq!(router.engine.buffer, "");
}

#[test]
fn capital_commits_the_letters_and_follows_them() {
    let mut router = router(DICT);
    for c in "han".chars() {
        key(&mut router, c as u32, c);
    }
    assert_eq!(key(&mut router, 0x47, 'G'), Some("hanG".to_owned()));
    assert_eq!(router.engine.noted, "G");
}

#[test]
fn space_commits_the_highlighted_candidate() {
    let mut router = router(DICT);
    for c in "wenti".chars() {
        key(&mut router, c as u32, c);
    }
    assert_eq!(key(&mut router, 0x20, ' '), Some("问题".to_owned()));
}

#[test]
fn idle_comma_is_full_width_and_idle_dash_is_noted() {
    let mut router = router(DICT);
    assert_eq!(key(&mut router, 0xBC, ','), Some("，".to_owned()));
    assert_eq!(router.engine.noted, "");
    assert_eq!(outcome_at(&mut router, 1, 0xBD, '-'), Effect::Passthrough);
    assert_eq!(router.engine.noted, "-");
}

#[test]
fn literal_text_of_many_keys_comes_out_in_order() {
    let mut router = router(DICT);
    for c in "gpt".chars() {
        assert_eq!(key(&mut router, c as u32, c), None);
    }
    assert_eq!(key(&mut router, 0xBD, '-'), None);
    for c in "6],/'x".chars() {
        assert_eq!(key(&mut router, c as u32, c), None);
    }
    assert_eq!(key(&mut router, 0x20, ' '), Some("gpt-6],/'x ".to_owned()));
    assert_eq!(router.engine.noted, " ");
}
