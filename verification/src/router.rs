//! The key dispatcher's state: what it is configured with, what it sees of the engine, and what it
//! can tell from the two.

use crate::key::KeyEvent;
use crate::text;
use vstd::prelude::*;
use vstd::string::*;

verus! {

/// Typed into an empty composition, it may open a question about a character.
pub const QUESTION_PREFIX: char = '?';

/// What the router reads of the engine and the candidate list.
#[derive(Debug, PartialEq, Eq)]
pub struct Snapshot {
    /// The composition, as typed.
    pub composition: String,
    /// For each way to split the composition into syllables, whether its last syllable is still
    /// unfinished; none where the composition cannot be split.
    pub segmentation: Option<Vec<bool>>,
    /// The composition is an expression to compute.
    pub expression_mode: bool,
    /// The composition is a question about a character.
    pub question_mode: bool,
    /// The composition is the question mark alone.
    pub bare_question: bool,
    /// English word completion is on.
    pub english_mode: bool,
    /// The keyboard types Zhuyin.
    pub zhuyin_mode: bool,
    /// The last Zhuyin syllable waits for its tone.
    pub zhuyin_needs_tone: bool,
    /// The composition has come to hold text that is taken literally.
    pub raw_mode: bool,
    /// The question may be a code point.
    pub unicode_entry: bool,
    /// A semicolon would complete a syllable of the keyboard scheme.
    pub takes_semicolon: bool,
    /// A question mark opens a question.
    pub takes_question_mark: bool,
    /// The character of the key opens one of the letter modes.
    pub takes_mode_letter: bool,
    /// The character of the key may stand in an expression.
    pub expression_char: bool,
    /// The character of the key begins an auxiliary code now.
    pub aux_trigger: bool,
    /// An auxiliary code is being typed.
    pub in_aux: bool,
    /// The auxiliary code so far.
    pub aux_code: String,
    /// The number of candidates.
    pub candidate_count: usize,
    /// The index of the highlighted candidate.
    pub highlight: usize,
    /// The user has moved about in the candidates.
    pub navigated: bool,
}

/// What the router is configured with for the focused application.
#[derive(Debug, PartialEq, Eq)]
pub struct Settings {
    /// The number of candidates on a page; never zero.
    pub page_size: usize,
    /// A capital joins the composition in Chinese mode.
    pub shift_letter_compose: bool,
    /// The character that begins an auxiliary code.
    pub aux_code_key: char,
    /// The focused application gets English candidates.
    pub english_candidates: bool,
    /// Chinese mode types full-width punctuation.
    pub full_width: bool,
    /// English mode types full-width punctuation.
    pub english_full_width: bool,
    /// The executable of the focused application, where it is known.
    pub focused_app: Option<String>,
}

/// The key dispatcher.
#[derive(Debug, PartialEq, Eq)]
pub struct Router {
    /// The configuration.
    pub settings: Settings,
    /// The engine as last seen.
    pub engine: Snapshot,
    /// The sentence completion on offer, if there is one.
    pub sentence: Option<String>,
}

/// A character that neither a plain pinyin composition nor its separator holds.
pub open spec fn foreign_to_pinyin(c: char) -> bool {
    !text::lowercase_letter(c) && c != '\''
}

// What the router can tell of the engine and of the key.
impl Router {
    /// The page size can be divided by.
    pub open spec fn well_formed(self) -> bool {
        self.settings.page_size > 0
    }

    /// The router with the engine as seen in `engine`.
    pub open spec fn seeing(self, engine: Snapshot) -> Router {
        Router { engine, ..self }
    }

    /// Something is being composed.
    pub open spec fn is_composing(self) -> bool {
        self.engine.composition@.len() > 0
    }

    /// The composition holds a character foreign to pinyin.
    pub open spec fn is_mixed(self) -> bool {
        exists|i: int|
            0 <= i < self.engine.composition@.len() && foreign_to_pinyin(
                #[trigger] self.engine.composition@[i],
            )
    }

    /// The last syllable may be finished: some way to split the composition finishes it, or there
    /// is nothing to split, or no way to split it.
    pub open spec fn is_trailing_syllable_complete(self) -> bool {
        ||| self.engine.composition@.len() == 0
        ||| match self.engine.segmentation {
            Some(unfinished) => unfinished@.contains(false),
            None => true,
        }
    }

    /// The focused application is a console, which swallows keys while a composition is open.
    pub open spec fn is_console_host(self) -> bool {
        match self.settings.focused_app {
            Some(app) => text::lowered_text(app@) == "conhost.exe"@,
            None => false,
        }
    }

    /// Punctuation is full-width in the mode at hand.
    pub open spec fn is_full_width(self, english: bool) -> bool {
        if english {
            self.settings.english_full_width
        } else {
            self.settings.full_width
        }
    }

    /// The key gets English candidates: persistent English mode, Caps Lock dark, and an
    /// application that allows it.
    pub open spec fn offers_english(self, event: KeyEvent) -> bool {
        event.modifiers.english_mode && !event.modifiers.caps && self.settings.english_candidates
    }

    /// The first index of the page that the highlight is on.
    pub open spec fn page_start(self) -> int {
        self.engine.highlight as int / self.settings.page_size as int
            * self.settings.page_size as int
    }

    /// The candidate in the slot of a digit on the page at hand, if the page has that slot.
    pub open spec fn slot(self, digit: int) -> Option<int> {
        let index = self.page_start() + digit - 1;
        if digit <= self.settings.page_size && index < self.engine.candidate_count {
            Some(index)
        } else {
            None
        }
    }

    /// The key belongs to a question about a character.
    pub open spec fn in_question(self) -> bool {
        self.is_composing() && self.engine.question_mode
    }

    /// The letters of a question are small ones, even where English mode types capitals.
    pub open spec fn question_letter(c: char, event: KeyEvent, question: bool) -> char {
        if question && event.modifiers.types_english() {
            text::lowered(c)
        } else {
            c
        }
    }

    /// The key belongs to the special composition at hand: an expression, a code point, or a
    /// keyboard scheme that types a syllable with the semicolon.
    pub open spec fn special_composition_takes(self, c: char) -> bool {
        ||| self.engine.expression_mode && self.engine.expression_char
        ||| self.engine.unicode_entry && (text::digit_character(c) || c == '+')
        ||| c == ';' && self.engine.takes_semicolon
    }

    /// The auxiliary code swallows the key: its own trigger once more, or any key while the code
    /// leaves no candidate.
    pub open spec fn aux_swallows(self, c: char) -> bool {
        self.engine.in_aux && (c == self.settings.aux_code_key || (self.engine.aux_code@.len() > 0
            && self.engine.candidate_count == 0))
    }

    /// The digit with which the key picks a candidate in Chinese mode: the keypad never does, and
    /// under Zhuyin a digit does only once the user has moved about in the candidates.
    pub open spec fn picking_digit(self, event: KeyEvent) -> Option<usize> {
        if !event.keypad && (!self.engine.zhuyin_mode || self.engine.navigated) {
            event.digit
        } else {
            None
        }
    }

    /// A dispatcher for the engine as seen in `engine`, with no sentence on offer.
    pub fn new(settings: Settings, engine: Snapshot) -> (router: Router)
        requires
            settings.page_size > 0,
        ensures
            router.well_formed(),
            router.settings == settings,
            router.engine == engine,
            router.sentence is None,
    {
        Router { settings, engine, sentence: None }
    }

    /// Tells whether something is being composed.
    pub fn composing(&self) -> (r: bool)
        ensures
            r == self.is_composing(),
    {
        !self.engine.composition.as_str().is_empty()
    }

    /// Tells whether the composition holds a character foreign to pinyin, such as a digit or a
    /// symbol.
    pub fn mixed_buffer(&self) -> (r: bool)
        ensures
            r == self.is_mixed(),
    {
        let composition = self.engine.composition.as_str();
        let n: usize = composition.unicode_len();
        let mut i: usize = 0;
        while i < n
            invariant
                i <= n,
                n == composition@.len(),
                composition@ == self.engine.composition@,
                forall|j: int| 0 <= j < i ==> !foreign_to_pinyin(#[trigger] composition@[j]),
            decreases n - i,
        {
            let c = composition.get_char(i);
            if !text::is_lowercase_letter(c) && c != '\'' {
                assert(foreign_to_pinyin(self.engine.composition@[i as int]));
                return true;
            }
            i += 1;
        }
        false
    }

    /// Tells whether the last syllable of the composition may be finished.
    pub fn trailing_syllable_complete(&self) -> (r: bool)
        ensures
            r == self.is_trailing_syllable_complete(),
    {
        if !self.composing() {
            return true;
        }
        match &self.engine.segmentation {
            Some(unfinished) => {
                let mut i: usize = 0;
                while i < unfinished.len()
                    invariant
                        i <= unfinished.len(),
                        self.engine.segmentation == Some(*unfinished),
                        forall|j: int| 0 <= j < i ==> unfinished@[j],
                    decreases unfinished.len() - i,
                {
                    if !unfinished[i] {
                        assert(unfinished@[i as int] == false);
                        return true;
                    }
                    i += 1;
                }
                false
            },
            None => true,
        }
    }

    /// Tells whether the focused application is a console.
    pub fn console_host(&self) -> (r: bool)
        ensures
            r == self.is_console_host(),
    {
        match &self.settings.focused_app {
            Some(app) => text::lowers_to(app.as_str(), "conhost.exe"),
            None => false,
        }
    }

    /// Tells whether punctuation is full-width in the mode at hand.
    pub fn full_width_for(&self, english: bool) -> (r: bool)
        ensures
            r == self.is_full_width(english),
    {
        if english {
            self.settings.english_full_width
        } else {
            self.settings.full_width
        }
    }

    /// The index of the candidate in the slot of a digit on the page at hand, if there is one.
    pub fn slot_index(&self, digit: usize) -> (r: Option<usize>)
        requires
            self.well_formed(),
            digit >= 1,
        ensures
            match self.slot(digit as int) {
                Some(index) => r == Some(index as usize) && index == index as usize,
                None => r is None,
            },
            r matches Some(index) ==> index == self.engine.highlight as int
                / self.settings.page_size as int * self.settings.page_size as int + digit - 1,
            r is Some <==> digit <= self.settings.page_size && self.engine.highlight as int
                / self.settings.page_size as int * self.settings.page_size as int + digit - 1
                < self.engine.candidate_count,
    {
        let page_size: usize = self.settings.page_size;
        let highlight: usize = self.engine.highlight;
        proof {
            vstd::arithmetic::div_mod::lemma_fundamental_div_mod(
                highlight as int,
                page_size as int,
            );
            vstd::arithmetic::mul::lemma_mul_is_commutative(
                highlight as int / page_size as int,
                page_size as int,
            );
        }
        let start: usize = highlight / page_size * page_size;
        if digit > page_size {
            return None;
        }
        match start.checked_add(digit - 1) {
            Some(index) => {
                if index < self.engine.candidate_count {
                    Some(index)
                } else {
                    None
                }
            },
            None => None,
        }
    }
}

/// Which width and which candidates a key gets is read off the settings: the width of English mode
/// or of Chinese mode, and candidates in English mode without Caps Lock where the application allows
/// them. Something is composed exactly if the composition is not empty.
pub proof fn law_settings_decide(r: Router, event: KeyEvent)
    ensures
        r.is_full_width(true) == r.settings.english_full_width,
        r.is_full_width(false) == r.settings.full_width,
        r.offers_english(event) <==> r.settings.english_candidates && event.modifiers.english_mode
            && !event.modifiers.caps,
        r.is_composing() <==> r.engine.composition@ != Seq::<char>::empty(),
        r.well_formed() <==> r.settings.page_size != 0,
{
    assert(r.engine.composition@.len() == 0 ==> r.engine.composition@ =~= Seq::empty());
}

} // verus!
