//! Character classes and string building for key handling.

use vstd::prelude::*;
use vstd::string::*;

verus! {

/// `String::push` of std: the character goes to the end of the string, and what the string held
/// before it stays as it was.
pub assume_specification[ String::push ](string: &mut String, c: char)
    ensures
        final(string)@ == old(string)@.push(c),
;

/// `a` to `z`.
pub open spec fn lowercase_letter(c: char) -> bool {
    'a' <= c <= 'z'
}

/// `A` to `Z`.
pub open spec fn uppercase_letter(c: char) -> bool {
    'A' <= c <= 'Z'
}

/// A letter of the Latin alphabet, in either case.
pub open spec fn letter(c: char) -> bool {
    lowercase_letter(c) || uppercase_letter(c)
}

/// `0` to `9`.
pub open spec fn digit_character(c: char) -> bool {
    '0' <= c <= '9'
}

/// A visible ASCII character: `!` to `~`.
pub open spec fn graphic(c: char) -> bool {
    '!' <= c <= '~'
}

/// A character of Unicode's category Cc: below the space, or from DEL to U+009F.
pub open spec fn control(c: char) -> bool {
    (c as u32) < 0x20 || 0x7f <= (c as u32) <= 0x9f
}

/// `c`, with an ASCII capital turned into its small letter.
pub open spec fn lowered(c: char) -> char {
    if uppercase_letter(c) {
        ((c as u8) + 32) as char
    } else {
        c
    }
}

/// Every character of `text`, lowered.
pub open spec fn lowered_text(text: Seq<char>) -> Seq<char> {
    text.map_values(|c: char| lowered(c))
}

/// Tells whether `c` is `a` to `z`.
pub fn is_lowercase_letter(c: char) -> (r: bool)
    ensures
        r == lowercase_letter(c),
{
    'a' <= c && c <= 'z'
}

/// Tells whether `c` is `A` to `Z`.
pub fn is_uppercase_letter(c: char) -> (r: bool)
    ensures
        r == uppercase_letter(c),
{
    'A' <= c && c <= 'Z'
}

/// Tells whether `c` is a letter of the Latin alphabet.
pub fn is_letter(c: char) -> (r: bool)
    ensures
        r == letter(c),
{
    is_lowercase_letter(c) || is_uppercase_letter(c)
}

/// Tells whether `c` is `0` to `9`.
pub fn is_digit_character(c: char) -> (r: bool)
    ensures
        r == digit_character(c),
{
    '0' <= c && c <= '9'
}

/// Tells whether `c` is a visible ASCII character.
pub fn is_graphic(c: char) -> (r: bool)
    ensures
        r == graphic(c),
{
    '!' <= c && c <= '~'
}

/// Tells whether `c` is a control character.
pub fn is_control(c: char) -> (r: bool)
    ensures
        r == control(c),
{
    let code: u32 = c as u32;
    code < 0x20 || (0x7f <= code && code <= 0x9f)
}

/// `c`, with an ASCII capital turned into its small letter.
pub fn to_lowered(c: char) -> (r: char)
    ensures
        r == lowered(c),
{
    if is_uppercase_letter(c) {
        ((c as u8) + 32) as char
    } else {
        c
    }
}

/// The string that holds `c` alone.
pub fn char_string(c: char) -> (text: String)
    ensures
        text@ == seq![c],
{
    let mut text = String::new();
    text.push(c);
    assert(text@ =~= seq![c]);
    text
}

/// `text`, after the earlier text `before` where there is one.
pub open spec fn joined(before: Option<Seq<char>>, text: Seq<char>) -> Seq<char> {
    match before {
        Some(b) => b + text,
        None => text,
    }
}

/// Joins `text` to the earlier text `before`, where there is one.
pub fn join(before: Option<String>, text: String) -> (whole: String)
    ensures
        whole@ == joined(text_view(before), text@),
{
    match before {
        Some(b) => b.concat(text.as_str()),
        None => text,
    }
}

/// The characters of a string that may be absent.
pub open spec fn text_view(text: Option<String>) -> Option<Seq<char>> {
    match text {
        Some(t) => Some(t@),
        None => None,
    }
}

/// Tells whether `text`, lowered, is `wanted`.
pub fn lowers_to(text: &str, wanted: &str) -> (r: bool)
    ensures
        r == (lowered_text(text@) == wanted@),
{
    let n: usize = text.unicode_len();
    if n != wanted.unicode_len() {
        assert(lowered_text(text@).len() != wanted@.len());
        return false;
    }
    let mut i: usize = 0;
    while i < n
        invariant
            i <= n,
            n == text@.len(),
            n == wanted@.len(),
            forall|j: int| 0 <= j < i ==> lowered(#[trigger] text@[j]) == wanted@[j],
        decreases n - i,
    {
        if to_lowered(text.get_char(i)) != wanted.get_char(i) {
            assert(lowered_text(text@)[i as int] != wanted@[i as int]);
            return false;
        }
        i += 1;
    }
    assert(lowered_text(text@) =~= wanted@);
    true
}

/// The classes of characters by their code points: 26 small letters from U+0061, 26 capitals from
/// U+0041, ten digits from U+0030, the visible ASCII characters, and the control characters. A
/// letter is one of the first two.
pub proof fn law_classes_by_code_point(c: char)
    ensures
        lowercase_letter(c) <==> 0x61 <= (c as u32) < 0x61 + 26,
        uppercase_letter(c) <==> 0x41 <= (c as u32) < 0x41 + 26,
        letter(c) <==> (0x61 <= (c as u32) < 0x61 + 26) || (0x41 <= (c as u32) < 0x41 + 26),
        digit_character(c) <==> 0x30 <= (c as u32) < 0x30 + 10,
        graphic(c) <==> 0x20 < (c as u32) < 0x7f,
        control(c) <==> (c as u32) <= 0x1f || 0x7f <= (c as u32) < 0xa0,
{
}

/// Lowering moves a capital 32 code points up and leaves every other character as it is, so that
/// no capital is left and lowering again changes nothing. A text is lowered character by character.
pub proof fn law_lowering_moves_capitals_alone(c: char, text: Seq<char>)
    ensures
        0x41 <= (c as u32) <= 0x5a ==> lowered(c) as u32 == c as u32 + 32,
        !(0x41 <= (c as u32) <= 0x5a) ==> lowered(c) == c,
        lowered(lowered(c)) == lowered(c),
        lowered_text(text).len() == text.len(),
        forall|i: int|
            0 <= i < text.len() ==> (#[trigger] lowered_text(text)[i]) == (if 'A' <= text[i]
                <= 'Z' {
                (text[i] as u32 + 32) as char
            } else {
                text[i]
            }),
{
}

/// A text joined to an earlier one goes behind it, and stands alone where there is none.
pub proof fn law_joining_appends(earlier: Seq<char>, text: Seq<char>)
    ensures
        joined(Some(earlier), text) == earlier + text,
        joined(None, text) == text,
{
}

/// The characters of a string are present exactly if the string is.
pub proof fn law_text_is_seen_whole(text: String)
    ensures
        text_view(Some(text)) == Some(text@),
        text_view(None) == None::<Seq<char>>,
{
}

} // verus!
