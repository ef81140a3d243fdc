//! What a key press comes to.

use crate::text;
use vstd::prelude::*;
use vstd::string::*;

verus! {

/// What the application is to do about a key.
#[derive(Debug, PartialEq, Eq)]
pub enum Effect {
    /// The key goes on to the application.
    Passthrough,
    /// The key is taken and the composition may have changed; the text, if any, is committed.
    Changed(Option<String>),
    /// The key is taken and only moved about in the candidates.
    Navigated,
}

/// An [`Effect`] with its text as a sequence of characters.
pub enum EffectView {
    Passthrough,
    Changed(Option<Seq<char>>),
    Navigated,
}

impl View for Effect {
    type V = EffectView;

    open spec fn view(&self) -> EffectView {
        match *self {
            Effect::Passthrough => EffectView::Passthrough,
            Effect::Changed(text) => EffectView::Changed(text::text_view(text)),
            Effect::Navigated => EffectView::Navigated,
        }
    }
}

impl EffectView {
    /// The text that reaches the document when the key types `own`: what is committed, or the
    /// key's own text where the application gets the key.
    pub open spec fn delivered(self, own: Seq<char>) -> Seq<char> {
        match self {
            EffectView::Passthrough => own,
            EffectView::Changed(Some(text)) => text,
            EffectView::Changed(None) => Seq::empty(),
            EffectView::Navigated => Seq::empty(),
        }
    }

    /// The effect with `before` committed ahead of it, for a key that types `c`. A key that would
    /// have gone on to the application is taken, and its character committed behind `before`: the
    /// application would otherwise insert it first.
    pub open spec fn with_prefix(self, before: Option<Seq<char>>, c: char) -> EffectView {
        match before {
            Some(text) => EffectView::Changed(Some(text + self.delivered(seq![c]))),
            None => self,
        }
    }
}

/// The effect with `before` committed ahead of it, for a key that types `c`.
pub fn with_prefix(before: Option<String>, effect: Effect, c: char) -> (r: Effect)
    ensures
        r@ == effect@.with_prefix(text::text_view(before), c),
{
    match before {
        None => effect,
        Some(text) => {
            let whole = match effect {
                Effect::Passthrough => text.concat(text::char_string(c).as_str()),
                Effect::Changed(Some(more)) => text.concat(more.as_str()),
                Effect::Changed(None) => {
                    assert(text@ + Seq::<char>::empty() =~= text@);
                    text
                },
                Effect::Navigated => {
                    assert(text@ + Seq::<char>::empty() =~= text@);
                    text
                },
            };
            Effect::Changed(Some(whole))
        },
    }
}

/// Text put ahead of an effect twice comes out in the order in which it was committed: the outer
/// text, the inner text, then what the key yields.
pub proof fn law_prefixes_join(
    outer: Seq<char>,
    inner: Option<Seq<char>>,
    effect: EffectView,
    c: char,
)
    ensures
        effect.with_prefix(inner, c).with_prefix(Some(outer), c) == effect.with_prefix(
            Some(text::joined(Some(outer), text::joined(inner, Seq::empty()))),
            c,
        ),
{
    let own = effect.delivered(seq![c]);
    match inner {
        Some(text) => {
            assert(text + Seq::<char>::empty() =~= text);
            assert(outer + (text + own) =~= (outer + text) + own);
        },
        None => {
            assert(outer + Seq::<char>::empty() =~= outer);
        },
    }
}

/// Text put ahead of an effect is never lost and never comes second: what reaches the document is
/// that text followed by what the effect alone would have brought there.
pub proof fn law_prefix_comes_first(before: Option<Seq<char>>, effect: EffectView, c: char)
    ensures
        effect.with_prefix(before, c).delivered(seq![c]) == text::joined(
            before,
            effect.delivered(seq![c]),
        ),
        before is Some ==> effect.with_prefix(before, c) is Changed,
{
}

/// With the text `b` ahead, a key for the application commits `b` and its character, a commit goes
/// behind `b`, and any other effect commits `b` alone. With nothing ahead every effect stays as it
/// is.
pub proof fn law_prefix_by_effect(b: Seq<char>, text: Seq<char>, effect: EffectView, c: char)
    ensures
        EffectView::Passthrough.with_prefix(Some(b), c) == EffectView::Changed(Some(b.push(c))),
        EffectView::Changed(Some(text)).with_prefix(Some(b), c) == EffectView::Changed(
            Some(b + text),
        ),
        EffectView::Changed(None).with_prefix(Some(b), c) == EffectView::Changed(Some(b)),
        EffectView::Navigated.with_prefix(Some(b), c) == EffectView::Changed(Some(b)),
        effect.with_prefix(None, c) == effect,
{
    assert(b + seq![c] =~= b.push(c));
    assert(b + Seq::<char>::empty() =~= b);
}

/// An effect is seen as what it is, its text character by character.
pub proof fn law_effects_are_seen_as_they_are(text: String)
    ensures
        Effect::Passthrough@ == EffectView::Passthrough,
        Effect::Navigated@ == EffectView::Navigated,
        Effect::Changed(None)@ == EffectView::Changed(None),
        Effect::Changed(Some(text))@ == EffectView::Changed(Some(text@)),
{
}

} // verus!
