//! The markup model: an ordered sequence of (style tag, text) fragments.

use vstd::prelude::*;

verus! {

/// Semantic style category of a markup fragment. Every fragment carries
/// exactly one tag; tags never nest.
#[derive(Clone, Copy, Debug, PartialEq, Eq, Structural)]
pub enum StyleTag {
    Whitespace,
    Emphasized,
    Dimmed,
    PlainText,
    StringLit,
    Keyword,
    Value,
    Unit,
    Identifier,
    TypeIdentifier,
    Operator,
    Decorator,
}

/// One styled text unit within a markup sequence. Immutable once built.
#[derive(Clone, Debug)]
pub struct Fragment {
    pub style: StyleTag,
    pub text: String,
}

impl Fragment {
    pub fn new(style: StyleTag, text: String) -> (r: Fragment)
        ensures
            r.style == style,
            r.text@ == text@,
    {
        Fragment { style, text }
    }
}

/// An ordered sequence of fragments; renders left to right. May be empty.
#[derive(Clone, Debug)]
pub struct Markup {
    pub fragments: Vec<Fragment>,
}

impl Markup {
    pub fn new() -> (r: Markup)
        ensures
            r.fragments@.len() == 0,
    {
        Markup { fragments: Vec::new() }
    }

    pub fn push(&mut self, fragment: Fragment)
        ensures
            final(self).fragments@ == old(self).fragments@.push(fragment),
    {
        self.fragments.push(fragment);
    }

    pub fn len(&self) -> (r: usize)
        ensures
            r == self.fragments@.len(),
    {
        self.fragments.len()
    }

    pub fn is_empty(&self) -> (r: bool)
        ensures
            r == (self.fragments@.len() == 0),
    {
        self.fragments.len() == 0
    }
}

} // verus!
