//! The style classifier: maps a style tag, or a terminal color/weight
//! specification, to a stable output class name.

use vstd::prelude::*;

use crate::markup::StyleTag;

verus! {

/// Foreground color of a terminal color specification, mirroring the color
/// set of the diagnostic emission protocol.
#[derive(Clone, Copy, Debug, PartialEq, Eq, Structural)]
pub enum TermColor {
    Black,
    Blue,
    Green,
    Red,
    Cyan,
    Magenta,
    Yellow,
    White,
    Ansi256(u8),
    Rgb(u8, u8, u8),
}

/// Color state carried by the diagnostic emission protocol: an optional
/// foreground color and a bold flag. Distinct from [`StyleTag`].
#[derive(Clone, Copy, Debug, PartialEq, Eq, Structural)]
pub struct TerminalColorSpec {
    pub fg: Option<TermColor>,
    pub bold: bool,
}

/// The class name assigned to a style tag: total and deterministic,
/// one namespaced kebab-case name per tag.
pub open spec fn style_class(tag: StyleTag) -> Seq<char> {
    match tag {
        StyleTag::Whitespace => "numbat-whitespace"@,
        StyleTag::Emphasized => "numbat-emphasized"@,
        StyleTag::Dimmed => "numbat-dimmed"@,
        StyleTag::PlainText => "numbat-text"@,
        StyleTag::StringLit => "numbat-string"@,
        StyleTag::Keyword => "numbat-keyword"@,
        StyleTag::Value => "numbat-value"@,
        StyleTag::Unit => "numbat-unit"@,
        StyleTag::Identifier => "numbat-identifier"@,
        StyleTag::TypeIdentifier => "numbat-type-identifier"@,
        StyleTag::Operator => "numbat-operator"@,
        StyleTag::Decorator => "numbat-decorator"@,
    }
}

/// The class name assigned to a terminal color specification: partial and
/// priority-ordered. A red foreground wins, then a blue foreground, then the
/// bold flag; anything else yields no class at all.
pub open spec fn color_class(spec: TerminalColorSpec) -> Option<Seq<char>> {
    if spec.fg == Some(TermColor::Red) {
        Some("numbat-diagnostic-red"@)
    } else if spec.fg == Some(TermColor::Blue) {
        Some("numbat-diagnostic-blue"@)
    } else if spec.bold {
        Some("numbat-diagnostic-bold"@)
    } else {
        None
    }
}

/// The character view of an optional class name.
pub open spec fn opt_class_view(r: Option<String>) -> Option<Seq<char>> {
    match r {
        Some(s) => Some(s@),
        None => None,
    }
}

/// Things that carry a CSS class name for rendered output.
pub trait CSSClass {
    /// The class this value maps to, if any.
    spec fn class_spec(&self) -> Option<Seq<char>>;

    /// Returns the class name this value maps to, or `None` when the value
    /// carries no class.
    fn cssclass(&self) -> (r: Option<String>)
        ensures
            opt_class_view(r) == self.class_spec(),
    ;
}

impl CSSClass for StyleTag {
    open spec fn class_spec(&self) -> Option<Seq<char>> {
        Some(style_class(*self))
    }

    fn cssclass(&self) -> (r: Option<String>)
        ensures
            opt_class_view(r) == self.class_spec(),
    {
        let name = match self {
            StyleTag::Whitespace => String::from_str("numbat-whitespace"),
            StyleTag::Emphasized => String::from_str("numbat-emphasized"),
            StyleTag::Dimmed => String::from_str("numbat-dimmed"),
            StyleTag::PlainText => String::from_str("numbat-text"),
            StyleTag::StringLit => String::from_str("numbat-string"),
            StyleTag::Keyword => String::from_str("numbat-keyword"),
            StyleTag::Value => String::from_str("numbat-value"),
            StyleTag::Unit => String::from_str("numbat-unit"),
            StyleTag::Identifier => String::from_str("numbat-identifier"),
            StyleTag::TypeIdentifier => String::from_str("numbat-type-identifier"),
            StyleTag::Operator => String::from_str("numbat-operator"),
            StyleTag::Decorator => String::from_str("numbat-decorator"),
        };
        Some(name)
    }
}

impl CSSClass for TerminalColorSpec {
    open spec fn class_spec(&self) -> Option<Seq<char>> {
        color_class(*self)
    }

    fn cssclass(&self) -> (r: Option<String>)
        ensures
            opt_class_view(r) == self.class_spec(),
    {
        let is_red = match self.fg {
            Some(TermColor::Red) => true,
            _ => false,
        };
        let is_blue = match self.fg {
            Some(TermColor::Blue) => true,
            _ => false,
        };
        if is_red {
            Some(String::from_str("numbat-diagnostic-red"))
        } else if is_blue {
            Some(String::from_str("numbat-diagnostic-blue"))
        } else if self.bold {
            Some(String::from_str("numbat-diagnostic-bold"))
        } else {
            None
        }
    }
}

/// Law: classifying a style tag is a pure function of the tag; two equal
/// tags always yield the same class name.
pub proof fn lemma_style_class_deterministic(a: StyleTag, b: StyleTag)
    requires
        a == b,
    ensures
        style_class(a) == style_class(b),
{
}

/// Law: every style tag maps to a non-empty class name.
pub proof fn lemma_style_class_nonempty(tag: StyleTag)
    ensures
        style_class(tag).len() > 0,
{
    reveal_strlit("numbat-whitespace");
    reveal_strlit("numbat-emphasized");
    reveal_strlit("numbat-dimmed");
    reveal_strlit("numbat-text");
    reveal_strlit("numbat-string");
    reveal_strlit("numbat-keyword");
    reveal_strlit("numbat-value");
    reveal_strlit("numbat-unit");
    reveal_strlit("numbat-identifier");
    reveal_strlit("numbat-type-identifier");
    reveal_strlit("numbat-operator");
    reveal_strlit("numbat-decorator");
}

/// Law: the color checks are priority-ordered. A red foreground classifies
/// as the red class whatever the bold flag says; a non-red blue foreground
/// classifies as the blue class likewise; bold only matters when neither
/// color is set.
pub proof fn lemma_color_class_priority(spec: TerminalColorSpec)
    ensures
        spec.fg == Some(TermColor::Red) ==> color_class(spec) == Some("numbat-diagnostic-red"@),
        spec.fg == Some(TermColor::Blue) ==> color_class(spec) == Some("numbat-diagnostic-blue"@),
        spec.fg != Some(TermColor::Red) && spec.fg != Some(TermColor::Blue) && spec.bold
            ==> color_class(spec) == Some("numbat-diagnostic-bold"@),
        spec.fg != Some(TermColor::Red) && spec.fg != Some(TermColor::Blue) && !spec.bold
            ==> color_class(spec) == None::<Seq<char>>,
{
}

} // verus!
