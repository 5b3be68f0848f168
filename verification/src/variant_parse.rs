//! The grammar of a variant: what stands before the `:` of a token.

use vstd::prelude::*;
use vstd::string::*;
use crate::parsing::{closing, find_closing, find_colon, next_colon, sub_chars};
use crate::text::{chars_of, contains_char, find_char, has_char, position_from, slice_text};

verus! {

/// Why a variant could not be read.
#[derive(Debug, Clone, Copy, PartialEq, Eq, Structural)]
pub enum ParserError {
    /// A character stands where the grammar has no place for it.
    UnexpectedToken,
    /// The text ends before the variant does.
    UnexpectedEnd,
}

/// What an arbitrary variant does with a rule.
#[derive(Debug, Clone, Copy, PartialEq, Eq, Structural)]
pub enum ArbitraryVariantKind {
    /// Replaces the selector: `&:nth-child(3)`.
    Replacement,
    /// Nests the rule in an at-rule: `@media ...`.
    Nested,
}

/// Something like `[@media(min-width: 300px)]` or `[&:nth-child(3)]`.
#[derive(Debug, PartialEq)]
pub struct ArbitraryVariant {
    pub kind: ArbitraryVariantKind,
    pub value: String,
}

/// The modifier of a literal variant.
#[derive(Debug, PartialEq)]
pub enum Modifier {
    Arbitrary(String),
    Literal(String),
}

/// A named variant, possibly with a bracketed block and a modifier.
#[derive(Debug, PartialEq)]
pub struct LiteralVariant {
    pub value: String,
    pub modifier: Option<Modifier>,
    pub arbitrary: Option<String>,
}

#[derive(Debug, PartialEq)]
pub enum VariantKind {
    Arbitrary(ArbitraryVariant),
    Literal(LiteralVariant),
}

/// A variant as it stands in a token, with its `:`.
#[derive(Debug, PartialEq)]
pub struct Variant {
    pub raw: String,
    pub kind: VariantKind,
}

/// The mathematical content of a [`Modifier`].
pub ghost enum ModifierView {
    Arbitrary(Seq<char>),
    Literal(Seq<char>),
}

/// The mathematical content of a [`VariantKind`].
pub ghost enum VariantKindView {
    Arbitrary { kind: ArbitraryVariantKind, value: Seq<char> },
    Literal { value: Seq<char>, modifier: Option<ModifierView>, arbitrary: Option<Seq<char>> },
}

/// The mathematical content of a [`Variant`].
pub ghost struct VariantView {
    pub raw: Seq<char>,
    pub kind: VariantKindView,
}

impl View for Modifier {
    type V = ModifierView;

    open spec fn view(&self) -> ModifierView {
        match self {
            Modifier::Arbitrary(s) => ModifierView::Arbitrary(s@),
            Modifier::Literal(s) => ModifierView::Literal(s@),
        }
    }
}

impl View for VariantKind {
    type V = VariantKindView;

    open spec fn view(&self) -> VariantKindView {
        match self {
            VariantKind::Arbitrary(a) => VariantKindView::Arbitrary { kind: a.kind, value: a.value@ },
            VariantKind::Literal(l) => VariantKindView::Literal {
                value: l.value@,
                modifier: match l.modifier {
                    Some(m) => Some(m@),
                    None => None,
                },
                arbitrary: crate::theme::opt_text(l.arbitrary),
            },
        }
    }
}

impl View for Variant {
    type V = VariantView;

    open spec fn view(&self) -> VariantView {
        VariantView { raw: self.raw@, kind: self.kind@ }
    }
}

/// What the content of a bracketed variant does: an at-rule nests, a
/// selector with `&` replaces, anything else is no variant.
pub open spec fn arbitrary_kind(content: Seq<char>) -> Option<ArbitraryVariantKind> {
    if content.len() > 0 && content[0] == '@' {
        Some(ArbitraryVariantKind::Nested)
    } else if has_char(content, '&') {
        Some(ArbitraryVariantKind::Replacement)
    } else {
        None
    }
}

impl ArbitraryVariant {
    /// Reads the content of a bracketed variant.
    pub fn parse(content: &Vec<char>) -> (r: Result<ArbitraryVariant, ParserError>)
        ensures
            match r {
                Ok(a) => arbitrary_kind(content@) == Some(a.kind) && a.value@ == content@,
                Err(e) => arbitrary_kind(content@) is None && e == ParserError::UnexpectedToken,
            },
    {
        let n = content.len();
        proof {
            assert(content@.subrange(0, n as int) =~= content@);
        }
        if n > 0 && content[0] == '@' {
            Ok(ArbitraryVariant { kind: ArbitraryVariantKind::Nested, value: slice_text(content, 0, n) })
        } else if contains_char(content, '&', 0, n) {
            Ok(
                ArbitraryVariant {
                    kind: ArbitraryVariantKind::Replacement,
                    value: slice_text(content, 0, n),
                },
            )
        } else {
            Err(ParserError::UnexpectedToken)
        }
    }
}

/// The content of the bracketed block that opens at `open`, and where it
/// closes: everything up to the `]` that matches.
pub open spec fn bracket_content(s: Seq<char>, open: int) -> Result<(Seq<char>, int), ParserError> {
    let c = closing(s, open + 1, 1);
    if c >= s.len() {
        Err(ParserError::UnexpectedEnd)
    } else {
        Ok((s.subrange(open + 1, c), c))
    }
}

/// Reads the bracketed block that opens at `open`.
pub fn parse_arbitrary(v: &Vec<char>, open: usize) -> (r: Result<(String, usize), ParserError>)
    requires
        open < v@.len(),
    ensures
        match r {
            Ok((content, close)) => bracket_content(v@, open as int) == Ok::<
                (Seq<char>, int),
                ParserError,
            >((content@, close as int)) && open < close < v@.len(),
            Err(e) => bracket_content(v@, open as int) == Err::<(Seq<char>, int), ParserError>(e),
        },
{
    let n = v.len();
    let c = find_closing(v, open + 1);
    if c >= n {
        Err(ParserError::UnexpectedEnd)
    } else {
        Ok((slice_text(v, open + 1, c), c))
    }
}

/// The modifier after a `/`: a bracketed block is arbitrary, anything
/// else literal; nothing at all is an early end.
pub open spec fn variant_modifier(m: Seq<char>) -> Result<ModifierView, ParserError> {
    if m.len() == 0 {
        Err(ParserError::UnexpectedEnd)
    } else if m[0] == '[' {
        match bracket_content(m, 0) {
            Ok((content, close)) => if close == m.len() - 1 {
                Ok(ModifierView::Arbitrary(content))
            } else {
                Err(ParserError::UnexpectedToken)
            },
            Err(e) => Err(e),
        }
    } else {
        Ok(ModifierView::Literal(m))
    }
}

/// What may follow the name or the block of a literal variant: nothing, or
/// `/` and a modifier.
pub open spec fn variant_rest(after: Seq<char>) -> Result<Option<ModifierView>, ParserError> {
    if after.len() == 0 {
        Ok(None)
    } else if after[0] == '/' {
        match variant_modifier(after.drop_first()) {
            Ok(m) => Ok(Some(m)),
            Err(e) => Err(e),
        }
    } else {
        Err(ParserError::UnexpectedToken)
    }
}

/// `s` without the `-` that may end it.
pub open spec fn without_dash(s: Seq<char>) -> Seq<char> {
    if s.len() > 0 && s.last() == '-' {
        s.drop_last()
    } else {
        s
    }
}

/// The grammar of a variant without its `:`. A segment that opens with a
/// bracket is an arbitrary variant and must be one block. Otherwise it is a
/// name, then optionally a bracketed block (a `-` between them goes away),
/// then optionally `/` and a modifier.
pub open spec fn variant_segment(seg: Seq<char>) -> Result<VariantKindView, ParserError> {
    if seg.len() == 0 {
        Err(ParserError::UnexpectedEnd)
    } else if seg[0] == '[' {
        match bracket_content(seg, 0) {
            Err(e) => Err(e),
            Ok((content, close)) => if close != seg.len() - 1 {
                Err(ParserError::UnexpectedToken)
            } else {
                match arbitrary_kind(content) {
                    Some(kind) => Ok(VariantKindView::Arbitrary { kind, value: content }),
                    None => Err(ParserError::UnexpectedToken),
                }
            },
        }
    } else {
        let open = position_from(seg, '[', 0);
        let slash = position_from(seg, '/', 0);
        if open < slash {
            let name = without_dash(seg.subrange(0, open));
            if name.len() == 0 {
                Err(ParserError::UnexpectedToken)
            } else {
                match bracket_content(seg, open) {
                    Err(e) => Err(e),
                    Ok((content, close)) => match variant_rest(
                        seg.subrange(close + 1, seg.len() as int),
                    ) {
                        Err(e) => Err(e),
                        Ok(modifier) => Ok(
                            VariantKindView::Literal {
                                value: name,
                                modifier,
                                arbitrary: Some(content),
                            },
                        ),
                    },
                }
            }
        } else {
            let name = seg.subrange(0, slash);
            if name.len() == 0 {
                Err(ParserError::UnexpectedToken)
            } else {
                match variant_rest(seg.subrange(slash, seg.len() as int)) {
                    Err(e) => Err(e),
                    Ok(modifier) => Ok(
                        VariantKindView::Literal { value: name, modifier, arbitrary: None },
                    ),
                }
            }
        }
    }
}

/// The grammar of a variant with its `:`; the `:` is the first one outside
/// brackets, and what follows it is left alone.
pub open spec fn variant_grammar(input: Seq<char>) -> Result<VariantView, ParserError> {
    let colon = next_colon(input, 0, 0);
    if colon >= input.len() {
        Err(ParserError::UnexpectedEnd)
    } else {
        match variant_segment(input.subrange(0, colon)) {
            Ok(kind) => Ok(VariantView { raw: input.subrange(0, colon + 1), kind }),
            Err(e) => Err(e),
        }
    }
}

/// Reads the modifier after a `/`.
fn read_variant_modifier(m: &Vec<char>) -> (r: Result<Modifier, ParserError>)
    ensures
        match r {
            Ok(x) => variant_modifier(m@) == Ok::<ModifierView, ParserError>(x@),
            Err(e) => variant_modifier(m@) == Err::<ModifierView, ParserError>(e),
        },
{
    if m.len() == 0 {
        Err(ParserError::UnexpectedEnd)
    } else if m[0] == '[' {
        match parse_arbitrary(m, 0) {
            Ok((content, close)) => {
                if close == m.len() - 1 {
                    Ok(Modifier::Arbitrary(content))
                } else {
                    Err(ParserError::UnexpectedToken)
                }
            },
            Err(e) => Err(e),
        }
    } else {
        let s = slice_text(m, 0, m.len());
        assert(m@.subrange(0, m@.len() as int) =~= m@);
        Ok(Modifier::Literal(s))
    }
}

/// The content of an optional modifier.
pub open spec fn opt_modifier_view(m: Option<Modifier>) -> Option<ModifierView> {
    match m {
        Some(m) => Some(m@),
        None => None,
    }
}

/// Reads what may follow the name or the block of a literal variant.
fn read_variant_rest(after: &Vec<char>) -> (r: Result<Option<Modifier>, ParserError>)
    ensures
        match r {
            Ok(x) => variant_rest(after@) == Ok::<Option<ModifierView>, ParserError>(
                opt_modifier_view(x),
            ),
            Err(e) => variant_rest(after@) == Err::<Option<ModifierView>, ParserError>(e),
        },
{
    if after.len() == 0 {
        Ok(None)
    } else if after[0] == '/' {
        let m = sub_chars(after, 1, after.len());
        assert(m@ =~= after@.drop_first());
        match read_variant_modifier(&m) {
            Ok(m) => Ok(Some(m)),
            Err(e) => Err(e),
        }
    } else {
        Err(ParserError::UnexpectedToken)
    }
}

impl VariantKind {
    /// Reads a variant without its `:`.
    pub fn parse(seg: &Vec<char>) -> (r: Result<VariantKind, ParserError>)
        ensures
            match r {
                Ok(k) => variant_segment(seg@) == Ok::<VariantKindView, ParserError>(k@),
                Err(e) => variant_segment(seg@) == Err::<VariantKindView, ParserError>(e),
            },
    {
        let n = seg.len();
        if n == 0 {
            return Err(ParserError::UnexpectedEnd);
        }
        if seg[0] == '[' {
            let (content, close) = match parse_arbitrary(seg, 0) {
                Ok(x) => x,
                Err(e) => {
                    return Err(e);
                },
            };
            if close != n - 1 {
                return Err(ParserError::UnexpectedToken);
            }
            let chars = sub_chars(seg, 1, close);
            return match ArbitraryVariant::parse(&chars) {
                Ok(a) => Ok(VariantKind::Arbitrary(a)),
                Err(e) => Err(e),
            };
        }
        let open = find_char(seg, '[', 0);
        let slash = find_char(seg, '/', 0);
        if open < slash {
            let end = if open > 0 && seg[open - 1] == '-' {
                open - 1
            } else {
                open
            };
            proof {
                let head = seg@.subrange(0, open as int);
                if head.len() > 0 && head.last() == '-' {
                    assert(head.drop_last() =~= seg@.subrange(0, end as int));
                }
            }
            if end == 0 {
                return Err(ParserError::UnexpectedToken);
            }
            let name = slice_text(seg, 0, end);
            let (content, close) = match parse_arbitrary(seg, open) {
                Ok(x) => x,
                Err(e) => {
                    return Err(e);
                },
            };
            let after = sub_chars(seg, close + 1, n);
            match read_variant_rest(&after) {
                Ok(modifier) => Ok(
                    VariantKind::Literal(
                        LiteralVariant { value: name, modifier, arbitrary: Some(content) },
                    ),
                ),
                Err(e) => Err(e),
            }
        } else {
            if slash == 0 {
                return Err(ParserError::UnexpectedToken);
            }
            let name = slice_text(seg, 0, slash);
            let after = sub_chars(seg, slash, n);
            match read_variant_rest(&after) {
                Ok(modifier) => Ok(
                    VariantKind::Literal(LiteralVariant { value: name, modifier, arbitrary: None }),
                ),
                Err(e) => Err(e),
            }
        }
    }
}

impl Variant {
    /// Reads the variant that `input` starts with, up to and with its `:`.
    pub fn parse(input: &str) -> (r: Result<Variant, ParserError>)
        ensures
            match r {
                Ok(v) => variant_grammar(input@) == Ok::<VariantView, ParserError>(v@),
                Err(e) => variant_grammar(input@) == Err::<VariantView, ParserError>(e),
            },
    {
        let v = chars_of(input);
        let colon = find_colon(&v, 0);
        if colon >= v.len() {
            return Err(ParserError::UnexpectedEnd);
        }
        let seg = sub_chars(&v, 0, colon);
        match VariantKind::parse(&seg) {
            Ok(kind) => Ok(Variant { raw: slice_text(&v, 0, colon + 1), kind }),
            Err(e) => Err(e),
        }
    }
}

} // verus!
