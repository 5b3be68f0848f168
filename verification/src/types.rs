//! Validators for arbitrary values: a value is accepted when it parses as a
//! value of a CSS property or of a CSS data type.

use vstd::prelude::*;
use vstd::string::*;
use lightningcss::properties::{Property, PropertyId};
use lightningcss::stylesheet::ParserOptions;
use lightningcss::values::syntax::SyntaxString;
use crate::text::same_text;

verus! {

/// The CSS properties that utilities validate against.
#[derive(Debug, Clone, Copy, PartialEq, Eq, Structural)]
pub enum CssProperty {
    AccentColor,
    BackgroundImage,
    BackgroundPosition,
    BackgroundSize,
    BorderColor,
    BorderRadius,
    BorderRightWidth,
    BorderTopWidth,
    BorderWidth,
    BoxShadow,
    Color,
    Cursor,
    Flex,
    FlexBasis,
    FlexGrow,
    FlexShrink,
    FontSize,
    FontStretch,
    FontWeight,
    Gap,
    GridAutoColumns,
    GridAutoRows,
    Height,
    Inset,
    Left,
    LineHeight,
    ListStyleImage,
    ListStyleType,
    Margin,
    MarginBottom,
    MarginLeft,
    MarginRight,
    MarginTop,
    MaxHeight,
    MaxWidth,
    MinHeight,
    MinWidth,
    Opacity,
    OutlineWidth,
    Padding,
    PaddingTop,
    Rotate,
    ScrollMargin,
    ScrollPadding,
    TextIndent,
    Top,
    Transform,
    TransformOrigin,
    Width,
}

impl CssProperty {
    /// The property's name in a style sheet.
    pub open spec fn name_spec(self) -> Seq<char> {
        match self {
            CssProperty::AccentColor => "accent-color"@,
            CssProperty::BackgroundImage => "background-image"@,
            CssProperty::BackgroundPosition => "background-position"@,
            CssProperty::BackgroundSize => "background-size"@,
            CssProperty::BorderColor => "border-color"@,
            CssProperty::BorderRadius => "border-radius"@,
            CssProperty::BorderRightWidth => "border-right-width"@,
            CssProperty::BorderTopWidth => "border-top-width"@,
            CssProperty::BorderWidth => "border-width"@,
            CssProperty::BoxShadow => "box-shadow"@,
            CssProperty::Color => "color"@,
            CssProperty::Cursor => "cursor"@,
            CssProperty::Flex => "flex"@,
            CssProperty::FlexBasis => "flex-basis"@,
            CssProperty::FlexGrow => "flex-grow"@,
            CssProperty::FlexShrink => "flex-shrink"@,
            CssProperty::FontSize => "font-size"@,
            CssProperty::FontStretch => "font-stretch"@,
            CssProperty::FontWeight => "font-weight"@,
            CssProperty::Gap => "gap"@,
            CssProperty::GridAutoColumns => "grid-auto-columns"@,
            CssProperty::GridAutoRows => "grid-auto-rows"@,
            CssProperty::Height => "height"@,
            CssProperty::Inset => "inset"@,
            CssProperty::Left => "left"@,
            CssProperty::LineHeight => "line-height"@,
            CssProperty::ListStyleImage => "list-style-image"@,
            CssProperty::ListStyleType => "list-style-type"@,
            CssProperty::Margin => "margin"@,
            CssProperty::MarginBottom => "margin-bottom"@,
            CssProperty::MarginLeft => "margin-left"@,
            CssProperty::MarginRight => "margin-right"@,
            CssProperty::MarginTop => "margin-top"@,
            CssProperty::MaxHeight => "max-height"@,
            CssProperty::MaxWidth => "max-width"@,
            CssProperty::MinHeight => "min-height"@,
            CssProperty::MinWidth => "min-width"@,
            CssProperty::Opacity => "opacity"@,
            CssProperty::OutlineWidth => "outline-width"@,
            CssProperty::Padding => "padding"@,
            CssProperty::PaddingTop => "padding-top"@,
            CssProperty::Rotate => "rotate"@,
            CssProperty::ScrollMargin => "scroll-margin"@,
            CssProperty::ScrollPadding => "scroll-padding"@,
            CssProperty::TextIndent => "text-indent"@,
            CssProperty::Top => "top"@,
            CssProperty::Transform => "transform"@,
            CssProperty::TransformOrigin => "transform-origin"@,
            CssProperty::Width => "width"@,
        }
    }

    /// The property's name in a style sheet.
    pub fn name(self) -> (name: &'static str)
        ensures
            name@ == self.name_spec(),
    {
        match self {
            CssProperty::AccentColor => "accent-color",
            CssProperty::BackgroundImage => "background-image",
            CssProperty::BackgroundPosition => "background-position",
            CssProperty::BackgroundSize => "background-size",
            CssProperty::BorderColor => "border-color",
            CssProperty::BorderRadius => "border-radius",
            CssProperty::BorderRightWidth => "border-right-width",
            CssProperty::BorderTopWidth => "border-top-width",
            CssProperty::BorderWidth => "border-width",
            CssProperty::BoxShadow => "box-shadow",
            CssProperty::Color => "color",
            CssProperty::Cursor => "cursor",
            CssProperty::Flex => "flex",
            CssProperty::FlexBasis => "flex-basis",
            CssProperty::FlexGrow => "flex-grow",
            CssProperty::FlexShrink => "flex-shrink",
            CssProperty::FontSize => "font-size",
            CssProperty::FontStretch => "font-stretch",
            CssProperty::FontWeight => "font-weight",
            CssProperty::Gap => "gap",
            CssProperty::GridAutoColumns => "grid-auto-columns",
            CssProperty::GridAutoRows => "grid-auto-rows",
            CssProperty::Height => "height",
            CssProperty::Inset => "inset",
            CssProperty::Left => "left",
            CssProperty::LineHeight => "line-height",
            CssProperty::ListStyleImage => "list-style-image",
            CssProperty::ListStyleType => "list-style-type",
            CssProperty::Margin => "margin",
            CssProperty::MarginBottom => "margin-bottom",
            CssProperty::MarginLeft => "margin-left",
            CssProperty::MarginRight => "margin-right",
            CssProperty::MarginTop => "margin-top",
            CssProperty::MaxHeight => "max-height",
            CssProperty::MaxWidth => "max-width",
            CssProperty::MinHeight => "min-height",
            CssProperty::MinWidth => "min-width",
            CssProperty::Opacity => "opacity",
            CssProperty::OutlineWidth => "outline-width",
            CssProperty::Padding => "padding",
            CssProperty::PaddingTop => "padding-top",
            CssProperty::Rotate => "rotate",
            CssProperty::ScrollMargin => "scroll-margin",
            CssProperty::ScrollPadding => "scroll-padding",
            CssProperty::TextIndent => "text-indent",
            CssProperty::Top => "top",
            CssProperty::Transform => "transform",
            CssProperty::TransformOrigin => "transform-origin",
            CssProperty::Width => "width",
        }
    }
}

impl CssProperty {
    /// The property of a name, if it is one that utilities validate
    /// against.
    pub open spec fn named(name: Seq<char>) -> Option<CssProperty> {
        if name == "accent-color"@ {
            Some(CssProperty::AccentColor)
        } else if name == "background-image"@ {
            Some(CssProperty::BackgroundImage)
        } else if name == "background-position"@ {
            Some(CssProperty::BackgroundPosition)
        } else if name == "background-size"@ {
            Some(CssProperty::BackgroundSize)
        } else if name == "border-color"@ {
            Some(CssProperty::BorderColor)
        } else if name == "border-radius"@ {
            Some(CssProperty::BorderRadius)
        } else if name == "border-right-width"@ {
            Some(CssProperty::BorderRightWidth)
        } else if name == "border-top-width"@ {
            Some(CssProperty::BorderTopWidth)
        } else if name == "border-width"@ {
            Some(CssProperty::BorderWidth)
        } else if name == "box-shadow"@ {
            Some(CssProperty::BoxShadow)
        } else if name == "color"@ {
            Some(CssProperty::Color)
        } else if name == "cursor"@ {
            Some(CssProperty::Cursor)
        } else if name == "flex"@ {
            Some(CssProperty::Flex)
        } else if name == "flex-basis"@ {
            Some(CssProperty::FlexBasis)
        } else if name == "flex-grow"@ {
            Some(CssProperty::FlexGrow)
        } else if name == "flex-shrink"@ {
            Some(CssProperty::FlexShrink)
        } else if name == "font-size"@ {
            Some(CssProperty::FontSize)
        } else if name == "font-stretch"@ {
            Some(CssProperty::FontStretch)
        } else if name == "font-weight"@ {
            Some(CssProperty::FontWeight)
        } else if name == "gap"@ {
            Some(CssProperty::Gap)
        } else if name == "grid-auto-columns"@ {
            Some(CssProperty::GridAutoColumns)
        } else if name == "grid-auto-rows"@ {
            Some(CssProperty::GridAutoRows)
        } else if name == "height"@ {
            Some(CssProperty::Height)
        } else if name == "inset"@ {
            Some(CssProperty::Inset)
        } else if name == "left"@ {
            Some(CssProperty::Left)
        } else if name == "line-height"@ {
            Some(CssProperty::LineHeight)
        } else if name == "list-style-image"@ {
            Some(CssProperty::ListStyleImage)
        } else if name == "list-style-type"@ {
            Some(CssProperty::ListStyleType)
        } else if name == "margin"@ {
            Some(CssProperty::Margin)
        } else if name == "margin-bottom"@ {
            Some(CssProperty::MarginBottom)
        } else if name == "margin-left"@ {
            Some(CssProperty::MarginLeft)
        } else if name == "margin-right"@ {
            Some(CssProperty::MarginRight)
        } else if name == "margin-top"@ {
            Some(CssProperty::MarginTop)
        } else if name == "max-height"@ {
            Some(CssProperty::MaxHeight)
        } else if name == "max-width"@ {
            Some(CssProperty::MaxWidth)
        } else if name == "min-height"@ {
            Some(CssProperty::MinHeight)
        } else if name == "min-width"@ {
            Some(CssProperty::MinWidth)
        } else if name == "opacity"@ {
            Some(CssProperty::Opacity)
        } else if name == "outline-width"@ {
            Some(CssProperty::OutlineWidth)
        } else if name == "padding"@ {
            Some(CssProperty::Padding)
        } else if name == "padding-top"@ {
            Some(CssProperty::PaddingTop)
        } else if name == "rotate"@ {
            Some(CssProperty::Rotate)
        } else if name == "scroll-margin"@ {
            Some(CssProperty::ScrollMargin)
        } else if name == "scroll-padding"@ {
            Some(CssProperty::ScrollPadding)
        } else if name == "text-indent"@ {
            Some(CssProperty::TextIndent)
        } else if name == "top"@ {
            Some(CssProperty::Top)
        } else if name == "transform"@ {
            Some(CssProperty::Transform)
        } else if name == "transform-origin"@ {
            Some(CssProperty::TransformOrigin)
        } else if name == "width"@ {
            Some(CssProperty::Width)
        } else {
            None
        }
    }

    /// The property of a name, if it is one that utilities validate
    /// against.
    pub fn from_name(name: &str) -> (r: Option<CssProperty>)
        ensures
            r == Self::named(name@),
            match r {
                Some(p) => p.name_spec() == name@,
                None => forall|p: CssProperty| p.name_spec() != name@,
            },
    {
        if same_text(name, "accent-color") {
            Some(CssProperty::AccentColor)
        } else if same_text(name, "background-image") {
            Some(CssProperty::BackgroundImage)
        } else if same_text(name, "background-position") {
            Some(CssProperty::BackgroundPosition)
        } else if same_text(name, "background-size") {
            Some(CssProperty::BackgroundSize)
        } else if same_text(name, "border-color") {
            Some(CssProperty::BorderColor)
        } else if same_text(name, "border-radius") {
            Some(CssProperty::BorderRadius)
        } else if same_text(name, "border-right-width") {
            Some(CssProperty::BorderRightWidth)
        } else if same_text(name, "border-top-width") {
            Some(CssProperty::BorderTopWidth)
        } else if same_text(name, "border-width") {
            Some(CssProperty::BorderWidth)
        } else if same_text(name, "box-shadow") {
            Some(CssProperty::BoxShadow)
        } else if same_text(name, "color") {
            Some(CssProperty::Color)
        } else if same_text(name, "cursor") {
            Some(CssProperty::Cursor)
        } else if same_text(name, "flex") {
            Some(CssProperty::Flex)
        } else if same_text(name, "flex-basis") {
            Some(CssProperty::FlexBasis)
        } else if same_text(name, "flex-grow") {
            Some(CssProperty::FlexGrow)
        } else if same_text(name, "flex-shrink") {
            Some(CssProperty::FlexShrink)
        } else if same_text(name, "font-size") {
            Some(CssProperty::FontSize)
        } else if same_text(name, "font-stretch") {
            Some(CssProperty::FontStretch)
        } else if same_text(name, "font-weight") {
            Some(CssProperty::FontWeight)
        } else if same_text(name, "gap") {
            Some(CssProperty::Gap)
        } else if same_text(name, "grid-auto-columns") {
            Some(CssProperty::GridAutoColumns)
        } else if same_text(name, "grid-auto-rows") {
            Some(CssProperty::GridAutoRows)
        } else if same_text(name, "height") {
            Some(CssProperty::Height)
        } else if same_text(name, "inset") {
            Some(CssProperty::Inset)
        } else if same_text(name, "left") {
            Some(CssProperty::Left)
        } else if same_text(name, "line-height") {
            Some(CssProperty::LineHeight)
        } else if same_text(name, "list-style-image") {
            Some(CssProperty::ListStyleImage)
        } else if same_text(name, "list-style-type") {
            Some(CssProperty::ListStyleType)
        } else if same_text(name, "margin") {
            Some(CssProperty::Margin)
        } else if same_text(name, "margin-bottom") {
            Some(CssProperty::MarginBottom)
        } else if same_text(name, "margin-left") {
            Some(CssProperty::MarginLeft)
        } else if same_text(name, "margin-right") {
            Some(CssProperty::MarginRight)
        } else if same_text(name, "margin-top") {
            Some(CssProperty::MarginTop)
        } else if same_text(name, "max-height") {
            Some(CssProperty::MaxHeight)
        } else if same_text(name, "max-width") {
            Some(CssProperty::MaxWidth)
        } else if same_text(name, "min-height") {
            Some(CssProperty::MinHeight)
        } else if same_text(name, "min-width") {
            Some(CssProperty::MinWidth)
        } else if same_text(name, "opacity") {
            Some(CssProperty::Opacity)
        } else if same_text(name, "outline-width") {
            Some(CssProperty::OutlineWidth)
        } else if same_text(name, "padding") {
            Some(CssProperty::Padding)
        } else if same_text(name, "padding-top") {
            Some(CssProperty::PaddingTop)
        } else if same_text(name, "rotate") {
            Some(CssProperty::Rotate)
        } else if same_text(name, "scroll-margin") {
            Some(CssProperty::ScrollMargin)
        } else if same_text(name, "scroll-padding") {
            Some(CssProperty::ScrollPadding)
        } else if same_text(name, "text-indent") {
            Some(CssProperty::TextIndent)
        } else if same_text(name, "top") {
            Some(CssProperty::Top)
        } else if same_text(name, "transform") {
            Some(CssProperty::Transform)
        } else if same_text(name, "transform-origin") {
            Some(CssProperty::TransformOrigin)
        } else if same_text(name, "width") {
            Some(CssProperty::Width)
        } else {
            None
        }
    }
}

/// The CSS data types that utilities validate against.
#[derive(Debug, Clone, Copy, PartialEq, Eq, Structural)]
pub enum CssDataType {
    Any,
    Angle,
    Color,
    Image,
    Integer,
    Length,
    LengthPercentage,
    Number,
    Percentage,
    Time,
}

impl CssDataType {
    /// The data type as the syntax of a registered custom property.
    pub open spec fn syntax_spec(self) -> Seq<char> {
        match self {
            CssDataType::Any => "*"@,
            CssDataType::Angle => "<angle>"@,
            CssDataType::Color => "<color>"@,
            CssDataType::Image => "<image>"@,
            CssDataType::Integer => "<integer>"@,
            CssDataType::Length => "<length>"@,
            CssDataType::LengthPercentage => "<length-percentage>"@,
            CssDataType::Number => "<number>"@,
            CssDataType::Percentage => "<percentage>"@,
            CssDataType::Time => "<time>"@,
        }
    }

    /// The data type as the syntax of a registered custom property.
    pub fn syntax(self) -> (syntax: &'static str)
        ensures
            syntax@ == self.syntax_spec(),
    {
        match self {
            CssDataType::Any => "*",
            CssDataType::Angle => "<angle>",
            CssDataType::Color => "<color>",
            CssDataType::Image => "<image>",
            CssDataType::Integer => "<integer>",
            CssDataType::Length => "<length>",
            CssDataType::LengthPercentage => "<length-percentage>",
            CssDataType::Number => "<number>",
            CssDataType::Percentage => "<percentage>",
            CssDataType::Time => "<time>",
        }
    }
}

impl CssDataType {
    /// The data type of a syntax, if it is one that utilities validate
    /// against.
    pub open spec fn with_syntax(name: Seq<char>) -> Option<CssDataType> {
        if name == "*"@ {
            Some(CssDataType::Any)
        } else if name == "<angle>"@ {
            Some(CssDataType::Angle)
        } else if name == "<color>"@ {
            Some(CssDataType::Color)
        } else if name == "<image>"@ {
            Some(CssDataType::Image)
        } else if name == "<integer>"@ {
            Some(CssDataType::Integer)
        } else if name == "<length>"@ {
            Some(CssDataType::Length)
        } else if name == "<length-percentage>"@ {
            Some(CssDataType::LengthPercentage)
        } else if name == "<number>"@ {
            Some(CssDataType::Number)
        } else if name == "<percentage>"@ {
            Some(CssDataType::Percentage)
        } else if name == "<time>"@ {
            Some(CssDataType::Time)
        } else {
            None
        }
    }

    /// The data type of a syntax, if it is one that utilities validate
    /// against.
    pub fn from_syntax(syntax: &str) -> (r: Option<CssDataType>)
        ensures
            r == Self::with_syntax(syntax@),
            match r {
                Some(d) => d.syntax_spec() == syntax@,
                None => forall|d: CssDataType| d.syntax_spec() != syntax@,
            },
    {
        if same_text(syntax, "*") {
            Some(CssDataType::Any)
        } else if same_text(syntax, "<angle>") {
            Some(CssDataType::Angle)
        } else if same_text(syntax, "<color>") {
            Some(CssDataType::Color)
        } else if same_text(syntax, "<image>") {
            Some(CssDataType::Image)
        } else if same_text(syntax, "<integer>") {
            Some(CssDataType::Integer)
        } else if same_text(syntax, "<length>") {
            Some(CssDataType::Length)
        } else if same_text(syntax, "<length-percentage>") {
            Some(CssDataType::LengthPercentage)
        } else if same_text(syntax, "<number>") {
            Some(CssDataType::Number)
        } else if same_text(syntax, "<percentage>") {
            Some(CssDataType::Percentage)
        } else if same_text(syntax, "<time>") {
            Some(CssDataType::Time)
        } else {
            None
        }
    }
}

/// Whether the CSS parser reads `value` as a typed value of the property
/// named `property`.
pub uninterp spec fn css_property_accepts(property: Seq<char>, value: Seq<char>) -> bool;

/// Whether the CSS parser reads `value` as a value of the syntax `syntax`.
pub uninterp spec fn css_syntax_accepts(syntax: Seq<char>, value: Seq<char>) -> bool;

/// Parses `value` as the property named `property` with
/// `Property::parse_string` of lightningcss, under its default options. The
/// value is accepted when the parser hands back the property with a typed
/// value, and refused when it hands back an unparsed or a custom property,
/// or fails.
#[verifier::external_body]
fn property_parses(property: &str, value: &str) -> (ok: bool)
    ensures
        ok == css_property_accepts(property@, value@),
{
    match Property::parse_string(PropertyId::from(property), value, ParserOptions::default()) {
        Ok(Property::Unparsed(_)) => false,
        Ok(Property::Custom(_)) => false,
        Ok(_) => true,
        Err(_) => false,
    }
}

/// Parses `value` by the syntax `syntax` with
/// `SyntaxString::parse_value_from_string` of lightningcss. The value is
/// accepted when the syntax is well formed and the parser reads a value of
/// it.
#[verifier::external_body]
fn syntax_parses(syntax: &str, value: &str) -> (ok: bool)
    ensures
        ok == css_syntax_accepts(syntax@, value@),
{
    match SyntaxString::parse_string(syntax) {
        Ok(parsed) => parsed.parse_value_from_string(value).is_ok(),
        Err(_) => false,
    }
}

/// What decides whether an arbitrary value fits a utility.
#[derive(Debug, Clone, Copy, PartialEq, Eq, Structural)]
pub enum Validator {
    Property(CssProperty),
    DataType(CssDataType),
}

impl Validator {
    /// Whether the validator accepts `value`: any value fits the data type
    /// `Any`; otherwise the CSS parser decides.
    pub open spec fn accepts(self, value: Seq<char>) -> bool {
        match self {
            Validator::Property(p) => css_property_accepts(p.name_spec(), value),
            Validator::DataType(CssDataType::Any) => true,
            Validator::DataType(d) => css_syntax_accepts(d.syntax_spec(), value),
        }
    }

    /// Whether the validator accepts `value`.
    pub fn validate(&self, value: &str) -> (ok: bool)
        ensures
            ok == self.accepts(value@),
    {
        match self {
            Validator::Property(p) => property_parses(p.name(), value),
            Validator::DataType(CssDataType::Any) => true,
            Validator::DataType(d) => syntax_parses(d.syntax(), value),
        }
    }
}

/// Whether a value passes an optional validator: without one, every value
/// passes.
pub open spec fn passes(validator: Option<Validator>, value: Seq<char>) -> bool {
    match validator {
        Some(v) => v.accepts(value),
        None => true,
    }
}

/// Whether a value passes an optional validator.
pub fn check_value(validator: &Option<Validator>, value: &str) -> (ok: bool)
    ensures
        ok == passes(*validator, value@),
{
    match validator {
        Some(v) => v.validate(value),
        None => true,
    }
}

impl Validator {
    /// The validator that a configuration names: a data type by its
    /// syntax, such as `<length>`, or else a property by its name.
    pub open spec fn named(name: Seq<char>) -> Option<Validator> {
        match CssDataType::with_syntax(name) {
            Some(d) => Some(Validator::DataType(d)),
            None => match CssProperty::named(name) {
                Some(p) => Some(Validator::Property(p)),
                None => None,
            },
        }
    }

    /// The validator of a name.
    pub fn from_name(name: &str) -> (v: Option<Validator>)
        ensures
            v == Self::named(name@),
    {
        match CssDataType::from_syntax(name) {
            Some(d) => Some(Validator::DataType(d)),
            None => match CssProperty::from_name(name) {
                Some(p) => Some(Validator::Property(p)),
                None => None,
            },
        }
    }
}

} // verus!
