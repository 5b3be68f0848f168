//! The order of the style sheet: the bucket of each utility, and the groups
//! whose shared declarations are written once.

use vstd::prelude::*;
use vstd::string::*;
use crate::css::{Decl, DeclList, DeclView};
use crate::text::same_text;

verus! {

/// The bucket that decides where a utility's rule stands in the output.
/// The order of the variants is the order of the buckets.
#[derive(Debug, Clone, Copy, PartialEq, Eq, Structural)]
pub enum OrderingKey {
    Translate,
    TranslateAxis,
    Scale,
    ScaleAxis,
    Rotate,
    RotateAxis,
    Skew,
    SkewAxis,
    Transform,
    Margin,
    MarginAxis,
    MarginSide,
    Padding,
    PaddingAxis,
    PaddingSide,
    SpaceAxis,
    Inset,
    InsetAxis,
    InsetSide,
    Size,
    SizeAxis,
    Rounded,
    RoundedSide,
    RoundedCorner,
    BorderSpacing,
    BorderSpacingAxis,
    BorderWidth,
    BorderWidthAxis,
    BorderWidthSide,
    BorderColor,
    BorderColorAxis,
    BorderColorSide,
    FromColor,
    FromPosition,
    ViaColor,
    ViaPosition,
    ToColor,
    ToPosition,
}

impl OrderingKey {
    /// The place of the bucket in the order of declaration, from 0.
    pub open spec fn rank_spec(self) -> nat {
        match self {
            OrderingKey::Translate => 0,
            OrderingKey::TranslateAxis => 1,
            OrderingKey::Scale => 2,
            OrderingKey::ScaleAxis => 3,
            OrderingKey::Rotate => 4,
            OrderingKey::RotateAxis => 5,
            OrderingKey::Skew => 6,
            OrderingKey::SkewAxis => 7,
            OrderingKey::Transform => 8,
            OrderingKey::Margin => 9,
            OrderingKey::MarginAxis => 10,
            OrderingKey::MarginSide => 11,
            OrderingKey::Padding => 12,
            OrderingKey::PaddingAxis => 13,
            OrderingKey::PaddingSide => 14,
            OrderingKey::SpaceAxis => 15,
            OrderingKey::Inset => 16,
            OrderingKey::InsetAxis => 17,
            OrderingKey::InsetSide => 18,
            OrderingKey::Size => 19,
            OrderingKey::SizeAxis => 20,
            OrderingKey::Rounded => 21,
            OrderingKey::RoundedSide => 22,
            OrderingKey::RoundedCorner => 23,
            OrderingKey::BorderSpacing => 24,
            OrderingKey::BorderSpacingAxis => 25,
            OrderingKey::BorderWidth => 26,
            OrderingKey::BorderWidthAxis => 27,
            OrderingKey::BorderWidthSide => 28,
            OrderingKey::BorderColor => 29,
            OrderingKey::BorderColorAxis => 30,
            OrderingKey::BorderColorSide => 31,
            OrderingKey::FromColor => 32,
            OrderingKey::FromPosition => 33,
            OrderingKey::ViaColor => 34,
            OrderingKey::ViaPosition => 35,
            OrderingKey::ToColor => 36,
            OrderingKey::ToPosition => 37,
        }
    }

    /// The place of the bucket in the order of declaration, from 0.
    pub fn rank(self) -> (r: u8)
        ensures
            r == self.rank_spec(),
            r < ORDERING_KEYS,
    {
        match self {
            OrderingKey::Translate => 0,
            OrderingKey::TranslateAxis => 1,
            OrderingKey::Scale => 2,
            OrderingKey::ScaleAxis => 3,
            OrderingKey::Rotate => 4,
            OrderingKey::RotateAxis => 5,
            OrderingKey::Skew => 6,
            OrderingKey::SkewAxis => 7,
            OrderingKey::Transform => 8,
            OrderingKey::Margin => 9,
            OrderingKey::MarginAxis => 10,
            OrderingKey::MarginSide => 11,
            OrderingKey::Padding => 12,
            OrderingKey::PaddingAxis => 13,
            OrderingKey::PaddingSide => 14,
            OrderingKey::SpaceAxis => 15,
            OrderingKey::Inset => 16,
            OrderingKey::InsetAxis => 17,
            OrderingKey::InsetSide => 18,
            OrderingKey::Size => 19,
            OrderingKey::SizeAxis => 20,
            OrderingKey::Rounded => 21,
            OrderingKey::RoundedSide => 22,
            OrderingKey::RoundedCorner => 23,
            OrderingKey::BorderSpacing => 24,
            OrderingKey::BorderSpacingAxis => 25,
            OrderingKey::BorderWidth => 26,
            OrderingKey::BorderWidthAxis => 27,
            OrderingKey::BorderWidthSide => 28,
            OrderingKey::BorderColor => 29,
            OrderingKey::BorderColorAxis => 30,
            OrderingKey::BorderColorSide => 31,
            OrderingKey::FromColor => 32,
            OrderingKey::FromPosition => 33,
            OrderingKey::ViaColor => 34,
            OrderingKey::ViaPosition => 35,
            OrderingKey::ToColor => 36,
            OrderingKey::ToPosition => 37,
        }
    }
}

impl OrderingKey {
    /// The name of the bucket.
    pub open spec fn name_spec(self) -> Seq<char> {
        match self {
            OrderingKey::Translate => "Translate"@,
            OrderingKey::TranslateAxis => "TranslateAxis"@,
            OrderingKey::Scale => "Scale"@,
            OrderingKey::ScaleAxis => "ScaleAxis"@,
            OrderingKey::Rotate => "Rotate"@,
            OrderingKey::RotateAxis => "RotateAxis"@,
            OrderingKey::Skew => "Skew"@,
            OrderingKey::SkewAxis => "SkewAxis"@,
            OrderingKey::Transform => "Transform"@,
            OrderingKey::Margin => "Margin"@,
            OrderingKey::MarginAxis => "MarginAxis"@,
            OrderingKey::MarginSide => "MarginSide"@,
            OrderingKey::Padding => "Padding"@,
            OrderingKey::PaddingAxis => "PaddingAxis"@,
            OrderingKey::PaddingSide => "PaddingSide"@,
            OrderingKey::SpaceAxis => "SpaceAxis"@,
            OrderingKey::Inset => "Inset"@,
            OrderingKey::InsetAxis => "InsetAxis"@,
            OrderingKey::InsetSide => "InsetSide"@,
            OrderingKey::Size => "Size"@,
            OrderingKey::SizeAxis => "SizeAxis"@,
            OrderingKey::Rounded => "Rounded"@,
            OrderingKey::RoundedSide => "RoundedSide"@,
            OrderingKey::RoundedCorner => "RoundedCorner"@,
            OrderingKey::BorderSpacing => "BorderSpacing"@,
            OrderingKey::BorderSpacingAxis => "BorderSpacingAxis"@,
            OrderingKey::BorderWidth => "BorderWidth"@,
            OrderingKey::BorderWidthAxis => "BorderWidthAxis"@,
            OrderingKey::BorderWidthSide => "BorderWidthSide"@,
            OrderingKey::BorderColor => "BorderColor"@,
            OrderingKey::BorderColorAxis => "BorderColorAxis"@,
            OrderingKey::BorderColorSide => "BorderColorSide"@,
            OrderingKey::FromColor => "FromColor"@,
            OrderingKey::FromPosition => "FromPosition"@,
            OrderingKey::ViaColor => "ViaColor"@,
            OrderingKey::ViaPosition => "ViaPosition"@,
            OrderingKey::ToColor => "ToColor"@,
            OrderingKey::ToPosition => "ToPosition"@,
        }
    }

    /// The name of the bucket.
    pub fn name(self) -> (name: &'static str)
        ensures
            name@ == self.name_spec(),
    {
        match self {
            OrderingKey::Translate => "Translate",
            OrderingKey::TranslateAxis => "TranslateAxis",
            OrderingKey::Scale => "Scale",
            OrderingKey::ScaleAxis => "ScaleAxis",
            OrderingKey::Rotate => "Rotate",
            OrderingKey::RotateAxis => "RotateAxis",
            OrderingKey::Skew => "Skew",
            OrderingKey::SkewAxis => "SkewAxis",
            OrderingKey::Transform => "Transform",
            OrderingKey::Margin => "Margin",
            OrderingKey::MarginAxis => "MarginAxis",
            OrderingKey::MarginSide => "MarginSide",
            OrderingKey::Padding => "Padding",
            OrderingKey::PaddingAxis => "PaddingAxis",
            OrderingKey::PaddingSide => "PaddingSide",
            OrderingKey::SpaceAxis => "SpaceAxis",
            OrderingKey::Inset => "Inset",
            OrderingKey::InsetAxis => "InsetAxis",
            OrderingKey::InsetSide => "InsetSide",
            OrderingKey::Size => "Size",
            OrderingKey::SizeAxis => "SizeAxis",
            OrderingKey::Rounded => "Rounded",
            OrderingKey::RoundedSide => "RoundedSide",
            OrderingKey::RoundedCorner => "RoundedCorner",
            OrderingKey::BorderSpacing => "BorderSpacing",
            OrderingKey::BorderSpacingAxis => "BorderSpacingAxis",
            OrderingKey::BorderWidth => "BorderWidth",
            OrderingKey::BorderWidthAxis => "BorderWidthAxis",
            OrderingKey::BorderWidthSide => "BorderWidthSide",
            OrderingKey::BorderColor => "BorderColor",
            OrderingKey::BorderColorAxis => "BorderColorAxis",
            OrderingKey::BorderColorSide => "BorderColorSide",
            OrderingKey::FromColor => "FromColor",
            OrderingKey::FromPosition => "FromPosition",
            OrderingKey::ViaColor => "ViaColor",
            OrderingKey::ViaPosition => "ViaPosition",
            OrderingKey::ToColor => "ToColor",
            OrderingKey::ToPosition => "ToPosition",
        }
    }

    /// The bucket of a name, if there is one.
    pub open spec fn named(name: Seq<char>) -> Option<OrderingKey> {
        if name == "Translate"@ {
            Some(OrderingKey::Translate)
        } else if name == "TranslateAxis"@ {
            Some(OrderingKey::TranslateAxis)
        } else if name == "Scale"@ {
            Some(OrderingKey::Scale)
        } else if name == "ScaleAxis"@ {
            Some(OrderingKey::ScaleAxis)
        } else if name == "Rotate"@ {
            Some(OrderingKey::Rotate)
        } else if name == "RotateAxis"@ {
            Some(OrderingKey::RotateAxis)
        } else if name == "Skew"@ {
            Some(OrderingKey::Skew)
        } else if name == "SkewAxis"@ {
            Some(OrderingKey::SkewAxis)
        } else if name == "Transform"@ {
            Some(OrderingKey::Transform)
        } else if name == "Margin"@ {
            Some(OrderingKey::Margin)
        } else if name == "MarginAxis"@ {
            Some(OrderingKey::MarginAxis)
        } else if name == "MarginSide"@ {
            Some(OrderingKey::MarginSide)
        } else if name == "Padding"@ {
            Some(OrderingKey::Padding)
        } else if name == "PaddingAxis"@ {
            Some(OrderingKey::PaddingAxis)
        } else if name == "PaddingSide"@ {
            Some(OrderingKey::PaddingSide)
        } else if name == "SpaceAxis"@ {
            Some(OrderingKey::SpaceAxis)
        } else if name == "Inset"@ {
            Some(OrderingKey::Inset)
        } else if name == "InsetAxis"@ {
            Some(OrderingKey::InsetAxis)
        } else if name == "InsetSide"@ {
            Some(OrderingKey::InsetSide)
        } else if name == "Size"@ {
            Some(OrderingKey::Size)
        } else if name == "SizeAxis"@ {
            Some(OrderingKey::SizeAxis)
        } else if name == "Rounded"@ {
            Some(OrderingKey::Rounded)
        } else if name == "RoundedSide"@ {
            Some(OrderingKey::RoundedSide)
        } else if name == "RoundedCorner"@ {
            Some(OrderingKey::RoundedCorner)
        } else if name == "BorderSpacing"@ {
            Some(OrderingKey::BorderSpacing)
        } else if name == "BorderSpacingAxis"@ {
            Some(OrderingKey::BorderSpacingAxis)
        } else if name == "BorderWidth"@ {
            Some(OrderingKey::BorderWidth)
        } else if name == "BorderWidthAxis"@ {
            Some(OrderingKey::BorderWidthAxis)
        } else if name == "BorderWidthSide"@ {
            Some(OrderingKey::BorderWidthSide)
        } else if name == "BorderColor"@ {
            Some(OrderingKey::BorderColor)
        } else if name == "BorderColorAxis"@ {
            Some(OrderingKey::BorderColorAxis)
        } else if name == "BorderColorSide"@ {
            Some(OrderingKey::BorderColorSide)
        } else if name == "FromColor"@ {
            Some(OrderingKey::FromColor)
        } else if name == "FromPosition"@ {
            Some(OrderingKey::FromPosition)
        } else if name == "ViaColor"@ {
            Some(OrderingKey::ViaColor)
        } else if name == "ViaPosition"@ {
            Some(OrderingKey::ViaPosition)
        } else if name == "ToColor"@ {
            Some(OrderingKey::ToColor)
        } else if name == "ToPosition"@ {
            Some(OrderingKey::ToPosition)
        } else {
            None
        }
    }

    /// The bucket of a name, if there is one.
    pub fn from_name(name: &str) -> (r: Option<OrderingKey>)
        ensures
            r == Self::named(name@),
            match r {
                Some(k) => k.name_spec() == name@,
                None => forall|k: OrderingKey| k.name_spec() != name@,
            },
    {
        if same_text(name, "Translate") {
            Some(OrderingKey::Translate)
        } else if same_text(name, "TranslateAxis") {
            Some(OrderingKey::TranslateAxis)
        } else if same_text(name, "Scale") {
            Some(OrderingKey::Scale)
        } else if same_text(name, "ScaleAxis") {
            Some(OrderingKey::ScaleAxis)
        } else if same_text(name, "Rotate") {
            Some(OrderingKey::Rotate)
        } else if same_text(name, "RotateAxis") {
            Some(OrderingKey::RotateAxis)
        } else if same_text(name, "Skew") {
            Some(OrderingKey::Skew)
        } else if same_text(name, "SkewAxis") {
            Some(OrderingKey::SkewAxis)
        } else if same_text(name, "Transform") {
            Some(OrderingKey::Transform)
        } else if same_text(name, "Margin") {
            Some(OrderingKey::Margin)
        } else if same_text(name, "MarginAxis") {
            Some(OrderingKey::MarginAxis)
        } else if same_text(name, "MarginSide") {
            Some(OrderingKey::MarginSide)
        } else if same_text(name, "Padding") {
            Some(OrderingKey::Padding)
        } else if same_text(name, "PaddingAxis") {
            Some(OrderingKey::PaddingAxis)
        } else if same_text(name, "PaddingSide") {
            Some(OrderingKey::PaddingSide)
        } else if same_text(name, "SpaceAxis") {
            Some(OrderingKey::SpaceAxis)
        } else if same_text(name, "Inset") {
            Some(OrderingKey::Inset)
        } else if same_text(name, "InsetAxis") {
            Some(OrderingKey::InsetAxis)
        } else if same_text(name, "InsetSide") {
            Some(OrderingKey::InsetSide)
        } else if same_text(name, "Size") {
            Some(OrderingKey::Size)
        } else if same_text(name, "SizeAxis") {
            Some(OrderingKey::SizeAxis)
        } else if same_text(name, "Rounded") {
            Some(OrderingKey::Rounded)
        } else if same_text(name, "RoundedSide") {
            Some(OrderingKey::RoundedSide)
        } else if same_text(name, "RoundedCorner") {
            Some(OrderingKey::RoundedCorner)
        } else if same_text(name, "BorderSpacing") {
            Some(OrderingKey::BorderSpacing)
        } else if same_text(name, "BorderSpacingAxis") {
            Some(OrderingKey::BorderSpacingAxis)
        } else if same_text(name, "BorderWidth") {
            Some(OrderingKey::BorderWidth)
        } else if same_text(name, "BorderWidthAxis") {
            Some(OrderingKey::BorderWidthAxis)
        } else if same_text(name, "BorderWidthSide") {
            Some(OrderingKey::BorderWidthSide)
        } else if same_text(name, "BorderColor") {
            Some(OrderingKey::BorderColor)
        } else if same_text(name, "BorderColorAxis") {
            Some(OrderingKey::BorderColorAxis)
        } else if same_text(name, "BorderColorSide") {
            Some(OrderingKey::BorderColorSide)
        } else if same_text(name, "FromColor") {
            Some(OrderingKey::FromColor)
        } else if same_text(name, "FromPosition") {
            Some(OrderingKey::FromPosition)
        } else if same_text(name, "ViaColor") {
            Some(OrderingKey::ViaColor)
        } else if same_text(name, "ViaPosition") {
            Some(OrderingKey::ViaPosition)
        } else if same_text(name, "ToColor") {
            Some(OrderingKey::ToColor)
        } else if same_text(name, "ToPosition") {
            Some(OrderingKey::ToPosition)
        } else {
            None
        }
    }
}

/// The number of buckets.
pub const ORDERING_KEYS: u8 = 38;

/// The rank of the bucket of a rule; a rule without a bucket comes after
/// all buckets.
pub open spec fn bucket_rank(key: Option<OrderingKey>) -> nat {
    match key {
        Some(k) => k.rank_spec(),
        None => ORDERING_KEYS as nat,
    }
}

/// Two groups with one index are one group.
pub proof fn lemma_index_injective(a: UtilityGroup, b: UtilityGroup)
    ensures
        a.index_spec() == b.index_spec() <==> a == b,
{
}

/// A set of utilities that share declarations, which are written once for
/// all of them.
#[derive(Debug, Clone, Copy, PartialEq, Eq, Structural)]
pub enum UtilityGroup {
    Transform,
    Filter,
    BackdropFilter,
}

/// The number of groups.
pub const UTILITY_GROUPS: usize = 3;

impl UtilityGroup {
    /// The name of the group.
    pub open spec fn name_spec(self) -> Seq<char> {
        match self {
            UtilityGroup::Transform => "Transform"@,
            UtilityGroup::Filter => "Filter"@,
            UtilityGroup::BackdropFilter => "BackdropFilter"@,
        }
    }

    /// The group of a name, if there is one.
    pub open spec fn named(name: Seq<char>) -> Option<UtilityGroup> {
        if name == "Transform"@ {
            Some(UtilityGroup::Transform)
        } else if name == "Filter"@ {
            Some(UtilityGroup::Filter)
        } else if name == "BackdropFilter"@ {
            Some(UtilityGroup::BackdropFilter)
        } else {
            None
        }
    }

    /// The group of a name, if there is one.
    pub fn from_name(name: &str) -> (r: Option<UtilityGroup>)
        ensures
            r == Self::named(name@),
            match r {
                Some(g) => g.name_spec() == name@,
                None => forall|g: UtilityGroup| g.name_spec() != name@,
            },
    {
        if same_text(name, "Transform") {
            Some(UtilityGroup::Transform)
        } else if same_text(name, "Filter") {
            Some(UtilityGroup::Filter)
        } else if same_text(name, "BackdropFilter") {
            Some(UtilityGroup::BackdropFilter)
        } else {
            None
        }
    }

    /// The place of the group in the order of declaration, from 0.
    pub open spec fn index_spec(self) -> nat {
        match self {
            UtilityGroup::Transform => 0,
            UtilityGroup::Filter => 1,
            UtilityGroup::BackdropFilter => 2,
        }
    }

    /// The place of the group in the order of declaration, from 0.
    pub fn index(self) -> (r: usize)
        ensures
            r == self.index_spec(),
            r < UTILITY_GROUPS,
    {
        match self {
            UtilityGroup::Transform => 0,
            UtilityGroup::Filter => 1,
            UtilityGroup::BackdropFilter => 2,
        }
    }

    /// The group at a place.
    pub fn from_index(i: usize) -> (g: UtilityGroup)
        requires
            i < UTILITY_GROUPS,
        ensures
            g.index_spec() == i,
    {
        if i == 0 {
            UtilityGroup::Transform
        } else if i == 1 {
            UtilityGroup::Filter
        } else {
            UtilityGroup::BackdropFilter
        }
    }

    /// The property that the group composes.
    pub open spec fn property(self) -> Seq<char> {
        match self {
            UtilityGroup::Transform => "transform"@,
            UtilityGroup::Filter => "filter"@,
            UtilityGroup::BackdropFilter => "backdrop-filter"@,
        }
    }

    /// The value that composes the custom properties of the group's
    /// utilities.
    pub open spec fn composite(self) -> Seq<char> {
        match self {
            UtilityGroup::Transform => "var(--tw-rotate-x) var(--tw-rotate-y) var(--tw-rotate-z) var(--tw-skew-x) var(--tw-skew-y)"@,
            UtilityGroup::Filter => "var(--tw-blur,) var(--tw-brightness,) var(--tw-contrast,) var(--tw-grayscale,) var(--tw-hue-rotate,) var(--tw-invert,) var(--tw-saturate,) var(--tw-sepia,) var(--tw-drop-shadow,)"@,
            UtilityGroup::BackdropFilter => "var(--tw-backdrop-blur,) var(--tw-backdrop-brightness,) var(--tw-backdrop-contrast,) var(--tw-backdrop-grayscale,) var(--tw-backdrop-hue-rotate,) var(--tw-backdrop-invert,) var(--tw-backdrop-opacity,) var(--tw-backdrop-saturate,) var(--tw-backdrop-sepia,)"@,
        }
    }

    /// The declarations that the group's utilities share.
    pub open spec fn decls_spec(self) -> Seq<DeclView> {
        seq![DeclView { name: self.property(), value: self.composite() }]
    }

    /// The declarations that the group's utilities share.
    pub fn as_decls(&self) -> (decls: DeclList)
        ensures
            decls@ == self.decls_spec(),
    {
        let d = match self {
            UtilityGroup::Transform => Decl::new(
                "transform",
                "var(--tw-rotate-x) var(--tw-rotate-y) var(--tw-rotate-z) var(--tw-skew-x) var(--tw-skew-y)",
            ),
            UtilityGroup::Filter => Decl::new(
                "filter",
                "var(--tw-blur,) var(--tw-brightness,) var(--tw-contrast,) var(--tw-grayscale,) var(--tw-hue-rotate,) var(--tw-invert,) var(--tw-saturate,) var(--tw-sepia,) var(--tw-drop-shadow,)",
            ),
            UtilityGroup::BackdropFilter => Decl::new(
                "backdrop-filter",
                "var(--tw-backdrop-blur,) var(--tw-backdrop-brightness,) var(--tw-backdrop-contrast,) var(--tw-backdrop-grayscale,) var(--tw-backdrop-hue-rotate,) var(--tw-backdrop-invert,) var(--tw-backdrop-opacity,) var(--tw-backdrop-saturate,) var(--tw-backdrop-sepia,)",
            ),
        };
        let mut list: Vec<Decl> = Vec::new();
        list.push(d);
        let decls = DeclList::multi(list);
        assert(decls@ =~= self.decls_spec());
        decls
    }
}

} // verus!
