//! The utilities that take a value: each with its declarations, the theme
//! tables of its values, its validator, and what orders and groups it.

use vstd::prelude::*;
use vstd::string::*;
use crate::builder::{UtilityBuilder, UtilityBuilderView};
use crate::context::DesignSystem;
use crate::ordering::{OrderingKey, UtilityGroup};
use crate::preset::blocks::{
    border_spacing_xy, border_spacing_xy_spec, border_style, border_style_spec,
    box_shadow_properties, box_shadow_properties_spec, divide_x_reverse, divide_x_reverse_spec,
    divide_y_reverse, divide_y_reverse_spec, gradient_properties, gradient_properties_spec,
    scale_xy, scale_xy_spec, scale_xyz, scale_xyz_spec, space_x_reverse, space_x_reverse_spec,
    space_y_reverse, space_y_reverse_spec, transform, transform_spec, translate_xy,
    translate_xy_spec, translate_xyz, translate_xyz_spec,
};
use crate::preset::helpers::{
    all_handled, built_all, builders_view, by_data, by_prop, color_view, data, fixed_view, h1, h2,
    h3, h4, modified_by, plain, plain_spec, preset, preset_view, prop, register_all,
    registry_view, shared, t0, t1, t2, t3, value_view, with_rules, wrapped_in, wrapped_view,
};
use crate::process::{AdditionalCss, AdditionalCssView, UtilityHandler, UtilityHandlerView};
use crate::table::Table;
use crate::theme::{clone_table, table_model, TableModel, ThemeModel, ThemeTable};
use crate::types::{CssDataType, CssProperty};
use crate::value::DeclTemplate;

verus! {

/// Flex items and the origin of transforms.
#[verifier::opaque]
pub open spec fn flex_presets_spec() -> Seq<UtilityBuilderView> {
    seq![
        preset_view(
            "flex"@,
            UtilityHandlerView::Decls(seq![value_view("flex"@)]),
            seq!["flex"@],
            prop(CssProperty::Flex),
            plain_spec().frac(),
            None,
        ),
        preset_view(
            "shrink"@,
            UtilityHandlerView::Decls(seq![value_view("flex-shrink"@)]),
            seq!["flexShrink"@],
            prop(CssProperty::FlexShrink),
            plain_spec(),
            None,
        ),
        preset_view(
            "grow"@,
            UtilityHandlerView::Decls(seq![value_view("flex-grow"@)]),
            seq!["flexGrow"@],
            prop(CssProperty::FlexGrow),
            plain_spec(),
            None,
        ),
        preset_view(
            "basis"@,
            UtilityHandlerView::Decls(seq![value_view("flex-basis"@)]),
            seq!["flexBasis"@, "spacing"@],
            prop(CssProperty::FlexBasis),
            plain_spec(),
            None,
        ),
        preset_view(
            "origin"@,
            UtilityHandlerView::Decls(seq![value_view("transform-origin"@)]),
            seq!["transformOrigin"@],
            prop(CssProperty::TransformOrigin),
            plain_spec(),
            None,
        ),
        preset_view(
            "perspective"@,
            UtilityHandlerView::Decls(seq![value_view("perspective"@)]),
            Seq::<Seq<char>>::empty(),
            data(CssDataType::Length),
            plain_spec(),
            None,
        ),
    ]
}

/// Flex items and the origin of transforms.
pub fn flex_presets() -> (v: Vec<UtilityBuilder>)
    ensures
        builders_view(v@) == flex_presets_spec(),
        all_handled(builders_view(v@)),
{
    let mut v: Vec<UtilityBuilder> = Vec::new();
    v.push(
        preset(
            "flex",
            h1(DeclTemplate::value("flex")),
            t1("flex"),
            by_prop(CssProperty::Flex),
            plain().frac(),
            None,
        ),
    );
    v.push(
        preset(
            "shrink",
            h1(DeclTemplate::value("flex-shrink")),
            t1("flexShrink"),
            by_prop(CssProperty::FlexShrink),
            plain(),
            None,
        ),
    );
    v.push(
        preset(
            "grow",
            h1(DeclTemplate::value("flex-grow")),
            t1("flexGrow"),
            by_prop(CssProperty::FlexGrow),
            plain(),
            None,
        ),
    );
    v.push(
        preset(
            "basis",
            h1(DeclTemplate::value("flex-basis")),
            t2("flexBasis", "spacing"),
            by_prop(CssProperty::FlexBasis),
            plain(),
            None,
        ),
    );
    v.push(
        preset(
            "origin",
            h1(DeclTemplate::value("transform-origin")),
            t1("transformOrigin"),
            by_prop(CssProperty::TransformOrigin),
            plain(),
            None,
        ),
    );
    v.push(
        preset(
            "perspective",
            h1(DeclTemplate::value("perspective")),
            t0(),
            by_data(CssDataType::Length),
            plain(),
            None,
        ),
    );
    proof {
        reveal(flex_presets_spec);
        assert(builders_view(v@)[0] == flex_presets_spec()[0]);
        assert(builders_view(v@)[1] == flex_presets_spec()[1]);
        assert(builders_view(v@)[2] == flex_presets_spec()[2]);
        assert(builders_view(v@)[3] == flex_presets_spec()[3]);
        assert(builders_view(v@)[4] == flex_presets_spec()[4]);
        assert(builders_view(v@)[5] == flex_presets_spec()[5]);
        assert(builders_view(v@) =~= flex_presets_spec());
    }
    v
}

/// Shifts along the axes.
#[verifier::opaque]
pub open spec fn translate_presets_spec() -> Seq<UtilityBuilderView> {
    seq![
        preset_view(
            "translate"@,
            UtilityHandlerView::Decls(
                seq![
                    value_view("--tw-translate-x"@),
                    value_view("--tw-translate-y"@),
                    value_view("--tw-translate-z"@),
                    fixed_view("translate"@, "translateX(var(--tw-translate-x)) translateY(var(--tw-translate-y))"@),
                ],
            ),
            seq!["translate"@, "spacing"@],
            data(CssDataType::LengthPercentage),
            plain_spec().neg().frac(),
            shared(translate_xyz_spec()),
        ),
        preset_view(
            "translate-x"@,
            UtilityHandlerView::Decls(
                seq![
                    value_view("--tw-translate-x"@),
                    fixed_view("translate"@, "var(--tw-translate-x) var(--tw-translate-y)"@),
                ],
            ),
            seq!["translate"@],
            data(CssDataType::LengthPercentage),
            plain_spec().neg().frac(),
            shared(translate_xy_spec()),
        ),
        preset_view(
            "translate-y"@,
            UtilityHandlerView::Decls(
                seq![
                    value_view("--tw-translate-y"@),
                    fixed_view("translate"@, "var(--tw-translate-x) var(--tw-translate-y)"@),
                ],
            ),
            seq!["translate"@],
            data(CssDataType::LengthPercentage),
            plain_spec().neg().frac(),
            shared(translate_xy_spec()),
        ),
        preset_view(
            "translate-z"@,
            UtilityHandlerView::Decls(
                seq![
                    value_view("--tw-translate-z"@),
                    fixed_view("translate"@, "var(--tw-translate-x) var(--tw-translate-y) var(--tw-translate-z)"@),
                ],
            ),
            seq!["translate"@],
            data(CssDataType::LengthPercentage),
            plain_spec().neg(),
            shared(translate_xyz_spec()),
        ),
    ]
}

/// Shifts along the axes.
pub fn translate_presets() -> (v: Vec<UtilityBuilder>)
    ensures
        builders_view(v@) == translate_presets_spec(),
        all_handled(builders_view(v@)),
{
    let mut v: Vec<UtilityBuilder> = Vec::new();
    v.push(
        preset(
            "translate",
            h4(
                DeclTemplate::value("--tw-translate-x"),
                DeclTemplate::value("--tw-translate-y"),
                DeclTemplate::value("--tw-translate-z"),
                DeclTemplate::fixed("translate", "translateX(var(--tw-translate-x)) translateY(var(--tw-translate-y))"),
            ),
            t2("translate", "spacing"),
            by_data(CssDataType::LengthPercentage),
            plain().neg().frac(),
            with_rules(translate_xyz()),
        ),
    );
    v.push(
        preset(
            "translate-x",
            h2(
                DeclTemplate::value("--tw-translate-x"),
                DeclTemplate::fixed("translate", "var(--tw-translate-x) var(--tw-translate-y)"),
            ),
            t1("translate"),
            by_data(CssDataType::LengthPercentage),
            plain().neg().frac(),
            with_rules(translate_xy()),
        ),
    );
    v.push(
        preset(
            "translate-y",
            h2(
                DeclTemplate::value("--tw-translate-y"),
                DeclTemplate::fixed("translate", "var(--tw-translate-x) var(--tw-translate-y)"),
            ),
            t1("translate"),
            by_data(CssDataType::LengthPercentage),
            plain().neg().frac(),
            with_rules(translate_xy()),
        ),
    );
    v.push(
        preset(
            "translate-z",
            h2(
                DeclTemplate::value("--tw-translate-z"),
                DeclTemplate::fixed("translate", "var(--tw-translate-x) var(--tw-translate-y) var(--tw-translate-z)"),
            ),
            t1("translate"),
            by_data(CssDataType::LengthPercentage),
            plain().neg(),
            with_rules(translate_xyz()),
        ),
    );
    proof {
        reveal(translate_presets_spec);
        assert(builders_view(v@)[0] == translate_presets_spec()[0]);
        assert(builders_view(v@)[1] == translate_presets_spec()[1]);
        assert(builders_view(v@)[2] == translate_presets_spec()[2]);
        assert(builders_view(v@)[3] == translate_presets_spec()[3]);
        assert(builders_view(v@) =~= translate_presets_spec());
    }
    v
}

/// Scalings.
#[verifier::opaque]
pub open spec fn scale_presets_spec() -> Seq<UtilityBuilderView> {
    seq![
        preset_view(
            "scale"@,
            UtilityHandlerView::Decls(
                seq![
                    value_view("--tw-scale-x"@),
                    value_view("--tw-scale-y"@),
                    value_view("--tw-scale-z"@),
                    fixed_view("scale"@, "var(--tw-scale-x) var(--tw-scale-y)"@),
                ],
            ),
            seq!["scale"@],
            data(CssDataType::Percentage),
            plain_spec().neg(),
            shared(scale_xyz_spec()),
        ),
        preset_view(
            "scale-x"@,
            UtilityHandlerView::Decls(
                seq![
                    value_view("--tw-scale-x"@),
                    fixed_view("transform"@, "var(--tw-scale-x) var(--tw-scale-y)"@),
                ],
            ),
            seq!["scale"@],
            data(CssDataType::Percentage),
            plain_spec().neg(),
            shared(scale_xy_spec()),
        ),
        preset_view(
            "scale-y"@,
            UtilityHandlerView::Decls(
                seq![
                    value_view("--tw-scale-y"@),
                    fixed_view("transform"@, "var(--tw-scale-x) var(--tw-scale-y)"@),
                ],
            ),
            seq!["scale"@],
            data(CssDataType::Percentage),
            plain_spec().neg(),
            shared(scale_xy_spec()),
        ),
        preset_view(
            "scale-z"@,
            UtilityHandlerView::Decls(
                seq![
                    value_view("--tw-scale-z"@),
                    fixed_view("transform"@, "var(--tw-scale-x) var(--tw-scale-y) var(--tw-scale-z)"@),
                ],
            ),
            seq!["scale"@],
            data(CssDataType::Percentage),
            plain_spec().neg(),
            shared(scale_xyz_spec()),
        ),
    ]
}

/// Scalings.
pub fn scale_presets() -> (v: Vec<UtilityBuilder>)
    ensures
        builders_view(v@) == scale_presets_spec(),
        all_handled(builders_view(v@)),
{
    let mut v: Vec<UtilityBuilder> = Vec::new();
    v.push(
        preset(
            "scale",
            h4(
                DeclTemplate::value("--tw-scale-x"),
                DeclTemplate::value("--tw-scale-y"),
                DeclTemplate::value("--tw-scale-z"),
                DeclTemplate::fixed("scale", "var(--tw-scale-x) var(--tw-scale-y)"),
            ),
            t1("scale"),
            by_data(CssDataType::Percentage),
            plain().neg(),
            with_rules(scale_xyz()),
        ),
    );
    v.push(
        preset(
            "scale-x",
            h2(
                DeclTemplate::value("--tw-scale-x"),
                DeclTemplate::fixed("transform", "var(--tw-scale-x) var(--tw-scale-y)"),
            ),
            t1("scale"),
            by_data(CssDataType::Percentage),
            plain().neg(),
            with_rules(scale_xy()),
        ),
    );
    v.push(
        preset(
            "scale-y",
            h2(
                DeclTemplate::value("--tw-scale-y"),
                DeclTemplate::fixed("transform", "var(--tw-scale-x) var(--tw-scale-y)"),
            ),
            t1("scale"),
            by_data(CssDataType::Percentage),
            plain().neg(),
            with_rules(scale_xy()),
        ),
    );
    v.push(
        preset(
            "scale-z",
            h2(
                DeclTemplate::value("--tw-scale-z"),
                DeclTemplate::fixed("transform", "var(--tw-scale-x) var(--tw-scale-y) var(--tw-scale-z)"),
            ),
            t1("scale"),
            by_data(CssDataType::Percentage),
            plain().neg(),
            with_rules(scale_xyz()),
        ),
    );
    proof {
        reveal(scale_presets_spec);
        assert(builders_view(v@)[0] == scale_presets_spec()[0]);
        assert(builders_view(v@)[1] == scale_presets_spec()[1]);
        assert(builders_view(v@)[2] == scale_presets_spec()[2]);
        assert(builders_view(v@)[3] == scale_presets_spec()[3]);
        assert(builders_view(v@) =~= scale_presets_spec());
    }
    v
}

/// Rotations and skews, which `transform` composes.
#[verifier::opaque]
pub open spec fn rotate_presets_spec() -> Seq<UtilityBuilderView> {
    seq![
        preset_view(
            "rotate"@,
            UtilityHandlerView::Decls(seq![value_view("rotate"@)]),
            seq!["rotate"@],
            prop(CssProperty::Rotate),
            plain_spec().neg(),
            None,
        ),
        preset_view(
            "rotate-x"@,
            UtilityHandlerView::Decls(seq![value_view("--tw-rotate-x"@)]),
            seq!["rotate"@],
            data(CssDataType::Angle),
            plain_spec().neg().grouped(UtilityGroup::Transform),
            shared(transform_spec()),
        ),
        preset_view(
            "rotate-y"@,
            UtilityHandlerView::Decls(seq![value_view("--tw-rotate-y"@)]),
            seq!["rotate"@],
            data(CssDataType::Angle),
            plain_spec().neg().grouped(UtilityGroup::Transform),
            shared(transform_spec()),
        ),
        preset_view(
            "rotate-z"@,
            UtilityHandlerView::Decls(seq![value_view("--tw-rotate-z"@)]),
            seq!["rotate"@],
            data(CssDataType::Angle),
            plain_spec().neg().grouped(UtilityGroup::Transform),
            shared(transform_spec()),
        ),
        preset_view(
            "skew"@,
            UtilityHandlerView::Decls(
                seq![
                    value_view("--tw-skew-x"@),
                    value_view("--tw-skew-y"@),
                ],
            ),
            seq!["skew"@],
            data(CssDataType::Angle),
            plain_spec().neg().grouped(UtilityGroup::Transform),
            shared(transform_spec()),
        ),
        preset_view(
            "skew-x"@,
            UtilityHandlerView::Decls(seq![value_view("--tw-skew-x"@)]),
            seq!["skew"@],
            data(CssDataType::Angle),
            plain_spec().neg().grouped(UtilityGroup::Transform),
            shared(transform_spec()),
        ),
        preset_view(
            "skew-y"@,
            UtilityHandlerView::Decls(seq![value_view("--tw-skew-y"@)]),
            seq!["skew"@],
            data(CssDataType::Angle),
            plain_spec().neg().grouped(UtilityGroup::Transform),
            shared(transform_spec()),
        ),
        preset_view(
            "transform"@,
            UtilityHandlerView::Decls(seq![value_view("transform"@)]),
            Seq::<Seq<char>>::empty(),
            prop(CssProperty::Transform),
            plain_spec().grouped(UtilityGroup::Transform),
            shared(transform_spec()),
        ),
    ]
}

/// Rotations and skews, which `transform` composes.
pub fn rotate_presets() -> (v: Vec<UtilityBuilder>)
    ensures
        builders_view(v@) == rotate_presets_spec(),
        all_handled(builders_view(v@)),
{
    let mut v: Vec<UtilityBuilder> = Vec::new();
    v.push(
        preset(
            "rotate",
            h1(DeclTemplate::value("rotate")),
            t1("rotate"),
            by_prop(CssProperty::Rotate),
            plain().neg(),
            None,
        ),
    );
    v.push(
        preset(
            "rotate-x",
            h1(DeclTemplate::value("--tw-rotate-x")),
            t1("rotate"),
            by_data(CssDataType::Angle),
            plain().neg().grouped(UtilityGroup::Transform),
            with_rules(transform()),
        ),
    );
    v.push(
        preset(
            "rotate-y",
            h1(DeclTemplate::value("--tw-rotate-y")),
            t1("rotate"),
            by_data(CssDataType::Angle),
            plain().neg().grouped(UtilityGroup::Transform),
            with_rules(transform()),
        ),
    );
    v.push(
        preset(
            "rotate-z",
            h1(DeclTemplate::value("--tw-rotate-z")),
            t1("rotate"),
            by_data(CssDataType::Angle),
            plain().neg().grouped(UtilityGroup::Transform),
            with_rules(transform()),
        ),
    );
    v.push(
        preset(
            "skew",
            h2(DeclTemplate::value("--tw-skew-x"), DeclTemplate::value("--tw-skew-y")),
            t1("skew"),
            by_data(CssDataType::Angle),
            plain().neg().grouped(UtilityGroup::Transform),
            with_rules(transform()),
        ),
    );
    v.push(
        preset(
            "skew-x",
            h1(DeclTemplate::value("--tw-skew-x")),
            t1("skew"),
            by_data(CssDataType::Angle),
            plain().neg().grouped(UtilityGroup::Transform),
            with_rules(transform()),
        ),
    );
    v.push(
        preset(
            "skew-y",
            h1(DeclTemplate::value("--tw-skew-y")),
            t1("skew"),
            by_data(CssDataType::Angle),
            plain().neg().grouped(UtilityGroup::Transform),
            with_rules(transform()),
        ),
    );
    v.push(
        preset(
            "transform",
            h1(DeclTemplate::value("transform")),
            t0(),
            by_prop(CssProperty::Transform),
            plain().grouped(UtilityGroup::Transform),
            with_rules(transform()),
        ),
    );
    proof {
        reveal(rotate_presets_spec);
        assert(builders_view(v@)[0] == rotate_presets_spec()[0]);
        assert(builders_view(v@)[1] == rotate_presets_spec()[1]);
        assert(builders_view(v@)[2] == rotate_presets_spec()[2]);
        assert(builders_view(v@)[3] == rotate_presets_spec()[3]);
        assert(builders_view(v@)[4] == rotate_presets_spec()[4]);
        assert(builders_view(v@)[5] == rotate_presets_spec()[5]);
        assert(builders_view(v@)[6] == rotate_presets_spec()[6]);
        assert(builders_view(v@)[7] == rotate_presets_spec()[7]);
        assert(builders_view(v@) =~= rotate_presets_spec());
    }
    v
}

/// Clamped lines and the spacing of table borders.
#[verifier::opaque]
pub open spec fn table_presets_spec() -> Seq<UtilityBuilderView> {
    seq![
        preset_view(
            "line-clamp"@,
            UtilityHandlerView::Decls(
                seq![
                    fixed_view("display"@, "-webkit-box"@),
                    value_view("-webkit-line-clamp"@),
                    fixed_view("-webkit-box-orient"@, "vertical"@),
                    fixed_view("overflow"@, "hidden"@),
                ],
            ),
            seq!["lineClamp"@],
            data(CssDataType::Number),
            plain_spec(),
            None,
        ),
        preset_view(
            "border-spacing"@,
            UtilityHandlerView::Decls(
                seq![
                    value_view("--tw-border-spacing-x"@),
                    value_view("--tw-border-spacing-y"@),
                    fixed_view("border-spacing"@, "var(--tw-border-spacing-x) var(--tw-border-spacing-y)"@),
                ],
            ),
            seq!["borderSpacing"@, "spacing"@],
            data(CssDataType::Length),
            plain_spec().ordered(OrderingKey::BorderSpacing),
            shared(border_spacing_xy_spec()),
        ),
        preset_view(
            "border-spacing-x"@,
            UtilityHandlerView::Decls(
                seq![
                    value_view("--tw-border-spacing-x"@),
                    fixed_view("border-spacing"@, "var(--tw-border-spacing-x) var(--tw-border-spacing-y)"@),
                ],
            ),
            seq!["borderSpacing"@, "spacing"@],
            data(CssDataType::Length),
            plain_spec().ordered(OrderingKey::BorderSpacingAxis),
            shared(border_spacing_xy_spec()),
        ),
        preset_view(
            "border-spacing-y"@,
            UtilityHandlerView::Decls(
                seq![
                    value_view("--tw-border-spacing-y"@),
                    fixed_view("border-spacing"@, "var(--tw-border-spacing-x) var(--tw-border-spacing-y)"@),
                ],
            ),
            seq!["borderSpacing"@, "spacing"@],
            data(CssDataType::Length),
            plain_spec().ordered(OrderingKey::BorderSpacingAxis),
            shared(border_spacing_xy_spec()),
        ),
    ]
}

/// Clamped lines and the spacing of table borders.
pub fn table_presets() -> (v: Vec<UtilityBuilder>)
    ensures
        builders_view(v@) == table_presets_spec(),
        all_handled(builders_view(v@)),
{
    let mut v: Vec<UtilityBuilder> = Vec::new();
    v.push(
        preset(
            "line-clamp",
            h4(
                DeclTemplate::fixed("display", "-webkit-box"),
                DeclTemplate::value("-webkit-line-clamp"),
                DeclTemplate::fixed("-webkit-box-orient", "vertical"),
                DeclTemplate::fixed("overflow", "hidden"),
            ),
            t1("lineClamp"),
            by_data(CssDataType::Number),
            plain(),
            None,
        ),
    );
    v.push(
        preset(
            "border-spacing",
            h3(
                DeclTemplate::value("--tw-border-spacing-x"),
                DeclTemplate::value("--tw-border-spacing-y"),
                DeclTemplate::fixed("border-spacing", "var(--tw-border-spacing-x) var(--tw-border-spacing-y)"),
            ),
            t2("borderSpacing", "spacing"),
            by_data(CssDataType::Length),
            plain().ordered(OrderingKey::BorderSpacing),
            with_rules(border_spacing_xy()),
        ),
    );
    v.push(
        preset(
            "border-spacing-x",
            h2(
                DeclTemplate::value("--tw-border-spacing-x"),
                DeclTemplate::fixed("border-spacing", "var(--tw-border-spacing-x) var(--tw-border-spacing-y)"),
            ),
            t2("borderSpacing", "spacing"),
            by_data(CssDataType::Length),
            plain().ordered(OrderingKey::BorderSpacingAxis),
            with_rules(border_spacing_xy()),
        ),
    );
    v.push(
        preset(
            "border-spacing-y",
            h2(
                DeclTemplate::value("--tw-border-spacing-y"),
                DeclTemplate::fixed("border-spacing", "var(--tw-border-spacing-x) var(--tw-border-spacing-y)"),
            ),
            t2("borderSpacing", "spacing"),
            by_data(CssDataType::Length),
            plain().ordered(OrderingKey::BorderSpacingAxis),
            with_rules(border_spacing_xy()),
        ),
    );
    proof {
        reveal(table_presets_spec);
        assert(builders_view(v@)[0] == table_presets_spec()[0]);
        assert(builders_view(v@)[1] == table_presets_spec()[1]);
        assert(builders_view(v@)[2] == table_presets_spec()[2]);
        assert(builders_view(v@)[3] == table_presets_spec()[3]);
        assert(builders_view(v@) =~= table_presets_spec());
    }
    v
}

/// Animations, with the keyframes of the theme.
#[verifier::opaque]
pub open spec fn animate_presets_spec(keyframes: TableModel) -> Seq<UtilityBuilderView> {
    seq![
        preset_view(
            "animate"@,
            UtilityHandlerView::Decls(seq![value_view("animation"@)]),
            seq!["animation"@],
            None,
            plain_spec(),
            Some(AdditionalCssView::Keyframes(keyframes)),
        ),
    ]
}

/// Animations, with the keyframes of the theme.
pub fn animate_presets(keyframes: ThemeTable) -> (v: Vec<UtilityBuilder>)
    ensures
        builders_view(v@) == animate_presets_spec(table_model(keyframes)),
        all_handled(builders_view(v@)),
{
    let mut v: Vec<UtilityBuilder> = Vec::new();
    v.push(
        preset(
            "animate",
            h1(DeclTemplate::value("animation")),
            t1("animation"),
            None,
            plain(),
            Some(AdditionalCss::Keyframes(keyframes)),
        ),
    );
    proof {
        reveal(animate_presets_spec);
        assert(builders_view(v@)[0] == animate_presets_spec(table_model(keyframes))[0]);
        assert(builders_view(v@) =~= animate_presets_spec(table_model(keyframes)));
    }
    v
}

/// Space and dividers between children.
#[verifier::opaque]
pub open spec fn between_presets_spec() -> Seq<UtilityBuilderView> {
    seq![
        UtilityBuilderView {
            wrapper: Some("&:where(& > :not(:last-child))"@),
            ..preset_view(
                "space-x"@,
                UtilityHandlerView::Decls(
                    seq![
                        fixed_view("--tw-space-x-reverse"@, "0"@),
                        wrapped_view("margin-right"@, "calc("@, " * var(--tw-space-x-reverse))"@),
                        wrapped_view("margin-left"@, "calc("@, " * calc(1 - var(--tw-space-x-reverse)))"@),
                    ],
                ),
                seq!["space"@, "spacing"@],
                None,
                plain_spec().neg().ordered(OrderingKey::SpaceAxis),
                shared(space_x_reverse_spec()),
            )
        },
        UtilityBuilderView {
            wrapper: Some("&:where(& > :not(:last-child))"@),
            ..preset_view(
                "space-y"@,
                UtilityHandlerView::Decls(
                    seq![
                        fixed_view("--tw-space-y-reverse"@, "0"@),
                        wrapped_view("margin-top"@, "calc("@, " * calc(1 - var(--tw-space-y-reverse)))"@),
                        wrapped_view("margin-bottom"@, "calc("@, " * var(--tw-space-y-reverse))"@),
                    ],
                ),
                seq!["space"@, "spacing"@],
                None,
                plain_spec().neg().ordered(OrderingKey::SpaceAxis),
                shared(space_y_reverse_spec()),
            )
        },
        preset_view(
            "divide-x"@,
            UtilityHandlerView::Decls(
                seq![
                    fixed_view("--tw-divide-x-reverse"@, "0"@),
                    wrapped_view("border-right-width"@, "calc("@, " * var(--tw-divide-x-reverse))"@),
                    wrapped_view("border-left-width"@, "calc("@, " * calc(1 - var(--tw-divide-x-reverse)))"@),
                ],
            ),
            seq!["divideWidth"@, "borderWidth"@],
            prop(CssProperty::BorderRightWidth),
            plain_spec().ordered(OrderingKey::BorderWidthAxis),
            shared(divide_x_reverse_spec()),
        ),
        preset_view(
            "divide-y"@,
            UtilityHandlerView::Decls(
                seq![
                    fixed_view("--tw-divide-y-reverse"@, "0"@),
                    wrapped_view("border-top-width"@, "calc("@, " * calc(1 - var(--tw-divide-y-reverse)))"@),
                    wrapped_view("border-bottom-width"@, "calc("@, " * var(--tw-divide-y-reverse))"@),
                ],
            ),
            seq!["divideWidth"@, "borderWidth"@],
            prop(CssProperty::BorderTopWidth),
            plain_spec().ordered(OrderingKey::BorderWidthAxis),
            shared(divide_y_reverse_spec()),
        ),
        preset_view(
            "divide"@,
            UtilityHandlerView::Decls(seq![color_view("border-color"@)]),
            seq!["divideColor"@, "colors"@],
            prop(CssProperty::BorderColor),
            plain_spec().alpha(),
            None,
        ),
        preset_view(
            "border"@,
            UtilityHandlerView::Decls(seq![color_view("border-width"@)]),
            seq!["colors"@],
            prop(CssProperty::BorderColor),
            plain_spec().alpha(),
            None,
        ),
    ]
}

/// Space and dividers between children.
pub fn between_presets() -> (v: Vec<UtilityBuilder>)
    ensures
        builders_view(v@) == between_presets_spec(),
        all_handled(builders_view(v@)),
{
    let mut v: Vec<UtilityBuilder> = Vec::new();
    v.push(
        wrapped_in(
            preset(
                "space-x",
                h3(
                    DeclTemplate::fixed("--tw-space-x-reverse", "0"),
                    DeclTemplate::wrapped("margin-right", "calc(", " * var(--tw-space-x-reverse))"),
                    DeclTemplate::wrapped("margin-left", "calc(", " * calc(1 - var(--tw-space-x-reverse)))"),
                ),
                t2("space", "spacing"),
                None,
                plain().neg().ordered(OrderingKey::SpaceAxis),
                with_rules(space_x_reverse()),
            ),
            "&:where(& > :not(:last-child))",
        ),
    );
    v.push(
        wrapped_in(
            preset(
                "space-y",
                h3(
                    DeclTemplate::fixed("--tw-space-y-reverse", "0"),
                    DeclTemplate::wrapped("margin-top", "calc(", " * calc(1 - var(--tw-space-y-reverse)))"),
                    DeclTemplate::wrapped("margin-bottom", "calc(", " * var(--tw-space-y-reverse))"),
                ),
                t2("space", "spacing"),
                None,
                plain().neg().ordered(OrderingKey::SpaceAxis),
                with_rules(space_y_reverse()),
            ),
            "&:where(& > :not(:last-child))",
        ),
    );
    v.push(
        preset(
            "divide-x",
            h3(
                DeclTemplate::fixed("--tw-divide-x-reverse", "0"),
                DeclTemplate::wrapped("border-right-width", "calc(", " * var(--tw-divide-x-reverse))"),
                DeclTemplate::wrapped("border-left-width", "calc(", " * calc(1 - var(--tw-divide-x-reverse)))"),
            ),
            t2("divideWidth", "borderWidth"),
            by_prop(CssProperty::BorderRightWidth),
            plain().ordered(OrderingKey::BorderWidthAxis),
            with_rules(divide_x_reverse()),
        ),
    );
    v.push(
        preset(
            "divide-y",
            h3(
                DeclTemplate::fixed("--tw-divide-y-reverse", "0"),
                DeclTemplate::wrapped("border-top-width", "calc(", " * calc(1 - var(--tw-divide-y-reverse)))"),
                DeclTemplate::wrapped("border-bottom-width", "calc(", " * var(--tw-divide-y-reverse))"),
            ),
            t2("divideWidth", "borderWidth"),
            by_prop(CssProperty::BorderTopWidth),
            plain().ordered(OrderingKey::BorderWidthAxis),
            with_rules(divide_y_reverse()),
        ),
    );
    v.push(
        preset(
            "divide",
            h1(DeclTemplate::color("border-color")),
            t2("divideColor", "colors"),
            by_prop(CssProperty::BorderColor),
            plain().alpha(),
            None,
        ),
    );
    v.push(
        preset(
            "border",
            h1(DeclTemplate::color("border-width")),
            t1("colors"),
            by_prop(CssProperty::BorderColor),
            plain().alpha(),
            None,
        ),
    );
    proof {
        reveal(between_presets_spec);
        assert(builders_view(v@)[0] == between_presets_spec()[0]);
        assert(builders_view(v@)[1] == between_presets_spec()[1]);
        assert(builders_view(v@)[2] == between_presets_spec()[2]);
        assert(builders_view(v@)[3] == between_presets_spec()[3]);
        assert(builders_view(v@)[4] == between_presets_spec()[4]);
        assert(builders_view(v@)[5] == between_presets_spec()[5]);
        assert(builders_view(v@) =~= between_presets_spec());
    }
    v
}

/// The stops of gradients.
#[verifier::opaque]
pub open spec fn gradient_presets_spec() -> Seq<UtilityBuilderView> {
    seq![
        preset_view(
            "from"@,
            UtilityHandlerView::Decls(
                seq![
                    wrapped_view("--tw-gradient-from"@, ""@, " var(--tw-gradient-from-position)"@),
                    fixed_view("--tw-gradient-stops"@, "var(--tw-gradient-via-stops, var(--tw-gradient-from) var(--tw-gradient-from-position), var(--tw-gradient-to) var(--tw-gradient-to-position))"@),
                ],
            ),
            seq!["gradientColorStops"@, "colors"@],
            prop(CssProperty::Color),
            plain_spec().alpha().ordered(OrderingKey::FromColor),
            shared(gradient_properties_spec()),
        ),
        preset_view(
            "from"@,
            UtilityHandlerView::Decls(seq![value_view("--tw-gradient-from-position"@)]),
            seq!["gradientColorStopPositions"@],
            data(CssDataType::LengthPercentage),
            plain_spec().ordered(OrderingKey::FromPosition),
            shared(gradient_properties_spec()),
        ),
        preset_view(
            "via"@,
            UtilityHandlerView::Decls(
                seq![
                    color_view("--tw-gradient-via"@),
                    fixed_view("--tw-gradient-via-stops"@, "var(--tw-gradient-from) var(--tw-gradient-from-position), var(--tw-gradient-via) var(--tw-gradient-via-position), var(--tw-gradient-to) var(--tw-gradient-to-position)"@),
                    fixed_view("--tw-gradient-stops"@, "var(--tw-gradient-via-stops)"@),
                ],
            ),
            seq!["gradientColorStops"@, "colors"@],
            prop(CssProperty::Color),
            plain_spec().alpha().ordered(OrderingKey::ViaColor),
            shared(gradient_properties_spec()),
        ),
        preset_view(
            "via"@,
            UtilityHandlerView::Decls(seq![value_view("--tw-gradient-via-position"@)]),
            seq!["gradientColorStopPositions"@],
            data(CssDataType::LengthPercentage),
            plain_spec().ordered(OrderingKey::ViaPosition),
            shared(gradient_properties_spec()),
        ),
        preset_view(
            "to"@,
            UtilityHandlerView::Decls(
                seq![
                    color_view("--tw-gradient-to"@),
                    fixed_view("--tw-gradient-stops"@, "var(--tw-gradient-via-stops, var(--tw-gradient-from) var(--tw-gradient-from-position), var(--tw-gradient-to) var(--tw-gradient-to-position))"@),
                ],
            ),
            seq!["gradientColorStops"@, "colors"@],
            None,
            plain_spec().ordered(OrderingKey::ToColor),
            shared(gradient_properties_spec()),
        ),
        preset_view(
            "to"@,
            UtilityHandlerView::Decls(seq![value_view("--tw-gradient-to-position"@)]),
            seq!["gradientColorStopPositions"@],
            data(CssDataType::LengthPercentage),
            plain_spec(),
            None,
        ),
    ]
}

/// The stops of gradients.
pub fn gradient_presets() -> (v: Vec<UtilityBuilder>)
    ensures
        builders_view(v@) == gradient_presets_spec(),
        all_handled(builders_view(v@)),
{
    let mut v: Vec<UtilityBuilder> = Vec::new();
    v.push(
        preset(
            "from",
            h2(
                DeclTemplate::wrapped("--tw-gradient-from", "", " var(--tw-gradient-from-position)"),
                DeclTemplate::fixed("--tw-gradient-stops", "var(--tw-gradient-via-stops, var(--tw-gradient-from) var(--tw-gradient-from-position), var(--tw-gradient-to) var(--tw-gradient-to-position))"),
            ),
            t2("gradientColorStops", "colors"),
            by_prop(CssProperty::Color),
            plain().alpha().ordered(OrderingKey::FromColor),
            with_rules(gradient_properties()),
        ),
    );
    v.push(
        preset(
            "from",
            h1(DeclTemplate::value("--tw-gradient-from-position")),
            t1("gradientColorStopPositions"),
            by_data(CssDataType::LengthPercentage),
            plain().ordered(OrderingKey::FromPosition),
            with_rules(gradient_properties()),
        ),
    );
    v.push(
        preset(
            "via",
            h3(
                DeclTemplate::color("--tw-gradient-via"),
                DeclTemplate::fixed("--tw-gradient-via-stops", "var(--tw-gradient-from) var(--tw-gradient-from-position), var(--tw-gradient-via) var(--tw-gradient-via-position), var(--tw-gradient-to) var(--tw-gradient-to-position)"),
                DeclTemplate::fixed("--tw-gradient-stops", "var(--tw-gradient-via-stops)"),
            ),
            t2("gradientColorStops", "colors"),
            by_prop(CssProperty::Color),
            plain().alpha().ordered(OrderingKey::ViaColor),
            with_rules(gradient_properties()),
        ),
    );
    v.push(
        preset(
            "via",
            h1(DeclTemplate::value("--tw-gradient-via-position")),
            t1("gradientColorStopPositions"),
            by_data(CssDataType::LengthPercentage),
            plain().ordered(OrderingKey::ViaPosition),
            with_rules(gradient_properties()),
        ),
    );
    v.push(
        preset(
            "to",
            h2(
                DeclTemplate::color("--tw-gradient-to"),
                DeclTemplate::fixed("--tw-gradient-stops", "var(--tw-gradient-via-stops, var(--tw-gradient-from) var(--tw-gradient-from-position), var(--tw-gradient-to) var(--tw-gradient-to-position))"),
            ),
            t2("gradientColorStops", "colors"),
            None,
            plain().ordered(OrderingKey::ToColor),
            with_rules(gradient_properties()),
        ),
    );
    v.push(
        preset(
            "to",
            h1(DeclTemplate::value("--tw-gradient-to-position")),
            t1("gradientColorStopPositions"),
            by_data(CssDataType::LengthPercentage),
            plain(),
            None,
        ),
    );
    proof {
        reveal(gradient_presets_spec);
        assert(builders_view(v@)[0] == gradient_presets_spec()[0]);
        assert(builders_view(v@)[1] == gradient_presets_spec()[1]);
        assert(builders_view(v@)[2] == gradient_presets_spec()[2]);
        assert(builders_view(v@)[3] == gradient_presets_spec()[3]);
        assert(builders_view(v@)[4] == gradient_presets_spec()[4]);
        assert(builders_view(v@)[5] == gradient_presets_spec()[5]);
        assert(builders_view(v@) =~= gradient_presets_spec());
    }
    v
}

/// Fills, strokes and backgrounds.
#[verifier::opaque]
pub open spec fn paint_presets_spec() -> Seq<UtilityBuilderView> {
    seq![
        preset_view(
            "fill"@,
            UtilityHandlerView::Decls(seq![color_view("fill"@)]),
            seq!["fill"@, "colors"@],
            prop(CssProperty::Color),
            plain_spec(),
            None,
        ),
        preset_view(
            "stroke"@,
            UtilityHandlerView::Decls(seq![value_view("stroke-width"@)]),
            seq!["strokeWidth"@],
            data(CssDataType::LengthPercentage),
            plain_spec(),
            None,
        ),
        preset_view(
            "stroke"@,
            UtilityHandlerView::Decls(seq![color_view("stroke"@)]),
            seq!["stroke"@, "colors"@],
            prop(CssProperty::Color),
            plain_spec().alpha(),
            None,
        ),
        preset_view(
            "bg"@,
            UtilityHandlerView::Decls(seq![color_view("background-color"@)]),
            seq!["backgroundColor"@, "colors"@],
            prop(CssProperty::Color),
            plain_spec().alpha(),
            None,
        ),
        preset_view(
            "bg"@,
            UtilityHandlerView::Decls(seq![value_view("background-position"@)]),
            seq!["backgroundPosition"@],
            prop(CssProperty::BackgroundPosition),
            plain_spec(),
            None,
        ),
        preset_view(
            "bg"@,
            UtilityHandlerView::Decls(seq![value_view("background-size"@)]),
            seq!["backgroundSize"@],
            prop(CssProperty::BackgroundSize),
            plain_spec(),
            None,
        ),
        preset_view(
            "bg"@,
            UtilityHandlerView::Decls(seq![value_view("background-image"@)]),
            seq!["backgroundImage"@],
            prop(CssProperty::BackgroundImage),
            plain_spec(),
            None,
        ),
    ]
}

/// Fills, strokes and backgrounds.
pub fn paint_presets() -> (v: Vec<UtilityBuilder>)
    ensures
        builders_view(v@) == paint_presets_spec(),
        all_handled(builders_view(v@)),
{
    let mut v: Vec<UtilityBuilder> = Vec::new();
    v.push(
        preset(
            "fill",
            h1(DeclTemplate::color("fill")),
            t2("fill", "colors"),
            by_prop(CssProperty::Color),
            plain(),
            None,
        ),
    );
    v.push(
        preset(
            "stroke",
            h1(DeclTemplate::value("stroke-width")),
            t1("strokeWidth"),
            by_data(CssDataType::LengthPercentage),
            plain(),
            None,
        ),
    );
    v.push(
        preset(
            "stroke",
            h1(DeclTemplate::color("stroke")),
            t2("stroke", "colors"),
            by_prop(CssProperty::Color),
            plain().alpha(),
            None,
        ),
    );
    v.push(
        preset(
            "bg",
            h1(DeclTemplate::color("background-color")),
            t2("backgroundColor", "colors"),
            by_prop(CssProperty::Color),
            plain().alpha(),
            None,
        ),
    );
    v.push(
        preset(
            "bg",
            h1(DeclTemplate::value("background-position")),
            t1("backgroundPosition"),
            by_prop(CssProperty::BackgroundPosition),
            plain(),
            None,
        ),
    );
    v.push(
        preset(
            "bg",
            h1(DeclTemplate::value("background-size")),
            t1("backgroundSize"),
            by_prop(CssProperty::BackgroundSize),
            plain(),
            None,
        ),
    );
    v.push(
        preset(
            "bg",
            h1(DeclTemplate::value("background-image")),
            t1("backgroundImage"),
            by_prop(CssProperty::BackgroundImage),
            plain(),
            None,
        ),
    );
    proof {
        reveal(paint_presets_spec);
        assert(builders_view(v@)[0] == paint_presets_spec()[0]);
        assert(builders_view(v@)[1] == paint_presets_spec()[1]);
        assert(builders_view(v@)[2] == paint_presets_spec()[2]);
        assert(builders_view(v@)[3] == paint_presets_spec()[3]);
        assert(builders_view(v@)[4] == paint_presets_spec()[4]);
        assert(builders_view(v@)[5] == paint_presets_spec()[5]);
        assert(builders_view(v@)[6] == paint_presets_spec()[6]);
        assert(builders_view(v@) =~= paint_presets_spec());
    }
    v
}

/// Text: color, size, font and decoration.
#[verifier::opaque]
pub open spec fn text_presets_spec() -> Seq<UtilityBuilderView> {
    seq![
        preset_view(
            "text"@,
            UtilityHandlerView::Decls(seq![color_view("color"@)]),
            seq!["textColor"@, "colors"@],
            prop(CssProperty::Color),
            plain_spec().alpha(),
            None,
        ),
        UtilityBuilderView {
            modifier: Some((seq!["lineHeight"@], prop(CssProperty::LineHeight))),
            ..preset_view(
                "text"@,
                UtilityHandlerView::FontSize,
                seq!["fontSize"@],
                prop(CssProperty::FontSize),
                plain_spec(),
                None,
            )
        },
        preset_view(
            "font"@,
            UtilityHandlerView::Decls(seq![value_view("font-weight"@)]),
            seq!["fontWeight"@],
            prop(CssProperty::FontWeight),
            plain_spec(),
            None,
        ),
        preset_view(
            "font"@,
            UtilityHandlerView::FontFamily,
            seq!["fontFamily"@],
            prop(CssProperty::FontWeight),
            plain_spec(),
            None,
        ),
        preset_view(
            "text-ident"@,
            UtilityHandlerView::Decls(seq![value_view("text-indent"@)]),
            seq!["textIndent"@, "spacing"@],
            prop(CssProperty::TextIndent),
            plain_spec(),
            None,
        ),
        preset_view(
            "font-stretch"@,
            UtilityHandlerView::Decls(seq![value_view("font-stretch"@)]),
            Seq::<Seq<char>>::empty(),
            prop(CssProperty::FontStretch),
            plain_spec(),
            None,
        ),
        UtilityBuilderView {
            wrapper: Some("&::placeholder"@),
            ..preset_view(
                "placeholder"@,
                UtilityHandlerView::Decls(seq![color_view("color"@)]),
                seq!["placeholderColor"@, "colors"@],
                prop(CssProperty::Color),
                plain_spec().alpha(),
                None,
            )
        },
        preset_view(
            "decoration"@,
            UtilityHandlerView::Decls(seq![color_view("text-decoration-color"@)]),
            seq!["textDecorationColor"@, "colors"@],
            prop(CssProperty::Color),
            plain_spec().alpha(),
            None,
        ),
        preset_view(
            "decoration"@,
            UtilityHandlerView::Decls(seq![value_view("text-decoration-thickness"@)]),
            seq!["textDecorationThickness"@],
            data(CssDataType::LengthPercentage),
            plain_spec(),
            None,
        ),
    ]
}

/// Text: color, size, font and decoration.
pub fn text_presets() -> (v: Vec<UtilityBuilder>)
    ensures
        builders_view(v@) == text_presets_spec(),
        all_handled(builders_view(v@)),
{
    let mut v: Vec<UtilityBuilder> = Vec::new();
    v.push(
        preset(
            "text",
            h1(DeclTemplate::color("color")),
            t2("textColor", "colors"),
            by_prop(CssProperty::Color),
            plain().alpha(),
            None,
        ),
    );
    v.push(
        modified_by(
            preset(
                "text",
                UtilityHandler::FontSize,
                t1("fontSize"),
                by_prop(CssProperty::FontSize),
                plain(),
                None,
            ),
            "lineHeight",
            by_prop(CssProperty::LineHeight),
        ),
    );
    v.push(
        preset(
            "font",
            h1(DeclTemplate::value("font-weight")),
            t1("fontWeight"),
            by_prop(CssProperty::FontWeight),
            plain(),
            None,
        ),
    );
    v.push(
        preset(
            "font",
            UtilityHandler::FontFamily,
            t1("fontFamily"),
            by_prop(CssProperty::FontWeight),
            plain(),
            None,
        ),
    );
    v.push(
        preset(
            "text-ident",
            h1(DeclTemplate::value("text-indent")),
            t2("textIndent", "spacing"),
            by_prop(CssProperty::TextIndent),
            plain(),
            None,
        ),
    );
    v.push(
        preset(
            "font-stretch",
            h1(DeclTemplate::value("font-stretch")),
            t0(),
            by_prop(CssProperty::FontStretch),
            plain(),
            None,
        ),
    );
    v.push(
        wrapped_in(
            preset(
                "placeholder",
                h1(DeclTemplate::color("color")),
                t2("placeholderColor", "colors"),
                by_prop(CssProperty::Color),
                plain().alpha(),
                None,
            ),
            "&::placeholder",
        ),
    );
    v.push(
        preset(
            "decoration",
            h1(DeclTemplate::color("text-decoration-color")),
            t2("textDecorationColor", "colors"),
            by_prop(CssProperty::Color),
            plain().alpha(),
            None,
        ),
    );
    v.push(
        preset(
            "decoration",
            h1(DeclTemplate::value("text-decoration-thickness")),
            t1("textDecorationThickness"),
            by_data(CssDataType::LengthPercentage),
            plain(),
            None,
        ),
    );
    proof {
        reveal(text_presets_spec);
        assert(builders_view(v@)[0] == text_presets_spec()[0]);
        assert(builders_view(v@)[1] == text_presets_spec()[1]);
        assert(builders_view(v@)[2] == text_presets_spec()[2]);
        assert(builders_view(v@)[3] == text_presets_spec()[3]);
        assert(builders_view(v@)[4] == text_presets_spec()[4]);
        assert(builders_view(v@)[5] == text_presets_spec()[5]);
        assert(builders_view(v@)[6] == text_presets_spec()[6]);
        assert(builders_view(v@)[7] == text_presets_spec()[7]);
        assert(builders_view(v@)[8] == text_presets_spec()[8]);
        assert(builders_view(v@) =~= text_presets_spec());
    }
    v
}

/// Box shadows.
#[verifier::opaque]
pub open spec fn shadow_presets_spec() -> Seq<UtilityBuilderView> {
    seq![
        preset_view(
            "shadow"@,
            UtilityHandlerView::Decls(seq![value_view("box-shadow"@)]),
            seq!["boxShadow"@],
            prop(CssProperty::BoxShadow),
            plain_spec(),
            shared(box_shadow_properties_spec()),
        ),
        preset_view(
            "shadow"@,
            UtilityHandlerView::Decls(
                seq![
                    value_view("--tw-shadow-color"@),
                    fixed_view("--tw-shadow"@, "var(--tw-shadow-colored)"@),
                ],
            ),
            seq!["boxShadowColor"@, "colors"@],
            prop(CssProperty::Color),
            plain_spec(),
            shared(box_shadow_properties_spec()),
        ),
    ]
}

/// Box shadows.
pub fn shadow_presets() -> (v: Vec<UtilityBuilder>)
    ensures
        builders_view(v@) == shadow_presets_spec(),
        all_handled(builders_view(v@)),
{
    let mut v: Vec<UtilityBuilder> = Vec::new();
    v.push(
        preset(
            "shadow",
            h1(DeclTemplate::value("box-shadow")),
            t1("boxShadow"),
            by_prop(CssProperty::BoxShadow),
            plain(),
            with_rules(box_shadow_properties()),
        ),
    );
    v.push(
        preset(
            "shadow",
            h2(
                DeclTemplate::value("--tw-shadow-color"),
                DeclTemplate::fixed("--tw-shadow", "var(--tw-shadow-colored)"),
            ),
            t2("boxShadowColor", "colors"),
            by_prop(CssProperty::Color),
            plain(),
            with_rules(box_shadow_properties()),
        ),
    );
    proof {
        reveal(shadow_presets_spec);
        assert(builders_view(v@)[0] == shadow_presets_spec()[0]);
        assert(builders_view(v@)[1] == shadow_presets_spec()[1]);
        assert(builders_view(v@) =~= shadow_presets_spec());
    }
    v
}

/// Filters and backdrop filters, which `filter` and `backdrop-filter` compose.
#[verifier::opaque]
pub open spec fn filter_presets_spec() -> Seq<UtilityBuilderView> {
    seq![
        preset_view(
            "blur"@,
            UtilityHandlerView::Decls(seq![wrapped_view("--tw-blur"@, "blur("@, ")"@)]),
            seq!["blur"@],
            data(CssDataType::LengthPercentage),
            plain_spec().grouped(UtilityGroup::Filter),
            None,
        ),
        preset_view(
            "backdrop-blur"@,
            UtilityHandlerView::Decls(seq![wrapped_view("--tw-backdrop-blur"@, "blur("@, ")"@)]),
            seq!["backdropBlur"@, "blur"@],
            data(CssDataType::LengthPercentage),
            plain_spec().grouped(UtilityGroup::BackdropFilter),
            None,
        ),
        preset_view(
            "brightness"@,
            UtilityHandlerView::Decls(
                seq![
                    wrapped_view("--tw-brightness"@, "brightness("@, ")"@),
                ],
            ),
            seq!["brightness"@],
            data(CssDataType::LengthPercentage),
            plain_spec().grouped(UtilityGroup::Filter),
            None,
        ),
        preset_view(
            "backdrop-brightness"@,
            UtilityHandlerView::Decls(
                seq![
                    wrapped_view("--tw-backdrop-brightness"@, "brightness("@, ")"@),
                ],
            ),
            seq!["backdropBrightness"@, "brightness"@],
            data(CssDataType::LengthPercentage),
            plain_spec().grouped(UtilityGroup::BackdropFilter),
            None,
        ),
        preset_view(
            "contrast"@,
            UtilityHandlerView::Decls(seq![wrapped_view("--tw-contrast"@, "contrast("@, ")"@)]),
            seq!["contrast"@],
            data(CssDataType::LengthPercentage),
            plain_spec().grouped(UtilityGroup::Filter),
            None,
        ),
        preset_view(
            "backdrop-contrast"@,
            UtilityHandlerView::Decls(
                seq![
                    wrapped_view("--tw-backdrop-contrast"@, "contrast("@, ")"@),
                ],
            ),
            seq!["backdropContrast"@, "contrast"@],
            data(CssDataType::LengthPercentage),
            plain_spec().grouped(UtilityGroup::BackdropFilter),
            None,
        ),
        preset_view(
            "grayscale"@,
            UtilityHandlerView::Decls(
                seq![
                    wrapped_view("--tw-grayscale"@, "grayscale("@, ")"@),
                ],
            ),
            seq!["grayscale"@],
            data(CssDataType::LengthPercentage),
            plain_spec().grouped(UtilityGroup::Filter),
            None,
        ),
        preset_view(
            "backdrop-grayscale"@,
            UtilityHandlerView::Decls(
                seq![
                    wrapped_view("--tw-backdrop-grayscale"@, "grayscale("@, ")"@),
                ],
            ),
            seq!["backdropGrayscale"@, "grayscale"@],
            data(CssDataType::LengthPercentage),
            plain_spec().grouped(UtilityGroup::BackdropFilter),
            None,
        ),
        preset_view(
            "invert"@,
            UtilityHandlerView::Decls(seq![wrapped_view("--tw-invert"@, "invert("@, ")"@)]),
            seq!["invert"@],
            data(CssDataType::LengthPercentage),
            plain_spec().grouped(UtilityGroup::Filter),
            None,
        ),
        preset_view(
            "backdrop-invert"@,
            UtilityHandlerView::Decls(
                seq![
                    wrapped_view("--tw-backdrop-invert"@, "invert("@, ")"@),
                ],
            ),
            seq!["backdropInvert"@, "invert"@],
            data(CssDataType::LengthPercentage),
            plain_spec().grouped(UtilityGroup::BackdropFilter),
            None,
        ),
    ]
}

/// Filters and backdrop filters, which `filter` and `backdrop-filter` compose.
pub fn filter_presets() -> (v: Vec<UtilityBuilder>)
    ensures
        builders_view(v@) == filter_presets_spec(),
        all_handled(builders_view(v@)),
{
    let mut v: Vec<UtilityBuilder> = Vec::new();
    v.push(
        preset(
            "blur",
            h1(DeclTemplate::wrapped("--tw-blur", "blur(", ")")),
            t1("blur"),
            by_data(CssDataType::LengthPercentage),
            plain().grouped(UtilityGroup::Filter),
            None,
        ),
    );
    v.push(
        preset(
            "backdrop-blur",
            h1(DeclTemplate::wrapped("--tw-backdrop-blur", "blur(", ")")),
            t2("backdropBlur", "blur"),
            by_data(CssDataType::LengthPercentage),
            plain().grouped(UtilityGroup::BackdropFilter),
            None,
        ),
    );
    v.push(
        preset(
            "brightness",
            h1(DeclTemplate::wrapped("--tw-brightness", "brightness(", ")")),
            t1("brightness"),
            by_data(CssDataType::LengthPercentage),
            plain().grouped(UtilityGroup::Filter),
            None,
        ),
    );
    v.push(
        preset(
            "backdrop-brightness",
            h1(DeclTemplate::wrapped("--tw-backdrop-brightness", "brightness(", ")")),
            t2("backdropBrightness", "brightness"),
            by_data(CssDataType::LengthPercentage),
            plain().grouped(UtilityGroup::BackdropFilter),
            None,
        ),
    );
    v.push(
        preset(
            "contrast",
            h1(DeclTemplate::wrapped("--tw-contrast", "contrast(", ")")),
            t1("contrast"),
            by_data(CssDataType::LengthPercentage),
            plain().grouped(UtilityGroup::Filter),
            None,
        ),
    );
    v.push(
        preset(
            "backdrop-contrast",
            h1(DeclTemplate::wrapped("--tw-backdrop-contrast", "contrast(", ")")),
            t2("backdropContrast", "contrast"),
            by_data(CssDataType::LengthPercentage),
            plain().grouped(UtilityGroup::BackdropFilter),
            None,
        ),
    );
    v.push(
        preset(
            "grayscale",
            h1(DeclTemplate::wrapped("--tw-grayscale", "grayscale(", ")")),
            t1("grayscale"),
            by_data(CssDataType::LengthPercentage),
            plain().grouped(UtilityGroup::Filter),
            None,
        ),
    );
    v.push(
        preset(
            "backdrop-grayscale",
            h1(DeclTemplate::wrapped("--tw-backdrop-grayscale", "grayscale(", ")")),
            t2("backdropGrayscale", "grayscale"),
            by_data(CssDataType::LengthPercentage),
            plain().grouped(UtilityGroup::BackdropFilter),
            None,
        ),
    );
    v.push(
        preset(
            "invert",
            h1(DeclTemplate::wrapped("--tw-invert", "invert(", ")")),
            t1("invert"),
            by_data(CssDataType::LengthPercentage),
            plain().grouped(UtilityGroup::Filter),
            None,
        ),
    );
    v.push(
        preset(
            "backdrop-invert",
            h1(DeclTemplate::wrapped("--tw-backdrop-invert", "invert(", ")")),
            t2("backdropInvert", "invert"),
            by_data(CssDataType::LengthPercentage),
            plain().grouped(UtilityGroup::BackdropFilter),
            None,
        ),
    );
    proof {
        reveal(filter_presets_spec);
        assert(builders_view(v@)[0] == filter_presets_spec()[0]);
        assert(builders_view(v@)[1] == filter_presets_spec()[1]);
        assert(builders_view(v@)[2] == filter_presets_spec()[2]);
        assert(builders_view(v@)[3] == filter_presets_spec()[3]);
        assert(builders_view(v@)[4] == filter_presets_spec()[4]);
        assert(builders_view(v@)[5] == filter_presets_spec()[5]);
        assert(builders_view(v@)[6] == filter_presets_spec()[6]);
        assert(builders_view(v@)[7] == filter_presets_spec()[7]);
        assert(builders_view(v@)[8] == filter_presets_spec()[8]);
        assert(builders_view(v@)[9] == filter_presets_spec()[9]);
        assert(builders_view(v@) =~= filter_presets_spec());
    }
    v
}

/// More filters and backdrop filters.
#[verifier::opaque]
pub open spec fn more_filter_presets_spec() -> Seq<UtilityBuilderView> {
    seq![
        preset_view(
            "invert"@,
            UtilityHandlerView::Decls(seq![wrapped_view("--tw-invert"@, "invert("@, ")"@)]),
            seq!["invert"@],
            data(CssDataType::LengthPercentage),
            plain_spec().grouped(UtilityGroup::Filter),
            None,
        ),
        preset_view(
            "backdrop-invert"@,
            UtilityHandlerView::Decls(
                seq![
                    wrapped_view("--tw-backdrop-invert"@, "invert("@, ")"@),
                ],
            ),
            seq!["backdropInvert"@, "invert"@],
            data(CssDataType::LengthPercentage),
            plain_spec().grouped(UtilityGroup::BackdropFilter),
            None,
        ),
        preset_view(
            "saturate"@,
            UtilityHandlerView::Decls(seq![wrapped_view("--tw-saturate"@, "saturate("@, ")"@)]),
            seq!["saturate"@],
            data(CssDataType::LengthPercentage),
            plain_spec().grouped(UtilityGroup::Filter),
            None,
        ),
        preset_view(
            "backdrop-saturate"@,
            UtilityHandlerView::Decls(
                seq![
                    wrapped_view("--tw-backdrop-saturate"@, "saturate("@, ")"@),
                ],
            ),
            seq!["backdropSaturate"@, "saturate"@],
            data(CssDataType::LengthPercentage),
            plain_spec().grouped(UtilityGroup::BackdropFilter),
            None,
        ),
        preset_view(
            "sepia"@,
            UtilityHandlerView::Decls(seq![wrapped_view("--tw-sepia"@, "sepia("@, ")"@)]),
            seq!["sepia"@],
            data(CssDataType::LengthPercentage),
            plain_spec().grouped(UtilityGroup::Filter),
            None,
        ),
        preset_view(
            "backdrop-sepia"@,
            UtilityHandlerView::Decls(
                seq![
                    wrapped_view("--tw-backdrop-sepia"@, "sepia("@, ")"@),
                ],
            ),
            seq!["backdropSepia"@, "sepia"@],
            data(CssDataType::LengthPercentage),
            plain_spec().grouped(UtilityGroup::BackdropFilter),
            None,
        ),
        preset_view(
            "drop-shadow"@,
            UtilityHandlerView::Decls(seq![value_view("--tw-drop-shadow"@)]),
            seq!["dropShadow"@],
            data(CssDataType::LengthPercentage),
            plain_spec().grouped(UtilityGroup::Filter),
            None,
        ),
        preset_view(
            "backdrop-opacity"@,
            UtilityHandlerView::Decls(seq![value_view("--tw-backdrop-opacity"@)]),
            seq!["opacity"@],
            data(CssDataType::LengthPercentage),
            plain_spec().grouped(UtilityGroup::BackdropFilter),
            None,
        ),
    ]
}

/// More filters and backdrop filters.
pub fn more_filter_presets() -> (v: Vec<UtilityBuilder>)
    ensures
        builders_view(v@) == more_filter_presets_spec(),
        all_handled(builders_view(v@)),
{
    let mut v: Vec<UtilityBuilder> = Vec::new();
    v.push(
        preset(
            "invert",
            h1(DeclTemplate::wrapped("--tw-invert", "invert(", ")")),
            t1("invert"),
            by_data(CssDataType::LengthPercentage),
            plain().grouped(UtilityGroup::Filter),
            None,
        ),
    );
    v.push(
        preset(
            "backdrop-invert",
            h1(DeclTemplate::wrapped("--tw-backdrop-invert", "invert(", ")")),
            t2("backdropInvert", "invert"),
            by_data(CssDataType::LengthPercentage),
            plain().grouped(UtilityGroup::BackdropFilter),
            None,
        ),
    );
    v.push(
        preset(
            "saturate",
            h1(DeclTemplate::wrapped("--tw-saturate", "saturate(", ")")),
            t1("saturate"),
            by_data(CssDataType::LengthPercentage),
            plain().grouped(UtilityGroup::Filter),
            None,
        ),
    );
    v.push(
        preset(
            "backdrop-saturate",
            h1(DeclTemplate::wrapped("--tw-backdrop-saturate", "saturate(", ")")),
            t2("backdropSaturate", "saturate"),
            by_data(CssDataType::LengthPercentage),
            plain().grouped(UtilityGroup::BackdropFilter),
            None,
        ),
    );
    v.push(
        preset(
            "sepia",
            h1(DeclTemplate::wrapped("--tw-sepia", "sepia(", ")")),
            t1("sepia"),
            by_data(CssDataType::LengthPercentage),
            plain().grouped(UtilityGroup::Filter),
            None,
        ),
    );
    v.push(
        preset(
            "backdrop-sepia",
            h1(DeclTemplate::wrapped("--tw-backdrop-sepia", "sepia(", ")")),
            t2("backdropSepia", "sepia"),
            by_data(CssDataType::LengthPercentage),
            plain().grouped(UtilityGroup::BackdropFilter),
            None,
        ),
    );
    v.push(
        preset(
            "drop-shadow",
            h1(DeclTemplate::value("--tw-drop-shadow")),
            t1("dropShadow"),
            by_data(CssDataType::LengthPercentage),
            plain().grouped(UtilityGroup::Filter),
            None,
        ),
    );
    v.push(
        preset(
            "backdrop-opacity",
            h1(DeclTemplate::value("--tw-backdrop-opacity")),
            t1("opacity"),
            by_data(CssDataType::LengthPercentage),
            plain().grouped(UtilityGroup::BackdropFilter),
            None,
        ),
    );
    proof {
        reveal(more_filter_presets_spec);
        assert(builders_view(v@)[0] == more_filter_presets_spec()[0]);
        assert(builders_view(v@)[1] == more_filter_presets_spec()[1]);
        assert(builders_view(v@)[2] == more_filter_presets_spec()[2]);
        assert(builders_view(v@)[3] == more_filter_presets_spec()[3]);
        assert(builders_view(v@)[4] == more_filter_presets_spec()[4]);
        assert(builders_view(v@)[5] == more_filter_presets_spec()[5]);
        assert(builders_view(v@)[6] == more_filter_presets_spec()[6]);
        assert(builders_view(v@)[7] == more_filter_presets_spec()[7]);
        assert(builders_view(v@) =~= more_filter_presets_spec());
    }
    v
}

/// Cursors, lists, columns, grids and gaps.
#[verifier::opaque]
pub open spec fn layout_presets_spec() -> Seq<UtilityBuilderView> {
    seq![
        preset_view(
            "cursor"@,
            UtilityHandlerView::Decls(seq![value_view("cursor"@)]),
            Seq::<Seq<char>>::empty(),
            prop(CssProperty::Cursor),
            plain_spec(),
            None,
        ),
        preset_view(
            "list"@,
            UtilityHandlerView::Decls(seq![value_view("list-style-type"@)]),
            Seq::<Seq<char>>::empty(),
            prop(CssProperty::ListStyleType),
            plain_spec(),
            None,
        ),
        preset_view(
            "list-image"@,
            UtilityHandlerView::Decls(seq![value_view("list-style-image"@)]),
            Seq::<Seq<char>>::empty(),
            prop(CssProperty::ListStyleImage),
            plain_spec(),
            None,
        ),
        preset_view(
            "columns"@,
            UtilityHandlerView::Decls(seq![value_view("columns"@)]),
            Seq::<Seq<char>>::empty(),
            data(CssDataType::Any),
            plain_spec(),
            None,
        ),
        preset_view(
            "auto-cols"@,
            UtilityHandlerView::Decls(seq![value_view("grid-auto-columns"@)]),
            seq!["gridAutoColumns"@],
            prop(CssProperty::GridAutoColumns),
            plain_spec(),
            None,
        ),
        preset_view(
            "auto-rows"@,
            UtilityHandlerView::Decls(seq![value_view("grid-auto-rows"@)]),
            seq!["gridAutoRows"@],
            prop(CssProperty::GridAutoRows),
            plain_spec(),
            None,
        ),
        preset_view(
            "gap"@,
            UtilityHandlerView::Decls(seq![value_view("gap"@)]),
            seq!["gap"@, "spacing"@],
            prop(CssProperty::Gap),
            plain_spec(),
            None,
        ),
        preset_view(
            "gap-x"@,
            UtilityHandlerView::Decls(seq![value_view("column-gap"@)]),
            seq!["gap"@, "spacing"@],
            prop(CssProperty::Gap),
            plain_spec(),
            None,
        ),
        preset_view(
            "gap-y"@,
            UtilityHandlerView::Decls(seq![value_view("row-gap"@)]),
            seq!["gap"@, "spacing"@],
            prop(CssProperty::Gap),
            plain_spec(),
            None,
        ),
        preset_view(
            "accent"@,
            UtilityHandlerView::Decls(seq![color_view("accent-color"@)]),
            seq!["accentColor"@, "colors"@],
            prop(CssProperty::AccentColor),
            plain_spec(),
            None,
        ),
        preset_view(
            "caret"@,
            UtilityHandlerView::Decls(seq![color_view("caret-color"@)]),
            seq!["caretColor"@, "colors"@],
            prop(CssProperty::AccentColor),
            plain_spec(),
            None,
        ),
    ]
}

/// Cursors, lists, columns, grids and gaps.
pub fn layout_presets() -> (v: Vec<UtilityBuilder>)
    ensures
        builders_view(v@) == layout_presets_spec(),
        all_handled(builders_view(v@)),
{
    let mut v: Vec<UtilityBuilder> = Vec::new();
    v.push(
        preset(
            "cursor",
            h1(DeclTemplate::value("cursor")),
            t0(),
            by_prop(CssProperty::Cursor),
            plain(),
            None,
        ),
    );
    v.push(
        preset(
            "list",
            h1(DeclTemplate::value("list-style-type")),
            t0(),
            by_prop(CssProperty::ListStyleType),
            plain(),
            None,
        ),
    );
    v.push(
        preset(
            "list-image",
            h1(DeclTemplate::value("list-style-image")),
            t0(),
            by_prop(CssProperty::ListStyleImage),
            plain(),
            None,
        ),
    );
    v.push(
        preset(
            "columns",
            h1(DeclTemplate::value("columns")),
            t0(),
            by_data(CssDataType::Any),
            plain(),
            None,
        ),
    );
    v.push(
        preset(
            "auto-cols",
            h1(DeclTemplate::value("grid-auto-columns")),
            t1("gridAutoColumns"),
            by_prop(CssProperty::GridAutoColumns),
            plain(),
            None,
        ),
    );
    v.push(
        preset(
            "auto-rows",
            h1(DeclTemplate::value("grid-auto-rows")),
            t1("gridAutoRows"),
            by_prop(CssProperty::GridAutoRows),
            plain(),
            None,
        ),
    );
    v.push(
        preset(
            "gap",
            h1(DeclTemplate::value("gap")),
            t2("gap", "spacing"),
            by_prop(CssProperty::Gap),
            plain(),
            None,
        ),
    );
    v.push(
        preset(
            "gap-x",
            h1(DeclTemplate::value("column-gap")),
            t2("gap", "spacing"),
            by_prop(CssProperty::Gap),
            plain(),
            None,
        ),
    );
    v.push(
        preset(
            "gap-y",
            h1(DeclTemplate::value("row-gap")),
            t2("gap", "spacing"),
            by_prop(CssProperty::Gap),
            plain(),
            None,
        ),
    );
    v.push(
        preset(
            "accent",
            h1(DeclTemplate::color("accent-color")),
            t2("accentColor", "colors"),
            by_prop(CssProperty::AccentColor),
            plain(),
            None,
        ),
    );
    v.push(
        preset(
            "caret",
            h1(DeclTemplate::color("caret-color")),
            t2("caretColor", "colors"),
            by_prop(CssProperty::AccentColor),
            plain(),
            None,
        ),
    );
    proof {
        reveal(layout_presets_spec);
        assert(builders_view(v@)[0] == layout_presets_spec()[0]);
        assert(builders_view(v@)[1] == layout_presets_spec()[1]);
        assert(builders_view(v@)[2] == layout_presets_spec()[2]);
        assert(builders_view(v@)[3] == layout_presets_spec()[3]);
        assert(builders_view(v@)[4] == layout_presets_spec()[4]);
        assert(builders_view(v@)[5] == layout_presets_spec()[5]);
        assert(builders_view(v@)[6] == layout_presets_spec()[6]);
        assert(builders_view(v@)[7] == layout_presets_spec()[7]);
        assert(builders_view(v@)[8] == layout_presets_spec()[8]);
        assert(builders_view(v@)[9] == layout_presets_spec()[9]);
        assert(builders_view(v@)[10] == layout_presets_spec()[10]);
        assert(builders_view(v@) =~= layout_presets_spec());
    }
    v
}

/// The width of borders.
#[verifier::opaque]
pub open spec fn border_width_presets_spec() -> Seq<UtilityBuilderView> {
    seq![
        preset_view(
            "border"@,
            UtilityHandlerView::Decls(
                seq![
                    fixed_view("border-style"@, "var(--tw-border-style)"@),
                    value_view("border-width"@),
                ],
            ),
            seq!["borderWidth"@],
            prop(CssProperty::BorderWidth),
            plain_spec().ordered(OrderingKey::BorderWidth),
            shared(border_style_spec()),
        ),
        preset_view(
            "border-x"@,
            UtilityHandlerView::Decls(
                seq![
                    fixed_view("border-left-style"@, "var(--tw-border-style)"@),
                    fixed_view("border-right-style"@, "var(--tw-border-style)"@),
                    value_view("border-left-width"@),
                    value_view("border-right-width"@),
                ],
            ),
            seq!["borderWidth"@],
            prop(CssProperty::BorderWidth),
            plain_spec().ordered(OrderingKey::BorderWidthAxis),
            shared(border_style_spec()),
        ),
        preset_view(
            "border-y"@,
            UtilityHandlerView::Decls(
                seq![
                    fixed_view("border-top-style"@, "var(--tw-border-style)"@),
                    fixed_view("border-bottom-style"@, "var(--tw-border-style)"@),
                    value_view("border-top-width"@),
                    value_view("border-bottom-width"@),
                ],
            ),
            seq!["borderWidth"@],
            prop(CssProperty::BorderWidth),
            plain_spec().ordered(OrderingKey::BorderWidthAxis),
            shared(border_style_spec()),
        ),
        preset_view(
            "border-s"@,
            UtilityHandlerView::Decls(
                seq![
                    fixed_view("border-inline-start-style"@, "var(--tw-border-style)"@),
                    fixed_view("border-inline-end-style"@, "var(--tw-border-style)"@),
                    value_view("border-inline-start-width"@),
                    value_view("border-inline-end-width"@),
                ],
            ),
            seq!["borderWidth"@],
            prop(CssProperty::BorderWidth),
            plain_spec().ordered(OrderingKey::BorderWidthSide),
            shared(border_style_spec()),
        ),
        preset_view(
            "border-e"@,
            UtilityHandlerView::Decls(
                seq![
                    fixed_view("border-inline-start-style"@, "var(--tw-border-style)"@),
                    fixed_view("border-inline-end-style"@, "var(--tw-border-style)"@),
                    value_view("border-inline-start-width"@),
                    value_view("border-inline-end-width"@),
                ],
            ),
            seq!["borderWidth"@],
            prop(CssProperty::BorderWidth),
            plain_spec().ordered(OrderingKey::BorderWidthSide),
            shared(border_style_spec()),
        ),
        preset_view(
            "border-t"@,
            UtilityHandlerView::Decls(
                seq![
                    fixed_view("border-top-style"@, "var(--tw-border-style)"@),
                    fixed_view("border-bottom-style"@, "var(--tw-border-style)"@),
                    value_view("border-top-width"@),
                    value_view("border-bottom-width"@),
                ],
            ),
            seq!["borderWidth"@],
            prop(CssProperty::BorderWidth),
            plain_spec().ordered(OrderingKey::BorderWidthSide),
            shared(border_style_spec()),
        ),
        preset_view(
            "border-r"@,
            UtilityHandlerView::Decls(
                seq![
                    fixed_view("border-right-style"@, "var(--tw-border-style)"@),
                    fixed_view("border-left-style"@, "var(--tw-border-style)"@),
                    value_view("border-right-width"@),
                    value_view("border-left-width"@),
                ],
            ),
            seq!["borderWidth"@],
            prop(CssProperty::BorderWidth),
            plain_spec().ordered(OrderingKey::BorderWidthSide),
            shared(border_style_spec()),
        ),
        preset_view(
            "border-b"@,
            UtilityHandlerView::Decls(
                seq![
                    fixed_view("border-top-style"@, "var(--tw-border-style)"@),
                    fixed_view("border-bottom-style"@, "var(--tw-border-style)"@),
                    value_view("border-top-width"@),
                    value_view("border-bottom-width"@),
                ],
            ),
            seq!["borderWidth"@],
            prop(CssProperty::BorderWidth),
            plain_spec().ordered(OrderingKey::BorderWidthSide),
            shared(border_style_spec()),
        ),
        preset_view(
            "border-l"@,
            UtilityHandlerView::Decls(
                seq![
                    fixed_view("border-right-style"@, "var(--tw-border-style)"@),
                    fixed_view("border-left-style"@, "var(--tw-border-style)"@),
                    value_view("border-right-width"@),
                    value_view("border-left-width"@),
                ],
            ),
            seq!["borderWidth"@],
            prop(CssProperty::BorderWidth),
            plain_spec().ordered(OrderingKey::BorderWidthSide),
            shared(border_style_spec()),
        ),
    ]
}

/// The width of borders.
pub fn border_width_presets() -> (v: Vec<UtilityBuilder>)
    ensures
        builders_view(v@) == border_width_presets_spec(),
        all_handled(builders_view(v@)),
{
    let mut v: Vec<UtilityBuilder> = Vec::new();
    v.push(
        preset(
            "border",
            h2(
                DeclTemplate::fixed("border-style", "var(--tw-border-style)"),
                DeclTemplate::value("border-width"),
            ),
            t1("borderWidth"),
            by_prop(CssProperty::BorderWidth),
            plain().ordered(OrderingKey::BorderWidth),
            with_rules(border_style()),
        ),
    );
    v.push(
        preset(
            "border-x",
            h4(
                DeclTemplate::fixed("border-left-style", "var(--tw-border-style)"),
                DeclTemplate::fixed("border-right-style", "var(--tw-border-style)"),
                DeclTemplate::value("border-left-width"),
                DeclTemplate::value("border-right-width"),
            ),
            t1("borderWidth"),
            by_prop(CssProperty::BorderWidth),
            plain().ordered(OrderingKey::BorderWidthAxis),
            with_rules(border_style()),
        ),
    );
    v.push(
        preset(
            "border-y",
            h4(
                DeclTemplate::fixed("border-top-style", "var(--tw-border-style)"),
                DeclTemplate::fixed("border-bottom-style", "var(--tw-border-style)"),
                DeclTemplate::value("border-top-width"),
                DeclTemplate::value("border-bottom-width"),
            ),
            t1("borderWidth"),
            by_prop(CssProperty::BorderWidth),
            plain().ordered(OrderingKey::BorderWidthAxis),
            with_rules(border_style()),
        ),
    );
    v.push(
        preset(
            "border-s",
            h4(
                DeclTemplate::fixed("border-inline-start-style", "var(--tw-border-style)"),
                DeclTemplate::fixed("border-inline-end-style", "var(--tw-border-style)"),
                DeclTemplate::value("border-inline-start-width"),
                DeclTemplate::value("border-inline-end-width"),
            ),
            t1("borderWidth"),
            by_prop(CssProperty::BorderWidth),
            plain().ordered(OrderingKey::BorderWidthSide),
            with_rules(border_style()),
        ),
    );
    v.push(
        preset(
            "border-e",
            h4(
                DeclTemplate::fixed("border-inline-start-style", "var(--tw-border-style)"),
                DeclTemplate::fixed("border-inline-end-style", "var(--tw-border-style)"),
                DeclTemplate::value("border-inline-start-width"),
                DeclTemplate::value("border-inline-end-width"),
            ),
            t1("borderWidth"),
            by_prop(CssProperty::BorderWidth),
            plain().ordered(OrderingKey::BorderWidthSide),
            with_rules(border_style()),
        ),
    );
    v.push(
        preset(
            "border-t",
            h4(
                DeclTemplate::fixed("border-top-style", "var(--tw-border-style)"),
                DeclTemplate::fixed("border-bottom-style", "var(--tw-border-style)"),
                DeclTemplate::value("border-top-width"),
                DeclTemplate::value("border-bottom-width"),
            ),
            t1("borderWidth"),
            by_prop(CssProperty::BorderWidth),
            plain().ordered(OrderingKey::BorderWidthSide),
            with_rules(border_style()),
        ),
    );
    v.push(
        preset(
            "border-r",
            h4(
                DeclTemplate::fixed("border-right-style", "var(--tw-border-style)"),
                DeclTemplate::fixed("border-left-style", "var(--tw-border-style)"),
                DeclTemplate::value("border-right-width"),
                DeclTemplate::value("border-left-width"),
            ),
            t1("borderWidth"),
            by_prop(CssProperty::BorderWidth),
            plain().ordered(OrderingKey::BorderWidthSide),
            with_rules(border_style()),
        ),
    );
    v.push(
        preset(
            "border-b",
            h4(
                DeclTemplate::fixed("border-top-style", "var(--tw-border-style)"),
                DeclTemplate::fixed("border-bottom-style", "var(--tw-border-style)"),
                DeclTemplate::value("border-top-width"),
                DeclTemplate::value("border-bottom-width"),
            ),
            t1("borderWidth"),
            by_prop(CssProperty::BorderWidth),
            plain().ordered(OrderingKey::BorderWidthSide),
            with_rules(border_style()),
        ),
    );
    v.push(
        preset(
            "border-l",
            h4(
                DeclTemplate::fixed("border-right-style", "var(--tw-border-style)"),
                DeclTemplate::fixed("border-left-style", "var(--tw-border-style)"),
                DeclTemplate::value("border-right-width"),
                DeclTemplate::value("border-left-width"),
            ),
            t1("borderWidth"),
            by_prop(CssProperty::BorderWidth),
            plain().ordered(OrderingKey::BorderWidthSide),
            with_rules(border_style()),
        ),
    );
    proof {
        reveal(border_width_presets_spec);
        assert(builders_view(v@)[0] == border_width_presets_spec()[0]);
        assert(builders_view(v@)[1] == border_width_presets_spec()[1]);
        assert(builders_view(v@)[2] == border_width_presets_spec()[2]);
        assert(builders_view(v@)[3] == border_width_presets_spec()[3]);
        assert(builders_view(v@)[4] == border_width_presets_spec()[4]);
        assert(builders_view(v@)[5] == border_width_presets_spec()[5]);
        assert(builders_view(v@)[6] == border_width_presets_spec()[6]);
        assert(builders_view(v@)[7] == border_width_presets_spec()[7]);
        assert(builders_view(v@)[8] == border_width_presets_spec()[8]);
        assert(builders_view(v@) =~= border_width_presets_spec());
    }
    v
}

/// Outlines and rings.
#[verifier::opaque]
pub open spec fn outline_presets_spec() -> Seq<UtilityBuilderView> {
    seq![
        preset_view(
            "outline"@,
            UtilityHandlerView::Decls(
                seq![
                    fixed_view("outline-style"@, "var(--tw-outline-style)"@),
                    value_view("outline-width"@),
                ],
            ),
            seq!["outlineWidth"@],
            prop(CssProperty::OutlineWidth),
            plain_spec(),
            None,
        ),
        preset_view(
            "outline"@,
            UtilityHandlerView::Decls(seq![value_view("outline-color"@)]),
            seq!["outlineColor"@, "colors"@],
            prop(CssProperty::OutlineWidth),
            plain_spec(),
            None,
        ),
        preset_view(
            "ring"@,
            UtilityHandlerView::Decls(seq![color_view("--tw-ring-color"@)]),
            seq!["ringColor"@, "colors"@],
            prop(CssProperty::BoxShadow),
            plain_spec().alpha(),
            shared(box_shadow_properties_spec()),
        ),
        preset_view(
            "ring"@,
            UtilityHandlerView::Decls(
                seq![
                    wrapped_view("--tw-ring-shadow"@, "var(--tw-ring-inset,) 0 0 0 calc($"@, " + var(--tw-ring-offset-width)) var(--tw-ring-color, currentColor)"@),
                ],
            ),
            seq!["ringColor"@, "colors"@],
            data(CssDataType::Length),
            plain_spec(),
            shared(box_shadow_properties_spec()),
        ),
        preset_view(
            "ring-offset"@,
            UtilityHandlerView::Decls(
                seq![
                    value_view("--tw-ring-offset-width"@),
                    fixed_view("--tw-ring-offset-shadow"@, "var(--tw-ring-inset,) 0 0 0 var(--tw-ring-offset-width) var(--tw-ring-offset-color)"@),
                ],
            ),
            seq!["ringOffsetWidth"@],
            data(CssDataType::Length),
            plain_spec(),
            None,
        ),
        preset_view(
            "ring-offset"@,
            UtilityHandlerView::Decls(seq![value_view("--tw-ring-offset-color"@)]),
            seq!["ringOffsetColor"@, "ringColor"@, "colors"@],
            prop(CssProperty::Color),
            plain_spec().alpha(),
            None,
        ),
    ]
}

/// Outlines and rings.
pub fn outline_presets() -> (v: Vec<UtilityBuilder>)
    ensures
        builders_view(v@) == outline_presets_spec(),
        all_handled(builders_view(v@)),
{
    let mut v: Vec<UtilityBuilder> = Vec::new();
    v.push(
        preset(
            "outline",
            h2(
                DeclTemplate::fixed("outline-style", "var(--tw-outline-style)"),
                DeclTemplate::value("outline-width"),
            ),
            t1("outlineWidth"),
            by_prop(CssProperty::OutlineWidth),
            plain(),
            None,
        ),
    );
    v.push(
        preset(
            "outline",
            h1(DeclTemplate::value("outline-color")),
            t2("outlineColor", "colors"),
            by_prop(CssProperty::OutlineWidth),
            plain(),
            None,
        ),
    );
    v.push(
        preset(
            "ring",
            h1(DeclTemplate::color("--tw-ring-color")),
            t2("ringColor", "colors"),
            by_prop(CssProperty::BoxShadow),
            plain().alpha(),
            with_rules(box_shadow_properties()),
        ),
    );
    v.push(
        preset(
            "ring",
            h1(
                DeclTemplate::wrapped("--tw-ring-shadow", "var(--tw-ring-inset,) 0 0 0 calc($", " + var(--tw-ring-offset-width)) var(--tw-ring-color, currentColor)"),
            ),
            t2("ringColor", "colors"),
            by_data(CssDataType::Length),
            plain(),
            with_rules(box_shadow_properties()),
        ),
    );
    v.push(
        preset(
            "ring-offset",
            h2(
                DeclTemplate::value("--tw-ring-offset-width"),
                DeclTemplate::fixed("--tw-ring-offset-shadow", "var(--tw-ring-inset,) 0 0 0 var(--tw-ring-offset-width) var(--tw-ring-offset-color)"),
            ),
            t1("ringOffsetWidth"),
            by_data(CssDataType::Length),
            plain(),
            None,
        ),
    );
    v.push(
        preset(
            "ring-offset",
            h1(DeclTemplate::value("--tw-ring-offset-color")),
            t3("ringOffsetColor", "ringColor", "colors"),
            by_prop(CssProperty::Color),
            plain().alpha(),
            None,
        ),
    );
    proof {
        reveal(outline_presets_spec);
        assert(builders_view(v@)[0] == outline_presets_spec()[0]);
        assert(builders_view(v@)[1] == outline_presets_spec()[1]);
        assert(builders_view(v@)[2] == outline_presets_spec()[2]);
        assert(builders_view(v@)[3] == outline_presets_spec()[3]);
        assert(builders_view(v@)[4] == outline_presets_spec()[4]);
        assert(builders_view(v@)[5] == outline_presets_spec()[5]);
        assert(builders_view(v@) =~= outline_presets_spec());
    }
    v
}

/// Margins.
#[verifier::opaque]
pub open spec fn margin_presets_spec() -> Seq<UtilityBuilderView> {
    seq![
        preset_view(
            "m"@,
            UtilityHandlerView::Decls(seq![value_view("margin"@)]),
            seq!["margin"@, "spacing"@],
            prop(CssProperty::Margin),
            plain_spec().neg().frac().ordered(OrderingKey::Margin),
            None,
        ),
        preset_view(
            "mx"@,
            UtilityHandlerView::Decls(
                seq![
                    value_view("margin-left"@),
                    value_view("margin-right"@),
                ],
            ),
            seq!["margin"@, "spacing"@],
            prop(CssProperty::MarginLeft),
            plain_spec().neg().ordered(OrderingKey::MarginAxis),
            None,
        ),
        preset_view(
            "my"@,
            UtilityHandlerView::Decls(
                seq![
                    value_view("margin-top"@),
                    value_view("margin-bottom"@),
                ],
            ),
            seq!["margin"@, "spacing"@],
            prop(CssProperty::MarginTop),
            plain_spec().neg().ordered(OrderingKey::MarginAxis),
            None,
        ),
        preset_view(
            "mt"@,
            UtilityHandlerView::Decls(seq![value_view("margin-top"@)]),
            seq!["margin"@, "spacing"@],
            prop(CssProperty::MarginTop),
            plain_spec().neg().ordered(OrderingKey::MarginSide),
            None,
        ),
        preset_view(
            "mr"@,
            UtilityHandlerView::Decls(seq![value_view("margin-right"@)]),
            seq!["margin"@, "spacing"@],
            prop(CssProperty::MarginRight),
            plain_spec().neg().ordered(OrderingKey::MarginSide),
            None,
        ),
        preset_view(
            "mb"@,
            UtilityHandlerView::Decls(seq![value_view("margin-bottom"@)]),
            seq!["margin"@, "spacing"@],
            prop(CssProperty::MarginBottom),
            plain_spec().neg().ordered(OrderingKey::MarginSide),
            None,
        ),
        preset_view(
            "ml"@,
            UtilityHandlerView::Decls(seq![value_view("margin-left"@)]),
            seq!["margin"@, "spacing"@],
            prop(CssProperty::MarginRight),
            plain_spec().neg().ordered(OrderingKey::MarginSide),
            None,
        ),
        preset_view(
            "ms"@,
            UtilityHandlerView::Decls(seq![value_view("margin-inline-start"@)]),
            seq!["margin"@, "spacing"@],
            prop(CssProperty::MarginRight),
            plain_spec().neg().ordered(OrderingKey::MarginSide),
            None,
        ),
        preset_view(
            "me"@,
            UtilityHandlerView::Decls(seq![value_view("margin-inline-end"@)]),
            seq!["margin"@, "spacing"@],
            prop(CssProperty::MarginRight),
            plain_spec().neg().ordered(OrderingKey::MarginSide),
            None,
        ),
    ]
}

/// Margins.
pub fn margin_presets() -> (v: Vec<UtilityBuilder>)
    ensures
        builders_view(v@) == margin_presets_spec(),
        all_handled(builders_view(v@)),
{
    let mut v: Vec<UtilityBuilder> = Vec::new();
    v.push(
        preset(
            "m",
            h1(DeclTemplate::value("margin")),
            t2("margin", "spacing"),
            by_prop(CssProperty::Margin),
            plain().neg().frac().ordered(OrderingKey::Margin),
            None,
        ),
    );
    v.push(
        preset(
            "mx",
            h2(DeclTemplate::value("margin-left"), DeclTemplate::value("margin-right")),
            t2("margin", "spacing"),
            by_prop(CssProperty::MarginLeft),
            plain().neg().ordered(OrderingKey::MarginAxis),
            None,
        ),
    );
    v.push(
        preset(
            "my",
            h2(DeclTemplate::value("margin-top"), DeclTemplate::value("margin-bottom")),
            t2("margin", "spacing"),
            by_prop(CssProperty::MarginTop),
            plain().neg().ordered(OrderingKey::MarginAxis),
            None,
        ),
    );
    v.push(
        preset(
            "mt",
            h1(DeclTemplate::value("margin-top")),
            t2("margin", "spacing"),
            by_prop(CssProperty::MarginTop),
            plain().neg().ordered(OrderingKey::MarginSide),
            None,
        ),
    );
    v.push(
        preset(
            "mr",
            h1(DeclTemplate::value("margin-right")),
            t2("margin", "spacing"),
            by_prop(CssProperty::MarginRight),
            plain().neg().ordered(OrderingKey::MarginSide),
            None,
        ),
    );
    v.push(
        preset(
            "mb",
            h1(DeclTemplate::value("margin-bottom")),
            t2("margin", "spacing"),
            by_prop(CssProperty::MarginBottom),
            plain().neg().ordered(OrderingKey::MarginSide),
            None,
        ),
    );
    v.push(
        preset(
            "ml",
            h1(DeclTemplate::value("margin-left")),
            t2("margin", "spacing"),
            by_prop(CssProperty::MarginRight),
            plain().neg().ordered(OrderingKey::MarginSide),
            None,
        ),
    );
    v.push(
        preset(
            "ms",
            h1(DeclTemplate::value("margin-inline-start")),
            t2("margin", "spacing"),
            by_prop(CssProperty::MarginRight),
            plain().neg().ordered(OrderingKey::MarginSide),
            None,
        ),
    );
    v.push(
        preset(
            "me",
            h1(DeclTemplate::value("margin-inline-end")),
            t2("margin", "spacing"),
            by_prop(CssProperty::MarginRight),
            plain().neg().ordered(OrderingKey::MarginSide),
            None,
        ),
    );
    proof {
        reveal(margin_presets_spec);
        assert(builders_view(v@)[0] == margin_presets_spec()[0]);
        assert(builders_view(v@)[1] == margin_presets_spec()[1]);
        assert(builders_view(v@)[2] == margin_presets_spec()[2]);
        assert(builders_view(v@)[3] == margin_presets_spec()[3]);
        assert(builders_view(v@)[4] == margin_presets_spec()[4]);
        assert(builders_view(v@)[5] == margin_presets_spec()[5]);
        assert(builders_view(v@)[6] == margin_presets_spec()[6]);
        assert(builders_view(v@)[7] == margin_presets_spec()[7]);
        assert(builders_view(v@)[8] == margin_presets_spec()[8]);
        assert(builders_view(v@) =~= margin_presets_spec());
    }
    v
}

/// Paddings.
#[verifier::opaque]
pub open spec fn padding_presets_spec() -> Seq<UtilityBuilderView> {
    seq![
        preset_view(
            "p"@,
            UtilityHandlerView::Decls(seq![value_view("padding"@)]),
            seq!["padding"@, "spacing"@],
            prop(CssProperty::Padding),
            plain_spec().ordered(OrderingKey::Padding),
            None,
        ),
        preset_view(
            "px"@,
            UtilityHandlerView::Decls(
                seq![
                    value_view("padding-left"@),
                    value_view("padding-right"@),
                ],
            ),
            seq!["padding"@, "spacing"@],
            prop(CssProperty::PaddingTop),
            plain_spec().ordered(OrderingKey::PaddingAxis),
            None,
        ),
        preset_view(
            "py"@,
            UtilityHandlerView::Decls(
                seq![
                    value_view("padding-top"@),
                    value_view("padding-bottom"@),
                ],
            ),
            seq!["padding"@, "spacing"@],
            prop(CssProperty::PaddingTop),
            plain_spec().ordered(OrderingKey::PaddingAxis),
            None,
        ),
        preset_view(
            "pt"@,
            UtilityHandlerView::Decls(seq![value_view("padding-top"@)]),
            seq!["padding"@, "spacing"@],
            prop(CssProperty::PaddingTop),
            plain_spec().ordered(OrderingKey::PaddingSide),
            None,
        ),
        preset_view(
            "pr"@,
            UtilityHandlerView::Decls(seq![value_view("padding-right"@)]),
            seq!["padding"@, "spacing"@],
            prop(CssProperty::PaddingTop),
            plain_spec().ordered(OrderingKey::PaddingSide),
            None,
        ),
        preset_view(
            "pb"@,
            UtilityHandlerView::Decls(seq![value_view("padding-bottom"@)]),
            seq!["padding"@, "spacing"@],
            prop(CssProperty::PaddingTop),
            plain_spec().ordered(OrderingKey::PaddingSide),
            None,
        ),
        preset_view(
            "pl"@,
            UtilityHandlerView::Decls(seq![value_view("padding-left"@)]),
            seq!["padding"@, "spacing"@],
            prop(CssProperty::PaddingTop),
            plain_spec().ordered(OrderingKey::PaddingSide),
            None,
        ),
        preset_view(
            "ps"@,
            UtilityHandlerView::Decls(seq![value_view("padding-inline-start"@)]),
            seq!["padding"@, "spacing"@],
            prop(CssProperty::PaddingTop),
            plain_spec().ordered(OrderingKey::PaddingSide),
            None,
        ),
        preset_view(
            "pe"@,
            UtilityHandlerView::Decls(seq![value_view("padding-inline-end"@)]),
            seq!["padding"@, "spacing"@],
            prop(CssProperty::PaddingTop),
            plain_spec().ordered(OrderingKey::PaddingSide),
            None,
        ),
    ]
}

/// Paddings.
pub fn padding_presets() -> (v: Vec<UtilityBuilder>)
    ensures
        builders_view(v@) == padding_presets_spec(),
        all_handled(builders_view(v@)),
{
    let mut v: Vec<UtilityBuilder> = Vec::new();
    v.push(
        preset(
            "p",
            h1(DeclTemplate::value("padding")),
            t2("padding", "spacing"),
            by_prop(CssProperty::Padding),
            plain().ordered(OrderingKey::Padding),
            None,
        ),
    );
    v.push(
        preset(
            "px",
            h2(DeclTemplate::value("padding-left"), DeclTemplate::value("padding-right")),
            t2("padding", "spacing"),
            by_prop(CssProperty::PaddingTop),
            plain().ordered(OrderingKey::PaddingAxis),
            None,
        ),
    );
    v.push(
        preset(
            "py",
            h2(DeclTemplate::value("padding-top"), DeclTemplate::value("padding-bottom")),
            t2("padding", "spacing"),
            by_prop(CssProperty::PaddingTop),
            plain().ordered(OrderingKey::PaddingAxis),
            None,
        ),
    );
    v.push(
        preset(
            "pt",
            h1(DeclTemplate::value("padding-top")),
            t2("padding", "spacing"),
            by_prop(CssProperty::PaddingTop),
            plain().ordered(OrderingKey::PaddingSide),
            None,
        ),
    );
    v.push(
        preset(
            "pr",
            h1(DeclTemplate::value("padding-right")),
            t2("padding", "spacing"),
            by_prop(CssProperty::PaddingTop),
            plain().ordered(OrderingKey::PaddingSide),
            None,
        ),
    );
    v.push(
        preset(
            "pb",
            h1(DeclTemplate::value("padding-bottom")),
            t2("padding", "spacing"),
            by_prop(CssProperty::PaddingTop),
            plain().ordered(OrderingKey::PaddingSide),
            None,
        ),
    );
    v.push(
        preset(
            "pl",
            h1(DeclTemplate::value("padding-left")),
            t2("padding", "spacing"),
            by_prop(CssProperty::PaddingTop),
            plain().ordered(OrderingKey::PaddingSide),
            None,
        ),
    );
    v.push(
        preset(
            "ps",
            h1(DeclTemplate::value("padding-inline-start")),
            t2("padding", "spacing"),
            by_prop(CssProperty::PaddingTop),
            plain().ordered(OrderingKey::PaddingSide),
            None,
        ),
    );
    v.push(
        preset(
            "pe",
            h1(DeclTemplate::value("padding-inline-end")),
            t2("padding", "spacing"),
            by_prop(CssProperty::PaddingTop),
            plain().ordered(OrderingKey::PaddingSide),
            None,
        ),
    );
    proof {
        reveal(padding_presets_spec);
        assert(builders_view(v@)[0] == padding_presets_spec()[0]);
        assert(builders_view(v@)[1] == padding_presets_spec()[1]);
        assert(builders_view(v@)[2] == padding_presets_spec()[2]);
        assert(builders_view(v@)[3] == padding_presets_spec()[3]);
        assert(builders_view(v@)[4] == padding_presets_spec()[4]);
        assert(builders_view(v@)[5] == padding_presets_spec()[5]);
        assert(builders_view(v@)[6] == padding_presets_spec()[6]);
        assert(builders_view(v@)[7] == padding_presets_spec()[7]);
        assert(builders_view(v@)[8] == padding_presets_spec()[8]);
        assert(builders_view(v@) =~= padding_presets_spec());
    }
    v
}

/// Insets.
#[verifier::opaque]
pub open spec fn inset_presets_spec() -> Seq<UtilityBuilderView> {
    seq![
        preset_view(
            "inset"@,
            UtilityHandlerView::Decls(
                seq![
                    value_view("top"@),
                    value_view("right"@),
                    value_view("bottom"@),
                    value_view("left"@),
                ],
            ),
            seq!["inset"@, "spacing"@],
            prop(CssProperty::Inset),
            plain_spec().neg().frac().ordered(OrderingKey::Inset),
            None,
        ),
        preset_view(
            "inset-x"@,
            UtilityHandlerView::Decls(seq![value_view("left"@), value_view("right"@)]),
            seq!["inset"@, "spacing"@],
            prop(CssProperty::Left),
            plain_spec().neg().frac().ordered(OrderingKey::InsetAxis),
            None,
        ),
        preset_view(
            "inset-y"@,
            UtilityHandlerView::Decls(seq![value_view("top"@), value_view("bottom"@)]),
            seq!["inset"@, "spacing"@],
            prop(CssProperty::Top),
            plain_spec().neg().frac().ordered(OrderingKey::InsetAxis),
            None,
        ),
        preset_view(
            "top"@,
            UtilityHandlerView::Decls(seq![value_view("top"@)]),
            seq!["inset"@, "spacing"@],
            prop(CssProperty::Top),
            plain_spec().neg().frac().ordered(OrderingKey::InsetSide),
            None,
        ),
        preset_view(
            "right"@,
            UtilityHandlerView::Decls(seq![value_view("right"@)]),
            seq!["inset"@, "spacing"@],
            prop(CssProperty::Top),
            plain_spec().neg().frac().ordered(OrderingKey::InsetSide),
            None,
        ),
        preset_view(
            "bottom"@,
            UtilityHandlerView::Decls(seq![value_view("bottom"@)]),
            seq!["inset"@, "spacing"@],
            prop(CssProperty::Top),
            plain_spec().neg().frac().ordered(OrderingKey::InsetSide),
            None,
        ),
        preset_view(
            "left"@,
            UtilityHandlerView::Decls(seq![value_view("left"@)]),
            seq!["inset"@, "spacing"@],
            prop(CssProperty::Top),
            plain_spec().neg().frac().ordered(OrderingKey::InsetSide),
            None,
        ),
    ]
}

/// Insets.
pub fn inset_presets() -> (v: Vec<UtilityBuilder>)
    ensures
        builders_view(v@) == inset_presets_spec(),
        all_handled(builders_view(v@)),
{
    let mut v: Vec<UtilityBuilder> = Vec::new();
    v.push(
        preset(
            "inset",
            h4(
                DeclTemplate::value("top"),
                DeclTemplate::value("right"),
                DeclTemplate::value("bottom"),
                DeclTemplate::value("left"),
            ),
            t2("inset", "spacing"),
            by_prop(CssProperty::Inset),
            plain().neg().frac().ordered(OrderingKey::Inset),
            None,
        ),
    );
    v.push(
        preset(
            "inset-x",
            h2(DeclTemplate::value("left"), DeclTemplate::value("right")),
            t2("inset", "spacing"),
            by_prop(CssProperty::Left),
            plain().neg().frac().ordered(OrderingKey::InsetAxis),
            None,
        ),
    );
    v.push(
        preset(
            "inset-y",
            h2(DeclTemplate::value("top"), DeclTemplate::value("bottom")),
            t2("inset", "spacing"),
            by_prop(CssProperty::Top),
            plain().neg().frac().ordered(OrderingKey::InsetAxis),
            None,
        ),
    );
    v.push(
        preset(
            "top",
            h1(DeclTemplate::value("top")),
            t2("inset", "spacing"),
            by_prop(CssProperty::Top),
            plain().neg().frac().ordered(OrderingKey::InsetSide),
            None,
        ),
    );
    v.push(
        preset(
            "right",
            h1(DeclTemplate::value("right")),
            t2("inset", "spacing"),
            by_prop(CssProperty::Top),
            plain().neg().frac().ordered(OrderingKey::InsetSide),
            None,
        ),
    );
    v.push(
        preset(
            "bottom",
            h1(DeclTemplate::value("bottom")),
            t2("inset", "spacing"),
            by_prop(CssProperty::Top),
            plain().neg().frac().ordered(OrderingKey::InsetSide),
            None,
        ),
    );
    v.push(
        preset(
            "left",
            h1(DeclTemplate::value("left")),
            t2("inset", "spacing"),
            by_prop(CssProperty::Top),
            plain().neg().frac().ordered(OrderingKey::InsetSide),
            None,
        ),
    );
    proof {
        reveal(inset_presets_spec);
        assert(builders_view(v@)[0] == inset_presets_spec()[0]);
        assert(builders_view(v@)[1] == inset_presets_spec()[1]);
        assert(builders_view(v@)[2] == inset_presets_spec()[2]);
        assert(builders_view(v@)[3] == inset_presets_spec()[3]);
        assert(builders_view(v@)[4] == inset_presets_spec()[4]);
        assert(builders_view(v@)[5] == inset_presets_spec()[5]);
        assert(builders_view(v@)[6] == inset_presets_spec()[6]);
        assert(builders_view(v@) =~= inset_presets_spec());
    }
    v
}

/// Widths and heights.
#[verifier::opaque]
pub open spec fn size_presets_spec() -> Seq<UtilityBuilderView> {
    seq![
        preset_view(
            "w"@,
            UtilityHandlerView::Decls(seq![value_view("width"@)]),
            seq!["width"@, "spacing"@],
            prop(CssProperty::Width),
            plain_spec().frac().ordered(OrderingKey::SizeAxis),
            None,
        ),
        preset_view(
            "max-w"@,
            UtilityHandlerView::Decls(seq![value_view("max-width"@)]),
            seq!["maxWidth"@, "spacing"@],
            prop(CssProperty::MaxWidth),
            plain_spec().frac().ordered(OrderingKey::SizeAxis),
            None,
        ),
        preset_view(
            "min-w"@,
            UtilityHandlerView::Decls(seq![value_view("min-width"@)]),
            seq!["minWidth"@, "spacing"@],
            prop(CssProperty::MinWidth),
            plain_spec().frac().ordered(OrderingKey::SizeAxis),
            None,
        ),
        preset_view(
            "h"@,
            UtilityHandlerView::Decls(seq![value_view("height"@)]),
            seq!["height"@, "spacing"@],
            prop(CssProperty::Width),
            plain_spec().frac().ordered(OrderingKey::SizeAxis),
            None,
        ),
        preset_view(
            "max-h"@,
            UtilityHandlerView::Decls(seq![value_view("max-height"@)]),
            seq!["maxHeight"@, "spacing"@],
            prop(CssProperty::MaxWidth),
            plain_spec().frac().ordered(OrderingKey::SizeAxis),
            None,
        ),
        preset_view(
            "min-h"@,
            UtilityHandlerView::Decls(seq![value_view("min-height"@)]),
            seq!["minHeight"@, "spacing"@],
            prop(CssProperty::MinWidth),
            plain_spec().frac().ordered(OrderingKey::SizeAxis),
            None,
        ),
        preset_view(
            "size"@,
            UtilityHandlerView::Decls(seq![value_view("width"@), value_view("height"@)]),
            seq!["size"@, "spacing"@],
            prop(CssProperty::Width),
            plain_spec().frac().ordered(OrderingKey::Size),
            None,
        ),
    ]
}

/// Widths and heights.
pub fn size_presets() -> (v: Vec<UtilityBuilder>)
    ensures
        builders_view(v@) == size_presets_spec(),
        all_handled(builders_view(v@)),
{
    let mut v: Vec<UtilityBuilder> = Vec::new();
    v.push(
        preset(
            "w",
            h1(DeclTemplate::value("width")),
            t2("width", "spacing"),
            by_prop(CssProperty::Width),
            plain().frac().ordered(OrderingKey::SizeAxis),
            None,
        ),
    );
    v.push(
        preset(
            "max-w",
            h1(DeclTemplate::value("max-width")),
            t2("maxWidth", "spacing"),
            by_prop(CssProperty::MaxWidth),
            plain().frac().ordered(OrderingKey::SizeAxis),
            None,
        ),
    );
    v.push(
        preset(
            "min-w",
            h1(DeclTemplate::value("min-width")),
            t2("minWidth", "spacing"),
            by_prop(CssProperty::MinWidth),
            plain().frac().ordered(OrderingKey::SizeAxis),
            None,
        ),
    );
    v.push(
        preset(
            "h",
            h1(DeclTemplate::value("height")),
            t2("height", "spacing"),
            by_prop(CssProperty::Width),
            plain().frac().ordered(OrderingKey::SizeAxis),
            None,
        ),
    );
    v.push(
        preset(
            "max-h",
            h1(DeclTemplate::value("max-height")),
            t2("maxHeight", "spacing"),
            by_prop(CssProperty::MaxWidth),
            plain().frac().ordered(OrderingKey::SizeAxis),
            None,
        ),
    );
    v.push(
        preset(
            "min-h",
            h1(DeclTemplate::value("min-height")),
            t2("minHeight", "spacing"),
            by_prop(CssProperty::MinWidth),
            plain().frac().ordered(OrderingKey::SizeAxis),
            None,
        ),
    );
    v.push(
        preset(
            "size",
            h2(DeclTemplate::value("width"), DeclTemplate::value("height")),
            t2("size", "spacing"),
            by_prop(CssProperty::Width),
            plain().frac().ordered(OrderingKey::Size),
            None,
        ),
    );
    proof {
        reveal(size_presets_spec);
        assert(builders_view(v@)[0] == size_presets_spec()[0]);
        assert(builders_view(v@)[1] == size_presets_spec()[1]);
        assert(builders_view(v@)[2] == size_presets_spec()[2]);
        assert(builders_view(v@)[3] == size_presets_spec()[3]);
        assert(builders_view(v@)[4] == size_presets_spec()[4]);
        assert(builders_view(v@)[5] == size_presets_spec()[5]);
        assert(builders_view(v@)[6] == size_presets_spec()[6]);
        assert(builders_view(v@) =~= size_presets_spec());
    }
    v
}

/// Rounded sides.
#[verifier::opaque]
pub open spec fn rounded_presets_spec() -> Seq<UtilityBuilderView> {
    seq![
        preset_view(
            "rounded"@,
            UtilityHandlerView::Decls(seq![value_view("border-radius"@)]),
            seq!["borderRadius"@],
            prop(CssProperty::BorderRadius),
            plain_spec().ordered(OrderingKey::Rounded),
            None,
        ),
        preset_view(
            "rounded-s"@,
            UtilityHandlerView::Decls(
                seq![
                    value_view("border-start-start-radius"@),
                    value_view("border-end-start-radius"@),
                ],
            ),
            seq!["borderRadius"@],
            prop(CssProperty::BorderRadius),
            plain_spec().ordered(OrderingKey::RoundedSide),
            None,
        ),
        preset_view(
            "rounded-e"@,
            UtilityHandlerView::Decls(
                seq![
                    value_view("border-start-end-radius"@),
                    value_view("border-end-end-radius"@),
                ],
            ),
            seq!["borderRadius"@],
            prop(CssProperty::BorderRadius),
            plain_spec().ordered(OrderingKey::RoundedSide),
            None,
        ),
        preset_view(
            "rounded-t"@,
            UtilityHandlerView::Decls(
                seq![
                    value_view("border-top-left-radius"@),
                    value_view("border-top-right-radius"@),
                ],
            ),
            seq!["borderRadius"@],
            prop(CssProperty::BorderRadius),
            plain_spec().ordered(OrderingKey::RoundedSide),
            None,
        ),
        preset_view(
            "rounded-r"@,
            UtilityHandlerView::Decls(
                seq![
                    value_view("border-top-right-radius"@),
                    value_view("border-bottom-right-radius"@),
                ],
            ),
            seq!["borderRadius"@],
            prop(CssProperty::BorderRadius),
            plain_spec().ordered(OrderingKey::RoundedSide),
            None,
        ),
        preset_view(
            "rounded-b"@,
            UtilityHandlerView::Decls(
                seq![
                    value_view("border-bottom-right-radius"@),
                    value_view("border-bottom-left-radius"@),
                ],
            ),
            seq!["borderRadius"@],
            prop(CssProperty::BorderRadius),
            plain_spec().ordered(OrderingKey::RoundedSide),
            None,
        ),
        preset_view(
            "rounded-l"@,
            UtilityHandlerView::Decls(
                seq![
                    value_view("border-top-left-radius"@),
                    value_view("border-bottom-left-radius"@),
                ],
            ),
            seq!["borderRadius"@],
            prop(CssProperty::BorderRadius),
            plain_spec().ordered(OrderingKey::RoundedSide),
            None,
        ),
    ]
}

/// Rounded sides.
pub fn rounded_presets() -> (v: Vec<UtilityBuilder>)
    ensures
        builders_view(v@) == rounded_presets_spec(),
        all_handled(builders_view(v@)),
{
    let mut v: Vec<UtilityBuilder> = Vec::new();
    v.push(
        preset(
            "rounded",
            h1(DeclTemplate::value("border-radius")),
            t1("borderRadius"),
            by_prop(CssProperty::BorderRadius),
            plain().ordered(OrderingKey::Rounded),
            None,
        ),
    );
    v.push(
        preset(
            "rounded-s",
            h2(
                DeclTemplate::value("border-start-start-radius"),
                DeclTemplate::value("border-end-start-radius"),
            ),
            t1("borderRadius"),
            by_prop(CssProperty::BorderRadius),
            plain().ordered(OrderingKey::RoundedSide),
            None,
        ),
    );
    v.push(
        preset(
            "rounded-e",
            h2(
                DeclTemplate::value("border-start-end-radius"),
                DeclTemplate::value("border-end-end-radius"),
            ),
            t1("borderRadius"),
            by_prop(CssProperty::BorderRadius),
            plain().ordered(OrderingKey::RoundedSide),
            None,
        ),
    );
    v.push(
        preset(
            "rounded-t",
            h2(
                DeclTemplate::value("border-top-left-radius"),
                DeclTemplate::value("border-top-right-radius"),
            ),
            t1("borderRadius"),
            by_prop(CssProperty::BorderRadius),
            plain().ordered(OrderingKey::RoundedSide),
            None,
        ),
    );
    v.push(
        preset(
            "rounded-r",
            h2(
                DeclTemplate::value("border-top-right-radius"),
                DeclTemplate::value("border-bottom-right-radius"),
            ),
            t1("borderRadius"),
            by_prop(CssProperty::BorderRadius),
            plain().ordered(OrderingKey::RoundedSide),
            None,
        ),
    );
    v.push(
        preset(
            "rounded-b",
            h2(
                DeclTemplate::value("border-bottom-right-radius"),
                DeclTemplate::value("border-bottom-left-radius"),
            ),
            t1("borderRadius"),
            by_prop(CssProperty::BorderRadius),
            plain().ordered(OrderingKey::RoundedSide),
            None,
        ),
    );
    v.push(
        preset(
            "rounded-l",
            h2(
                DeclTemplate::value("border-top-left-radius"),
                DeclTemplate::value("border-bottom-left-radius"),
            ),
            t1("borderRadius"),
            by_prop(CssProperty::BorderRadius),
            plain().ordered(OrderingKey::RoundedSide),
            None,
        ),
    );
    proof {
        reveal(rounded_presets_spec);
        assert(builders_view(v@)[0] == rounded_presets_spec()[0]);
        assert(builders_view(v@)[1] == rounded_presets_spec()[1]);
        assert(builders_view(v@)[2] == rounded_presets_spec()[2]);
        assert(builders_view(v@)[3] == rounded_presets_spec()[3]);
        assert(builders_view(v@)[4] == rounded_presets_spec()[4]);
        assert(builders_view(v@)[5] == rounded_presets_spec()[5]);
        assert(builders_view(v@)[6] == rounded_presets_spec()[6]);
        assert(builders_view(v@) =~= rounded_presets_spec());
    }
    v
}

/// Rounded corners, the line height and the opacity.
#[verifier::opaque]
pub open spec fn rounded_corner_presets_spec() -> Seq<UtilityBuilderView> {
    seq![
        preset_view(
            "rounded-ss"@,
            UtilityHandlerView::Decls(seq![value_view("border-start-start-radius"@)]),
            seq!["borderRadius"@],
            prop(CssProperty::BorderRadius),
            plain_spec().ordered(OrderingKey::RoundedCorner),
            None,
        ),
        preset_view(
            "rounded-se"@,
            UtilityHandlerView::Decls(seq![value_view("border-start-end-radius"@)]),
            seq!["borderRadius"@],
            prop(CssProperty::BorderRadius),
            plain_spec().ordered(OrderingKey::RoundedCorner),
            None,
        ),
        preset_view(
            "rounded-ee"@,
            UtilityHandlerView::Decls(seq![value_view("border-end-end-radius"@)]),
            seq!["borderRadius"@],
            prop(CssProperty::BorderRadius),
            plain_spec().ordered(OrderingKey::RoundedCorner),
            None,
        ),
        preset_view(
            "rounded-es"@,
            UtilityHandlerView::Decls(seq![value_view("border-end-start-radius"@)]),
            seq!["borderRadius"@],
            prop(CssProperty::BorderRadius),
            plain_spec().ordered(OrderingKey::RoundedCorner),
            None,
        ),
        preset_view(
            "rounded-tl"@,
            UtilityHandlerView::Decls(seq![value_view("border-top-left-radius"@)]),
            seq!["borderRadius"@],
            prop(CssProperty::BorderRadius),
            plain_spec().ordered(OrderingKey::RoundedCorner),
            None,
        ),
        preset_view(
            "rounded-tr"@,
            UtilityHandlerView::Decls(seq![value_view("border-top-right-radius"@)]),
            seq!["borderRadius"@],
            prop(CssProperty::BorderRadius),
            plain_spec().ordered(OrderingKey::RoundedCorner),
            None,
        ),
        preset_view(
            "rounded-br"@,
            UtilityHandlerView::Decls(seq![value_view("border-bottom-right-radius"@)]),
            seq!["borderRadius"@],
            prop(CssProperty::BorderRadius),
            plain_spec().ordered(OrderingKey::RoundedCorner),
            None,
        ),
        preset_view(
            "rounded-bl"@,
            UtilityHandlerView::Decls(seq![value_view("border-bottom-left-radius"@)]),
            seq!["borderRadius"@],
            prop(CssProperty::BorderRadius),
            plain_spec().ordered(OrderingKey::RoundedCorner),
            None,
        ),
        preset_view(
            "leading"@,
            UtilityHandlerView::Decls(seq![value_view("line-height"@)]),
            seq!["lineHeight"@],
            prop(CssProperty::LineHeight),
            plain_spec(),
            None,
        ),
    ]
}

/// Rounded corners, the line height and the opacity.
pub fn rounded_corner_presets() -> (v: Vec<UtilityBuilder>)
    ensures
        builders_view(v@) == rounded_corner_presets_spec(),
        all_handled(builders_view(v@)),
{
    let mut v: Vec<UtilityBuilder> = Vec::new();
    v.push(
        preset(
            "rounded-ss",
            h1(DeclTemplate::value("border-start-start-radius")),
            t1("borderRadius"),
            by_prop(CssProperty::BorderRadius),
            plain().ordered(OrderingKey::RoundedCorner),
            None,
        ),
    );
    v.push(
        preset(
            "rounded-se",
            h1(DeclTemplate::value("border-start-end-radius")),
            t1("borderRadius"),
            by_prop(CssProperty::BorderRadius),
            plain().ordered(OrderingKey::RoundedCorner),
            None,
        ),
    );
    v.push(
        preset(
            "rounded-ee",
            h1(DeclTemplate::value("border-end-end-radius")),
            t1("borderRadius"),
            by_prop(CssProperty::BorderRadius),
            plain().ordered(OrderingKey::RoundedCorner),
            None,
        ),
    );
    v.push(
        preset(
            "rounded-es",
            h1(DeclTemplate::value("border-end-start-radius")),
            t1("borderRadius"),
            by_prop(CssProperty::BorderRadius),
            plain().ordered(OrderingKey::RoundedCorner),
            None,
        ),
    );
    v.push(
        preset(
            "rounded-tl",
            h1(DeclTemplate::value("border-top-left-radius")),
            t1("borderRadius"),
            by_prop(CssProperty::BorderRadius),
            plain().ordered(OrderingKey::RoundedCorner),
            None,
        ),
    );
    v.push(
        preset(
            "rounded-tr",
            h1(DeclTemplate::value("border-top-right-radius")),
            t1("borderRadius"),
            by_prop(CssProperty::BorderRadius),
            plain().ordered(OrderingKey::RoundedCorner),
            None,
        ),
    );
    v.push(
        preset(
            "rounded-br",
            h1(DeclTemplate::value("border-bottom-right-radius")),
            t1("borderRadius"),
            by_prop(CssProperty::BorderRadius),
            plain().ordered(OrderingKey::RoundedCorner),
            None,
        ),
    );
    v.push(
        preset(
            "rounded-bl",
            h1(DeclTemplate::value("border-bottom-left-radius")),
            t1("borderRadius"),
            by_prop(CssProperty::BorderRadius),
            plain().ordered(OrderingKey::RoundedCorner),
            None,
        ),
    );
    v.push(
        preset(
            "leading",
            h1(DeclTemplate::value("line-height")),
            t1("lineHeight"),
            by_prop(CssProperty::LineHeight),
            plain(),
            None,
        ),
    );
    proof {
        reveal(rounded_corner_presets_spec);
        assert(builders_view(v@)[0] == rounded_corner_presets_spec()[0]);
        assert(builders_view(v@)[1] == rounded_corner_presets_spec()[1]);
        assert(builders_view(v@)[2] == rounded_corner_presets_spec()[2]);
        assert(builders_view(v@)[3] == rounded_corner_presets_spec()[3]);
        assert(builders_view(v@)[4] == rounded_corner_presets_spec()[4]);
        assert(builders_view(v@)[5] == rounded_corner_presets_spec()[5]);
        assert(builders_view(v@)[6] == rounded_corner_presets_spec()[6]);
        assert(builders_view(v@)[7] == rounded_corner_presets_spec()[7]);
        assert(builders_view(v@)[8] == rounded_corner_presets_spec()[8]);
        assert(builders_view(v@) =~= rounded_corner_presets_spec());
    }
    v
}

/// The color of borders.
#[verifier::opaque]
pub open spec fn border_color_presets_spec() -> Seq<UtilityBuilderView> {
    seq![
        preset_view(
            "border"@,
            UtilityHandlerView::Decls(seq![value_view("border-color"@)]),
            seq!["borderColor"@, "colors"@],
            prop(CssProperty::BorderColor),
            plain_spec().ordered(OrderingKey::BorderColor),
            None,
        ),
        preset_view(
            "border-x"@,
            UtilityHandlerView::Decls(
                seq![
                    value_view("border-right-color"@),
                    value_view("border-left-color"@),
                ],
            ),
            seq!["borderColor"@, "colors"@],
            prop(CssProperty::BorderColor),
            plain_spec().ordered(OrderingKey::BorderColorAxis),
            None,
        ),
        preset_view(
            "border-y"@,
            UtilityHandlerView::Decls(
                seq![
                    value_view("border-top-color"@),
                    value_view("border-bottom-color"@),
                ],
            ),
            seq!["borderColor"@, "colors"@],
            prop(CssProperty::BorderColor),
            plain_spec().ordered(OrderingKey::BorderColorAxis),
            None,
        ),
        preset_view(
            "border-s"@,
            UtilityHandlerView::Decls(seq![value_view("border-inline-start-color"@)]),
            seq!["borderColor"@, "colors"@],
            prop(CssProperty::BorderColor),
            plain_spec().ordered(OrderingKey::BorderColorSide),
            None,
        ),
        preset_view(
            "border-e"@,
            UtilityHandlerView::Decls(seq![value_view("border-inline-end-color"@)]),
            seq!["borderColor"@, "colors"@],
            prop(CssProperty::BorderColor),
            plain_spec().ordered(OrderingKey::BorderColorSide),
            None,
        ),
        preset_view(
            "border-t"@,
            UtilityHandlerView::Decls(seq![value_view("border-top-color"@)]),
            seq!["borderColor"@, "colors"@],
            prop(CssProperty::BorderColor),
            plain_spec().ordered(OrderingKey::BorderColorSide),
            None,
        ),
        preset_view(
            "border-r"@,
            UtilityHandlerView::Decls(seq![value_view("border-right-color"@)]),
            seq!["borderColor"@, "colors"@],
            prop(CssProperty::BorderColor),
            plain_spec().ordered(OrderingKey::BorderColorSide),
            None,
        ),
        preset_view(
            "border-b"@,
            UtilityHandlerView::Decls(seq![value_view("border-bottom-color"@)]),
            seq!["borderColor"@, "colors"@],
            prop(CssProperty::BorderColor),
            plain_spec().ordered(OrderingKey::BorderColorSide),
            None,
        ),
        preset_view(
            "border-l"@,
            UtilityHandlerView::Decls(seq![value_view("border-left-color"@)]),
            seq!["borderColor"@, "colors"@],
            prop(CssProperty::BorderColor),
            plain_spec().ordered(OrderingKey::BorderColorSide),
            None,
        ),
        preset_view(
            "opacity"@,
            UtilityHandlerView::Decls(seq![value_view("opacity"@)]),
            seq!["opacity"@],
            prop(CssProperty::Opacity),
            plain_spec(),
            None,
        ),
    ]
}

/// The color of borders.
pub fn border_color_presets() -> (v: Vec<UtilityBuilder>)
    ensures
        builders_view(v@) == border_color_presets_spec(),
        all_handled(builders_view(v@)),
{
    let mut v: Vec<UtilityBuilder> = Vec::new();
    v.push(
        preset(
            "border",
            h1(DeclTemplate::value("border-color")),
            t2("borderColor", "colors"),
            by_prop(CssProperty::BorderColor),
            plain().ordered(OrderingKey::BorderColor),
            None,
        ),
    );
    v.push(
        preset(
            "border-x",
            h2(
                DeclTemplate::value("border-right-color"),
                DeclTemplate::value("border-left-color"),
            ),
            t2("borderColor", "colors"),
            by_prop(CssProperty::BorderColor),
            plain().ordered(OrderingKey::BorderColorAxis),
            None,
        ),
    );
    v.push(
        preset(
            "border-y",
            h2(
                DeclTemplate::value("border-top-color"),
                DeclTemplate::value("border-bottom-color"),
            ),
            t2("borderColor", "colors"),
            by_prop(CssProperty::BorderColor),
            plain().ordered(OrderingKey::BorderColorAxis),
            None,
        ),
    );
    v.push(
        preset(
            "border-s",
            h1(DeclTemplate::value("border-inline-start-color")),
            t2("borderColor", "colors"),
            by_prop(CssProperty::BorderColor),
            plain().ordered(OrderingKey::BorderColorSide),
            None,
        ),
    );
    v.push(
        preset(
            "border-e",
            h1(DeclTemplate::value("border-inline-end-color")),
            t2("borderColor", "colors"),
            by_prop(CssProperty::BorderColor),
            plain().ordered(OrderingKey::BorderColorSide),
            None,
        ),
    );
    v.push(
        preset(
            "border-t",
            h1(DeclTemplate::value("border-top-color")),
            t2("borderColor", "colors"),
            by_prop(CssProperty::BorderColor),
            plain().ordered(OrderingKey::BorderColorSide),
            None,
        ),
    );
    v.push(
        preset(
            "border-r",
            h1(DeclTemplate::value("border-right-color")),
            t2("borderColor", "colors"),
            by_prop(CssProperty::BorderColor),
            plain().ordered(OrderingKey::BorderColorSide),
            None,
        ),
    );
    v.push(
        preset(
            "border-b",
            h1(DeclTemplate::value("border-bottom-color")),
            t2("borderColor", "colors"),
            by_prop(CssProperty::BorderColor),
            plain().ordered(OrderingKey::BorderColorSide),
            None,
        ),
    );
    v.push(
        preset(
            "border-l",
            h1(DeclTemplate::value("border-left-color")),
            t2("borderColor", "colors"),
            by_prop(CssProperty::BorderColor),
            plain().ordered(OrderingKey::BorderColorSide),
            None,
        ),
    );
    v.push(
        preset(
            "opacity",
            h1(DeclTemplate::value("opacity")),
            t1("opacity"),
            by_prop(CssProperty::Opacity),
            plain(),
            None,
        ),
    );
    proof {
        reveal(border_color_presets_spec);
        assert(builders_view(v@)[0] == border_color_presets_spec()[0]);
        assert(builders_view(v@)[1] == border_color_presets_spec()[1]);
        assert(builders_view(v@)[2] == border_color_presets_spec()[2]);
        assert(builders_view(v@)[3] == border_color_presets_spec()[3]);
        assert(builders_view(v@)[4] == border_color_presets_spec()[4]);
        assert(builders_view(v@)[5] == border_color_presets_spec()[5]);
        assert(builders_view(v@)[6] == border_color_presets_spec()[6]);
        assert(builders_view(v@)[7] == border_color_presets_spec()[7]);
        assert(builders_view(v@)[8] == border_color_presets_spec()[8]);
        assert(builders_view(v@)[9] == border_color_presets_spec()[9]);
        assert(builders_view(v@) =~= border_color_presets_spec());
    }
    v
}

/// Scroll margins.
#[verifier::opaque]
pub open spec fn scroll_margin_presets_spec() -> Seq<UtilityBuilderView> {
    seq![
        preset_view(
            "scroll-m"@,
            UtilityHandlerView::Decls(seq![value_view("scroll-margin"@)]),
            seq!["scrollMargin"@, "spacing"@],
            prop(CssProperty::ScrollMargin),
            plain_spec(),
            None,
        ),
        preset_view(
            "scroll-mx"@,
            UtilityHandlerView::Decls(
                seq![
                    value_view("scroll-margin-left"@),
                    value_view("scroll-margin-right"@),
                ],
            ),
            seq!["scrollMargin"@, "spacing"@],
            prop(CssProperty::ScrollMargin),
            plain_spec(),
            None,
        ),
        preset_view(
            "scroll-my"@,
            UtilityHandlerView::Decls(
                seq![
                    value_view("scroll-margin-top"@),
                    value_view("scroll-margin-bottom"@),
                ],
            ),
            seq!["scrollMargin"@, "spacing"@],
            prop(CssProperty::ScrollMargin),
            plain_spec(),
            None,
        ),
        preset_view(
            "scroll-ms"@,
            UtilityHandlerView::Decls(seq![value_view("scroll-margin-inline-start"@)]),
            seq!["scrollMargin"@, "spacing"@],
            prop(CssProperty::ScrollMargin),
            plain_spec(),
            None,
        ),
        preset_view(
            "scroll-me"@,
            UtilityHandlerView::Decls(seq![value_view("scroll-margin-inline-end"@)]),
            seq!["scrollMargin"@, "spacing"@],
            prop(CssProperty::ScrollMargin),
            plain_spec(),
            None,
        ),
        preset_view(
            "scroll-mt"@,
            UtilityHandlerView::Decls(seq![value_view("scroll-margin-top"@)]),
            seq!["scrollMargin"@, "spacing"@],
            prop(CssProperty::ScrollMargin),
            plain_spec(),
            None,
        ),
        preset_view(
            "scroll-mr"@,
            UtilityHandlerView::Decls(seq![value_view("scroll-margin-right"@)]),
            seq!["scrollMargin"@, "spacing"@],
            prop(CssProperty::ScrollMargin),
            plain_spec(),
            None,
        ),
        preset_view(
            "scroll-mb"@,
            UtilityHandlerView::Decls(seq![value_view("scroll-margin-bottom"@)]),
            seq!["scrollMargin"@, "spacing"@],
            prop(CssProperty::ScrollMargin),
            plain_spec(),
            None,
        ),
        preset_view(
            "scroll-ml"@,
            UtilityHandlerView::Decls(seq![value_view("scroll-margin-left"@)]),
            seq!["scrollMargin"@, "spacing"@],
            prop(CssProperty::ScrollMargin),
            plain_spec(),
            None,
        ),
    ]
}

/// Scroll margins.
pub fn scroll_margin_presets() -> (v: Vec<UtilityBuilder>)
    ensures
        builders_view(v@) == scroll_margin_presets_spec(),
        all_handled(builders_view(v@)),
{
    let mut v: Vec<UtilityBuilder> = Vec::new();
    v.push(
        preset(
            "scroll-m",
            h1(DeclTemplate::value("scroll-margin")),
            t2("scrollMargin", "spacing"),
            by_prop(CssProperty::ScrollMargin),
            plain(),
            None,
        ),
    );
    v.push(
        preset(
            "scroll-mx",
            h2(
                DeclTemplate::value("scroll-margin-left"),
                DeclTemplate::value("scroll-margin-right"),
            ),
            t2("scrollMargin", "spacing"),
            by_prop(CssProperty::ScrollMargin),
            plain(),
            None,
        ),
    );
    v.push(
        preset(
            "scroll-my",
            h2(
                DeclTemplate::value("scroll-margin-top"),
                DeclTemplate::value("scroll-margin-bottom"),
            ),
            t2("scrollMargin", "spacing"),
            by_prop(CssProperty::ScrollMargin),
            plain(),
            None,
        ),
    );
    v.push(
        preset(
            "scroll-ms",
            h1(DeclTemplate::value("scroll-margin-inline-start")),
            t2("scrollMargin", "spacing"),
            by_prop(CssProperty::ScrollMargin),
            plain(),
            None,
        ),
    );
    v.push(
        preset(
            "scroll-me",
            h1(DeclTemplate::value("scroll-margin-inline-end")),
            t2("scrollMargin", "spacing"),
            by_prop(CssProperty::ScrollMargin),
            plain(),
            None,
        ),
    );
    v.push(
        preset(
            "scroll-mt",
            h1(DeclTemplate::value("scroll-margin-top")),
            t2("scrollMargin", "spacing"),
            by_prop(CssProperty::ScrollMargin),
            plain(),
            None,
        ),
    );
    v.push(
        preset(
            "scroll-mr",
            h1(DeclTemplate::value("scroll-margin-right")),
            t2("scrollMargin", "spacing"),
            by_prop(CssProperty::ScrollMargin),
            plain(),
            None,
        ),
    );
    v.push(
        preset(
            "scroll-mb",
            h1(DeclTemplate::value("scroll-margin-bottom")),
            t2("scrollMargin", "spacing"),
            by_prop(CssProperty::ScrollMargin),
            plain(),
            None,
        ),
    );
    v.push(
        preset(
            "scroll-ml",
            h1(DeclTemplate::value("scroll-margin-left")),
            t2("scrollMargin", "spacing"),
            by_prop(CssProperty::ScrollMargin),
            plain(),
            None,
        ),
    );
    proof {
        reveal(scroll_margin_presets_spec);
        assert(builders_view(v@)[0] == scroll_margin_presets_spec()[0]);
        assert(builders_view(v@)[1] == scroll_margin_presets_spec()[1]);
        assert(builders_view(v@)[2] == scroll_margin_presets_spec()[2]);
        assert(builders_view(v@)[3] == scroll_margin_presets_spec()[3]);
        assert(builders_view(v@)[4] == scroll_margin_presets_spec()[4]);
        assert(builders_view(v@)[5] == scroll_margin_presets_spec()[5]);
        assert(builders_view(v@)[6] == scroll_margin_presets_spec()[6]);
        assert(builders_view(v@)[7] == scroll_margin_presets_spec()[7]);
        assert(builders_view(v@)[8] == scroll_margin_presets_spec()[8]);
        assert(builders_view(v@) =~= scroll_margin_presets_spec());
    }
    v
}

/// Scroll paddings.
#[verifier::opaque]
pub open spec fn scroll_padding_presets_spec() -> Seq<UtilityBuilderView> {
    seq![
        preset_view(
            "scroll-p"@,
            UtilityHandlerView::Decls(seq![value_view("scroll-padding"@)]),
            seq!["scrollPadding"@, "spacing"@],
            prop(CssProperty::ScrollPadding),
            plain_spec(),
            None,
        ),
        preset_view(
            "scroll-px"@,
            UtilityHandlerView::Decls(
                seq![
                    value_view("scroll-padding-left"@),
                    value_view("scroll-padding-right"@),
                ],
            ),
            seq!["scrollPadding"@, "spacing"@],
            prop(CssProperty::ScrollPadding),
            plain_spec(),
            None,
        ),
        preset_view(
            "scroll-py"@,
            UtilityHandlerView::Decls(
                seq![
                    value_view("scroll-padding-top"@),
                    value_view("scroll-padding-bottom"@),
                ],
            ),
            seq!["scrollPadding"@, "spacing"@],
            prop(CssProperty::ScrollPadding),
            plain_spec(),
            None,
        ),
        preset_view(
            "scroll-ps"@,
            UtilityHandlerView::Decls(seq![value_view("scroll-padding-inline-start"@)]),
            seq!["scrollPadding"@, "spacing"@],
            prop(CssProperty::ScrollPadding),
            plain_spec(),
            None,
        ),
        preset_view(
            "scroll-pe"@,
            UtilityHandlerView::Decls(seq![value_view("scroll-padding-inline-end"@)]),
            seq!["scrollPadding"@, "spacing"@],
            prop(CssProperty::ScrollPadding),
            plain_spec(),
            None,
        ),
        preset_view(
            "scroll-pt"@,
            UtilityHandlerView::Decls(seq![value_view("scroll-padding-top"@)]),
            seq!["scrollPadding"@, "spacing"@],
            prop(CssProperty::ScrollPadding),
            plain_spec(),
            None,
        ),
        preset_view(
            "scroll-pr"@,
            UtilityHandlerView::Decls(seq![value_view("scroll-padding-right"@)]),
            seq!["scrollPadding"@, "spacing"@],
            prop(CssProperty::ScrollPadding),
            plain_spec(),
            None,
        ),
        preset_view(
            "scroll-pb"@,
            UtilityHandlerView::Decls(seq![value_view("scroll-padding-bottom"@)]),
            seq!["scrollPadding"@, "spacing"@],
            prop(CssProperty::ScrollPadding),
            plain_spec(),
            None,
        ),
        preset_view(
            "scroll-pl"@,
            UtilityHandlerView::Decls(seq![value_view("scroll-padding-left"@)]),
            seq!["scrollPadding"@, "spacing"@],
            prop(CssProperty::ScrollPadding),
            plain_spec(),
            None,
        ),
    ]
}

/// Scroll paddings.
pub fn scroll_padding_presets() -> (v: Vec<UtilityBuilder>)
    ensures
        builders_view(v@) == scroll_padding_presets_spec(),
        all_handled(builders_view(v@)),
{
    let mut v: Vec<UtilityBuilder> = Vec::new();
    v.push(
        preset(
            "scroll-p",
            h1(DeclTemplate::value("scroll-padding")),
            t2("scrollPadding", "spacing"),
            by_prop(CssProperty::ScrollPadding),
            plain(),
            None,
        ),
    );
    v.push(
        preset(
            "scroll-px",
            h2(
                DeclTemplate::value("scroll-padding-left"),
                DeclTemplate::value("scroll-padding-right"),
            ),
            t2("scrollPadding", "spacing"),
            by_prop(CssProperty::ScrollPadding),
            plain(),
            None,
        ),
    );
    v.push(
        preset(
            "scroll-py",
            h2(
                DeclTemplate::value("scroll-padding-top"),
                DeclTemplate::value("scroll-padding-bottom"),
            ),
            t2("scrollPadding", "spacing"),
            by_prop(CssProperty::ScrollPadding),
            plain(),
            None,
        ),
    );
    v.push(
        preset(
            "scroll-ps",
            h1(DeclTemplate::value("scroll-padding-inline-start")),
            t2("scrollPadding", "spacing"),
            by_prop(CssProperty::ScrollPadding),
            plain(),
            None,
        ),
    );
    v.push(
        preset(
            "scroll-pe",
            h1(DeclTemplate::value("scroll-padding-inline-end")),
            t2("scrollPadding", "spacing"),
            by_prop(CssProperty::ScrollPadding),
            plain(),
            None,
        ),
    );
    v.push(
        preset(
            "scroll-pt",
            h1(DeclTemplate::value("scroll-padding-top")),
            t2("scrollPadding", "spacing"),
            by_prop(CssProperty::ScrollPadding),
            plain(),
            None,
        ),
    );
    v.push(
        preset(
            "scroll-pr",
            h1(DeclTemplate::value("scroll-padding-right")),
            t2("scrollPadding", "spacing"),
            by_prop(CssProperty::ScrollPadding),
            plain(),
            None,
        ),
    );
    v.push(
        preset(
            "scroll-pb",
            h1(DeclTemplate::value("scroll-padding-bottom")),
            t2("scrollPadding", "spacing"),
            by_prop(CssProperty::ScrollPadding),
            plain(),
            None,
        ),
    );
    v.push(
        preset(
            "scroll-pl",
            h1(DeclTemplate::value("scroll-padding-left")),
            t2("scrollPadding", "spacing"),
            by_prop(CssProperty::ScrollPadding),
            plain(),
            None,
        ),
    );
    proof {
        reveal(scroll_padding_presets_spec);
        assert(builders_view(v@)[0] == scroll_padding_presets_spec()[0]);
        assert(builders_view(v@)[1] == scroll_padding_presets_spec()[1]);
        assert(builders_view(v@)[2] == scroll_padding_presets_spec()[2]);
        assert(builders_view(v@)[3] == scroll_padding_presets_spec()[3]);
        assert(builders_view(v@)[4] == scroll_padding_presets_spec()[4]);
        assert(builders_view(v@)[5] == scroll_padding_presets_spec()[5]);
        assert(builders_view(v@)[6] == scroll_padding_presets_spec()[6]);
        assert(builders_view(v@)[7] == scroll_padding_presets_spec()[7]);
        assert(builders_view(v@)[8] == scroll_padding_presets_spec()[8]);
        assert(builders_view(v@) =~= scroll_padding_presets_spec());
    }
    v
}

/// The table of keyframes of a theme; empty if the theme has none.
pub open spec fn keyframes_of(theme: ThemeModel) -> TableModel {
    if theme.contains_key("keyframes"@) {
        theme["keyframes"@]
    } else {
        Map::empty()
    }
}

/// All utilities of the preset that take a value, in the order of their
/// registration. Where a key has several definitions, the first that makes
/// something of a candidate wins.
pub open spec fn dynamic_presets(theme: ThemeModel) -> Seq<UtilityBuilderView> {
    let keyframes = keyframes_of(theme);
    flex_presets_spec()
        + translate_presets_spec()
        + scale_presets_spec()
        + rotate_presets_spec()
        + table_presets_spec()
        + animate_presets_spec(keyframes)
        + between_presets_spec()
        + gradient_presets_spec()
        + paint_presets_spec()
        + text_presets_spec()
        + shadow_presets_spec()
        + filter_presets_spec()
        + more_filter_presets_spec()
        + layout_presets_spec()
        + border_width_presets_spec()
        + outline_presets_spec()
        + margin_presets_spec()
        + padding_presets_spec()
        + inset_presets_spec()
        + size_presets_spec()
        + rounded_presets_spec()
        + rounded_corner_presets_spec()
        + border_color_presets_spec()
        + scroll_margin_presets_spec()
        + scroll_padding_presets_spec()
}

/// What two lists of builders register is what the first registers,
/// followed by what the second registers.
pub proof fn lemma_built_all_concat(a: Seq<UtilityBuilderView>, b: Seq<UtilityBuilderView>, theme: ThemeModel)
    ensures
        built_all(a + b, theme) == built_all(a, theme) + built_all(b, theme),
{
    assert(built_all(a + b, theme) =~= built_all(a, theme) + built_all(b, theme));
}

/// Registers one part of the preset after the parts that are registered.
fn register_part(
    design: &mut DesignSystem,
    builders: Vec<UtilityBuilder>,
    Ghost(start): Ghost<Seq<(Seq<char>, crate::process::UtilityView)>>,
    Ghost(done): Ghost<Seq<UtilityBuilderView>>,
)
    requires
        all_handled(builders_view(builders@)),
        registry_view(old(design).utilities@) == start + built_all(done, old(design).theme.model()),
    ensures
        registry_view(final(design).utilities@) == start + built_all(
            done + builders_view(builders@),
            old(design).theme.model(),
        ),
        final(design).theme == old(design).theme,
        final(design).variants == old(design).variants,
{
    let ghost theme = design.theme.model();
    register_all(design, builders);
    proof {
        lemma_built_all_concat(done, builders_view(builders@), theme);
        assert(registry_view(design.utilities@) =~= start + built_all(
            done + builders_view(builders@),
            theme,
        ));
    }
}

/// Registers the utilities of the preset that take a value, after those
/// that are registered already.
pub fn load_dynamic_utilities(design: &mut DesignSystem)
    ensures
        registry_view(final(design).utilities@) == registry_view(old(design).utilities@) + built_all(
            dynamic_presets(old(design).theme.model()),
            old(design).theme.model(),
        ),
        final(design).theme == old(design).theme,
        final(design).variants == old(design).variants,
{
    let ghost theme = design.theme.model();
    let ghost start = registry_view(design.utilities@);
    let keyframes: ThemeTable = match design.get_theme("keyframes") {
        Some(t) => clone_table(t),
        None => {
            let t: ThemeTable = Table::new();
            assert(table_model(t) =~= Map::empty());
            t
        },
    };
    assert(table_model(keyframes) == keyframes_of(theme));
    let ghost none: Seq<UtilityBuilderView> = Seq::empty();
    proof {
        assert(start + built_all(none, theme) =~= start);
    }
    register_part(design, flex_presets(), Ghost(start), Ghost(none));
    let ghost mut done = flex_presets_spec();
    proof {
        assert(none + flex_presets_spec() =~= done);
    }
    register_part(design, translate_presets(), Ghost(start), Ghost(done));
    proof {
        done = done + translate_presets_spec();
    }
    register_part(design, scale_presets(), Ghost(start), Ghost(done));
    proof {
        done = done + scale_presets_spec();
    }
    register_part(design, rotate_presets(), Ghost(start), Ghost(done));
    proof {
        done = done + rotate_presets_spec();
    }
    register_part(design, table_presets(), Ghost(start), Ghost(done));
    proof {
        done = done + table_presets_spec();
    }
    register_part(design, animate_presets(keyframes), Ghost(start), Ghost(done));
    proof {
        done = done + animate_presets_spec(keyframes_of(theme));
    }
    register_part(design, between_presets(), Ghost(start), Ghost(done));
    proof {
        done = done + between_presets_spec();
    }
    register_part(design, gradient_presets(), Ghost(start), Ghost(done));
    proof {
        done = done + gradient_presets_spec();
    }
    register_part(design, paint_presets(), Ghost(start), Ghost(done));
    proof {
        done = done + paint_presets_spec();
    }
    register_part(design, text_presets(), Ghost(start), Ghost(done));
    proof {
        done = done + text_presets_spec();
    }
    register_part(design, shadow_presets(), Ghost(start), Ghost(done));
    proof {
        done = done + shadow_presets_spec();
    }
    register_part(design, filter_presets(), Ghost(start), Ghost(done));
    proof {
        done = done + filter_presets_spec();
    }
    register_part(design, more_filter_presets(), Ghost(start), Ghost(done));
    proof {
        done = done + more_filter_presets_spec();
    }
    register_part(design, layout_presets(), Ghost(start), Ghost(done));
    proof {
        done = done + layout_presets_spec();
    }
    register_part(design, border_width_presets(), Ghost(start), Ghost(done));
    proof {
        done = done + border_width_presets_spec();
    }
    register_part(design, outline_presets(), Ghost(start), Ghost(done));
    proof {
        done = done + outline_presets_spec();
    }
    register_part(design, margin_presets(), Ghost(start), Ghost(done));
    proof {
        done = done + margin_presets_spec();
    }
    register_part(design, padding_presets(), Ghost(start), Ghost(done));
    proof {
        done = done + padding_presets_spec();
    }
    register_part(design, inset_presets(), Ghost(start), Ghost(done));
    proof {
        done = done + inset_presets_spec();
    }
    register_part(design, size_presets(), Ghost(start), Ghost(done));
    proof {
        done = done + size_presets_spec();
    }
    register_part(design, rounded_presets(), Ghost(start), Ghost(done));
    proof {
        done = done + rounded_presets_spec();
    }
    register_part(design, rounded_corner_presets(), Ghost(start), Ghost(done));
    proof {
        done = done + rounded_corner_presets_spec();
    }
    register_part(design, border_color_presets(), Ghost(start), Ghost(done));
    proof {
        done = done + border_color_presets_spec();
    }
    register_part(design, scroll_margin_presets(), Ghost(start), Ghost(done));
    proof {
        done = done + scroll_margin_presets_spec();
    }
    register_part(design, scroll_padding_presets(), Ghost(start), Ghost(done));
    proof {
        done = done + scroll_padding_presets_spec();
    }
}

} // verus!
