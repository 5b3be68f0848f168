//! Building utilities: a builder collects what a utility is made of, and
//! `parse` resolves its theme keys against a theme.

use vstd::prelude::*;
use vstd::string::*;
use crate::ordering::{OrderingKey, UtilityGroup};
use crate::process::{
    opt_additional, AdditionalCss, AdditionalCssView, Utility, UtilityHandler, UtilityHandlerView,
    UtilityView, ValueRepr,
};
use crate::theme::{clone_table, table_model, table_models, TableModel, Theme, ThemeModel, ThemeTable};
use crate::types::Validator;

verus! {

/// Why a utility or a theme could not be built.
#[derive(Debug, PartialEq)]
pub enum ThemeParseError {
    /// The utility named here has no handler.
    MissingHandler(String),
    /// The namespace named here does not hold an object.
    NotAnObject(String),
    /// The value under this namespace and key has a shape that no theme
    /// value has.
    InvalidValue(String, String),
}

impl ThemeParseError {
    /// The error as a message.
    pub open spec fn message(&self) -> Seq<char> {
        match self {
            ThemeParseError::MissingHandler(key) => "utility without a handler: "@ + key@,
            ThemeParseError::NotAnObject(namespace) => "theme only accepts object value: "@
                + namespace@,
            ThemeParseError::InvalidValue(namespace, key) => "unexpected theme value: "@
                + namespace@ + "."@ + key@,
        }
    }

    /// The error as a message.
    pub fn to_string(&self) -> (s: String)
        ensures
            s@ == self.message(),
    {
        match self {
            ThemeParseError::MissingHandler(key) => crate::text::join2(
                "utility without a handler: ",
                key.as_str(),
            ),
            ThemeParseError::NotAnObject(namespace) => crate::text::join2(
                "theme only accepts object value: ",
                namespace.as_str(),
            ),
            ThemeParseError::InvalidValue(namespace, key) => {
                let mut s = crate::text::join2("unexpected theme value: ", namespace.as_str());
                s.append(".");
                s.append(key.as_str());
                s
            },
        }
    }
}

/// Where values come from, before the theme is known: the names of theme
/// tables, and a validator for arbitrary values.
#[derive(Debug, PartialEq)]
pub struct RawValueRepr {
    pub theme_keys: Vec<String>,
    pub validator: Option<Validator>,
}

/// The texts of the strings, in order.
pub open spec fn string_texts(v: Seq<String>) -> Seq<Seq<char>> {
    Seq::new(v.len(), |i: int| v[i]@)
}

/// The tables of the theme keys that the theme knows, in the order of the
/// keys; a key that the theme does not know is passed over.
pub open spec fn known_tables(theme: ThemeModel, keys: Seq<Seq<char>>) -> Seq<TableModel>
    decreases keys.len(),
{
    if keys.len() == 0 {
        Seq::<TableModel>::empty()
    } else {
        let front = known_tables(theme, keys.drop_last());
        if theme.contains_key(keys.last()) {
            front.push(theme[keys.last()])
        } else {
            front
        }
    }
}

impl RawValueRepr {
    /// Values of one theme table.
    pub fn new(theme_key: &str) -> (r: RawValueRepr)
        ensures
            string_texts(r.theme_keys@) == seq![theme_key@],
            r.validator is None,
    {
        let mut keys: Vec<String> = Vec::new();
        keys.push(theme_key.to_owned());
        assert(string_texts(keys@) =~= seq![theme_key@]);
        RawValueRepr { theme_keys: keys, validator: None }
    }

    /// Sets the validator of arbitrary values.
    pub fn with_validator(self, validator: Validator) -> (r: RawValueRepr)
        ensures
            r == (RawValueRepr { validator: Some(validator), ..self }),
    {
        let mut r = self;
        r.validator = Some(validator);
        r
    }

    /// Resolves the theme keys: the tables of the keys that the theme
    /// knows, in order.
    pub fn parse(&self, theme: &Theme) -> (r: ValueRepr)
        ensures
            table_models(r.tables@) == known_tables(theme.model(), string_texts(self.theme_keys@)),
            r.validator == self.validator,
    {
        let tables = collect_tables(theme, &self.theme_keys);
        ValueRepr { tables, validator: self.validator }
    }
}

/// The tables of the theme keys that the theme knows, in the order of the
/// keys.
pub fn collect_tables(theme: &Theme, keys: &Vec<String>) -> (tables: Vec<ThemeTable>)
    ensures
        table_models(tables@) == known_tables(theme.model(), string_texts(keys@)),
{
    let ghost all = string_texts(keys@);
    let mut tables: Vec<ThemeTable> = Vec::new();
    let mut i: usize = 0;
    proof {
        assert(all.take(0) =~= Seq::<Seq<char>>::empty());
        assert(table_models(tables@) =~= known_tables(theme.model(), all.take(0)));
    }
    while i < keys.len()
        invariant
            i <= keys@.len(),
            all == string_texts(keys@),
            table_models(tables@) == known_tables(theme.model(), all.take(i as int)),
        decreases keys@.len() - i,
    {
        let ghost before = table_models(tables@);
        proof {
            assert(all.take(i + 1).drop_last() =~= all.take(i as int));
            assert(all.take(i + 1).last() == keys@[i as int]@);
        }
        match theme.get(keys[i].as_str()) {
            Some(t) => {
                let copy = clone_table(t);
                tables.push(copy);
                assert(table_models(tables@) =~= before.push(table_model(copy)));
            },
            None => {},
        }
        i += 1;
    }
    proof {
        assert(all.take(i as int) =~= all);
    }
    tables
}

/// What a utility is made of, before the theme is known.
#[derive(Debug, PartialEq)]
pub struct UtilityBuilder {
    /// The key of the utility, e.g. `bg`.
    pub key: String,
    /// How the utility makes its nodes.
    pub handler: Option<UtilityHandler>,
    /// Where modifiers come from, e.g. the `50` of `bg-blue-500/50`.
    pub modifier: Option<RawValueRepr>,
    /// The theme tables that values are read from, tried in order.
    pub theme_keys: Vec<String>,
    /// The validator of arbitrary values.
    pub validator: Option<Validator>,
    /// The selector that wraps the class, with `&` for the class.
    pub wrapper: Option<String>,
    /// Whether the utility takes negative values.
    pub supports_negative: bool,
    /// Whether the utility takes fractions, e.g. `w-1/2`.
    pub supports_fraction: bool,
    /// Whether a numeric modifier is the opacity of a color.
    pub opacity_modifier: bool,
    pub ordering_key: Option<OrderingKey>,
    pub additional_css: Option<AdditionalCss>,
    pub group: Option<UtilityGroup>,
}

/// The mathematical content of a [`UtilityBuilder`].
pub ghost struct UtilityBuilderView {
    pub key: Seq<char>,
    pub handler: Option<UtilityHandlerView>,
    /// The theme keys and the validator of the modifier.
    pub modifier: Option<(Seq<Seq<char>>, Option<Validator>)>,
    pub theme_keys: Seq<Seq<char>>,
    pub validator: Option<Validator>,
    pub wrapper: Option<Seq<char>>,
    pub supports_negative: bool,
    pub supports_fraction: bool,
    pub opacity_modifier: bool,
    pub ordering_key: Option<OrderingKey>,
    pub additional_css: Option<AdditionalCssView>,
    pub group: Option<UtilityGroup>,
}

impl View for UtilityBuilder {
    type V = UtilityBuilderView;

    open spec fn view(&self) -> UtilityBuilderView {
        UtilityBuilderView {
            key: self.key@,
            handler: match self.handler {
                Some(h) => Some(h@),
                None => None,
            },
            modifier: match self.modifier {
                Some(m) => Some((string_texts(m.theme_keys@), m.validator)),
                None => None,
            },
            theme_keys: string_texts(self.theme_keys@),
            validator: self.validator,
            wrapper: crate::theme::opt_text(self.wrapper),
            supports_negative: self.supports_negative,
            supports_fraction: self.supports_fraction,
            opacity_modifier: self.opacity_modifier,
            ordering_key: self.ordering_key,
            additional_css: opt_additional(self.additional_css),
            group: self.group,
        }
    }
}

impl UtilityBuilderView {
    /// The utility that a builder with a handler builds against a theme:
    /// theme keys become the tables of the theme, and a key that the theme
    /// does not know is passed over.
    pub open spec fn built(self, theme: ThemeModel) -> UtilityView {
        UtilityView {
            handler: self.handler.unwrap(),
            supports_negative: self.supports_negative,
            supports_fraction: self.supports_fraction,
            tables: known_tables(theme, self.theme_keys),
            validator: self.validator,
            modifier: match self.modifier {
                Some((keys, validator)) => Some((known_tables(theme, keys), validator)),
                None => None,
            },
            wrapper: self.wrapper,
            additional_css: self.additional_css,
            ordering_key: self.ordering_key,
            group: self.group,
            opacity_modifier: self.opacity_modifier,
        }
    }
}

impl UtilityBuilder {
    /// The content of a builder with a key and a handler, and nothing
    /// else.
    pub open spec fn new_view(key: Seq<char>, handler: UtilityHandlerView) -> UtilityBuilderView {
        UtilityBuilderView {
            key,
            handler: Some(handler),
            modifier: None,
            theme_keys: Seq::<Seq<char>>::empty(),
            validator: None,
            wrapper: None,
            supports_negative: false,
            supports_fraction: false,
            opacity_modifier: false,
            ordering_key: None,
            additional_css: None,
            group: None,
        }
    }

    /// A builder with a key and a handler, and nothing else.
    pub fn new(key: &str, handler: UtilityHandler) -> (b: UtilityBuilder)
        ensures
            b@ == Self::new_view(key@, handler@),
            b.key@ == key@,
            b.handler == Some(handler),
            b.modifier is None,
            b.theme_keys@.len() == 0,
            b.validator is None,
            b.wrapper is None,
            !b.supports_negative,
            !b.supports_fraction,
            !b.opacity_modifier,
            b.ordering_key is None,
            b.additional_css is None,
            b.group is None,
    {
        let b = UtilityBuilder {
            key: key.to_owned(),
            handler: Some(handler),
            theme_keys: Vec::new(),
            supports_negative: false,
            supports_fraction: false,
            opacity_modifier: false,
            modifier: None,
            validator: None,
            additional_css: None,
            wrapper: None,
            ordering_key: None,
            group: None,
        };
        assert(string_texts(b.theme_keys@) =~= Seq::<Seq<char>>::empty());
        b
    }

    /// Builds the utility against a theme: theme keys become the tables of
    /// the theme, and a key that the theme does not know is passed over.
    /// A builder without a handler builds nothing.
    pub fn parse(self, theme: &Theme) -> (r: Result<(String, Utility), ThemeParseError>)
        ensures
            match r {
                Ok((key, u)) => key == self.key && self.handler is Some && u@ == self@.built(
                    theme.model(),
                ),
                Err(e) => self.handler is None && e == ThemeParseError::MissingHandler(self.key),
            },
    {
        let UtilityBuilder {
            key,
            handler,
            modifier,
            theme_keys,
            validator,
            wrapper,
            supports_negative,
            supports_fraction,
            opacity_modifier,
            ordering_key,
            additional_css,
            group,
        } = self;
        let handler = match handler {
            Some(h) => h,
            None => {
                return Err(ThemeParseError::MissingHandler(key));
            },
        };
        let value_repr = ValueRepr { tables: collect_tables(theme, &theme_keys), validator };
        let modifier = match modifier {
            Some(m) => Some(m.parse(theme)),
            None => None,
        };
        Ok(
            (
                key,
                Utility {
                    handler,
                    supports_negative,
                    supports_fraction,
                    value_repr,
                    modifier,
                    wrapper,
                    additional_css,
                    ordering_key,
                    group,
                    opacity_modifier,
                },
            ),
        )
    }

    /// Adds a theme table to read values from, tried after those that are
    /// there.
    pub fn with_theme(&mut self, key: &str) -> (r: &mut UtilityBuilder)
        ensures
            *final(self) == *final(r),
            string_texts(r.theme_keys@) == string_texts(old(self).theme_keys@).push(key@),
            r.key == old(self).key,
            r.handler == old(self).handler,
            r.modifier == old(self).modifier,
            r.validator == old(self).validator,
            r.wrapper == old(self).wrapper,
            r.supports_negative == old(self).supports_negative,
            r.supports_fraction == old(self).supports_fraction,
            r.opacity_modifier == old(self).opacity_modifier,
            r.ordering_key == old(self).ordering_key,
            r.additional_css == old(self).additional_css,
            r.group == old(self).group,
    {
        self.theme_keys.push(key.to_owned());
        assert(string_texts(self.theme_keys@) =~= string_texts(old(self).theme_keys@).push(key@));
        self
    }

    pub fn support_negative(&mut self) -> (r: &mut UtilityBuilder)
        ensures
            *final(self) == *final(r),
            *r == (UtilityBuilder { supports_negative: true, ..*old(self) }),
    {
        self.supports_negative = true;
        self
    }

    pub fn support_fraction(&mut self) -> (r: &mut UtilityBuilder)
        ensures
            *final(self) == *final(r),
            *r == (UtilityBuilder { supports_fraction: true, ..*old(self) }),
    {
        self.supports_fraction = true;
        self
    }

    /// Lets a numeric modifier be the opacity of a color.
    pub fn with_opacity_modifier(&mut self) -> (r: &mut UtilityBuilder)
        ensures
            *final(self) == *final(r),
            *r == (UtilityBuilder { opacity_modifier: true, ..*old(self) }),
    {
        self.opacity_modifier = true;
        self
    }

    pub fn with_modifier(&mut self, modifier: RawValueRepr) -> (r: &mut UtilityBuilder)
        ensures
            *final(self) == *final(r),
            *r == (UtilityBuilder { modifier: Some(modifier), ..*old(self) }),
    {
        self.modifier = Some(modifier);
        self
    }

    pub fn with_validator(&mut self, validator: Validator) -> (r: &mut UtilityBuilder)
        ensures
            *final(self) == *final(r),
            *r == (UtilityBuilder { validator: Some(validator), ..*old(self) }),
    {
        self.validator = Some(validator);
        self
    }

    pub fn with_additional_css(&mut self, css: AdditionalCss) -> (r: &mut UtilityBuilder)
        ensures
            *final(self) == *final(r),
            *r == (UtilityBuilder { additional_css: Some(css), ..*old(self) }),
    {
        self.additional_css = Some(css);
        self
    }

    pub fn with_wrapper(&mut self, wrapper: &str) -> (r: &mut UtilityBuilder)
        ensures
            *final(self) == *final(r),
            r.wrapper is Some,
            r.wrapper.unwrap()@ == wrapper@,
            r.key == old(self).key,
            r.handler == old(self).handler,
            r.modifier == old(self).modifier,
            r.theme_keys == old(self).theme_keys,
            r.validator == old(self).validator,
            r.supports_negative == old(self).supports_negative,
            r.supports_fraction == old(self).supports_fraction,
            r.opacity_modifier == old(self).opacity_modifier,
            r.ordering_key == old(self).ordering_key,
            r.additional_css == old(self).additional_css,
            r.group == old(self).group,
    {
        self.wrapper = Some(wrapper.to_owned());
        self
    }

    pub fn with_ordering(&mut self, key: OrderingKey) -> (r: &mut UtilityBuilder)
        ensures
            *final(self) == *final(r),
            *r == (UtilityBuilder { ordering_key: Some(key), ..*old(self) }),
    {
        self.ordering_key = Some(key);
        self
    }

    pub fn with_group(&mut self, group: UtilityGroup) -> (r: &mut UtilityBuilder)
        ensures
            *final(self) == *final(r),
            *r == (UtilityBuilder { group: Some(group), ..*old(self) }),
    {
        self.group = Some(group);
        self
    }
}

/// A theme key that the theme does not know is passed over: the tables
/// are those of the keys before it and after it.
pub proof fn lemma_unknown_key_falls_through(
    theme: ThemeModel,
    before: Seq<Seq<char>>,
    unknown: Seq<char>,
    after: Seq<Seq<char>>,
)
    requires
        !theme.contains_key(unknown),
    ensures
        known_tables(theme, before + seq![unknown] + after) == known_tables(theme, before + after),
    decreases after.len(),
{
    if after.len() == 0 {
        assert(before + seq![unknown] + after =~= (before + after).push(unknown));
        assert((before + after).push(unknown).drop_last() =~= before + after);
    } else {
        let with = before + seq![unknown] + after;
        let without = before + after;
        assert(with.drop_last() =~= before + seq![unknown] + after.drop_last());
        assert(without.drop_last() =~= before + after.drop_last());
        assert(with.last() == after.last());
        assert(without.last() == after.last());
        lemma_unknown_key_falls_through(theme, before, unknown, after.drop_last());
    }
}

} // verus!
