//! Adding utilities to a design system one by one.

use vstd::prelude::*;
use vstd::string::*;
use crate::builder::UtilityBuilder;
use crate::context::DesignSystem;
use crate::preset::helpers::registry_view;
use crate::process::UtilityHandler;

verus! {

/// A builder on its way into a design system. The utility is registered by
/// `finish`.
pub struct UtilityAdder<'i> {
    pub design: &'i mut DesignSystem,
    pub builder: UtilityBuilder,
}

impl<'i> UtilityAdder<'i> {
    pub fn new(design: &'i mut DesignSystem, key: &str, handler: UtilityHandler) -> (a: UtilityAdder<'i>)
        ensures
            *a.design == *old(design),
            *final(a.design) == *final(design),
            a.builder@ == (UtilityBuilder::new_view(key@, handler@)),
    {
        UtilityAdder { design, builder: UtilityBuilder::new(key, handler) }
    }

    /// Builds the utility against the theme of the design system and
    /// registers it.
    pub fn finish(self)
        requires
            self.builder@.handler is Some,
        ensures
            registry_view(final(self.design).utilities@) == registry_view(
                old(self.design).utilities@,
            ).push((self.builder@.key, self.builder@.built(old(self.design).theme.model()))),
            final(self.design).theme == old(self.design).theme,
            final(self.design).variants == old(self.design).variants,
    {
        let UtilityAdder { design, builder } = self;
        let ghost before = registry_view(design.utilities@);
        match builder.parse(&design.theme) {
            Ok((key, utility)) => {
                design.register_utility(key, utility);
                assert(registry_view(design.utilities@) =~= before.push((key@, utility@)));
            },
            Err(_) => {},
        }
    }
}

/// Adds utilities to a design system.
pub struct RuleAdder<'a> {
    pub design: &'a mut DesignSystem,
}

impl<'a> RuleAdder<'a> {
    pub fn new(design: &'a mut DesignSystem) -> (r: RuleAdder<'a>)
        ensures
            *r.design == *old(design),
            *final(r.design) == *final(design),
    {
        RuleAdder { design }
    }

    /// Ends the adding and gives the design system back.
    pub fn done(self)
        ensures
            *final(self.design) == *old(self.design),
    {
        let RuleAdder { design } = self;
    }

    /// Starts a utility with a key and a handler.
    pub fn add<'b>(&'b mut self, key: &str, handler: UtilityHandler) -> (a: UtilityAdder<'b>)
        ensures
            *a.design == *old(self).design,
            *final(a.design) == *final(self).design,
            *final(final(self).design) == *final(old(self).design),
            a.builder@ == (UtilityBuilder::new_view(key@, handler@)),
    {
        UtilityAdder::new(self.design, key, handler)
    }
}

/// Adds one utility to a design system through the adders.
pub fn add_utility(design: &mut DesignSystem, key: &str, handler: UtilityHandler)
    ensures
        registry_view(final(design).utilities@) == registry_view(old(design).utilities@).push(
            (key@, UtilityBuilder::new_view(key@, handler@).built(old(design).theme.model())),
        ),
{
    let ghost start = registry_view(design.utilities@);
    let ghost theme = design.theme.model();
    let mut rules = RuleAdder::new(design);
    assert(registry_view(rules.design.utilities@) == start);
    let a = rules.add(key, handler);
    assert(registry_view(a.design.utilities@) == start);
    a.finish();
    rules.done();
}

} // verus!
