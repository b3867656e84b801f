use vstd::prelude::*;
use crate::builders::{
    create_general_commands, create_navigation_commands, create_profile_commands,
    create_profile_commands_for_context, create_region_commands,
    create_region_commands_for_context, is_general_catalog, is_navigation_catalog,
    is_profile_catalog, is_region_catalog, is_selector, other_names, other_regions,
};
use crate::commands::{Command, CommandCategory, CommandView, RequirementView, UIElement, commands_view};
use crate::context::{CommandContext, ContextView, satisfies, satisfies_all};
use crate::service_catalog::{
    create_service_commands, create_service_commands_with_context, fills_slots, is_service_entry,
    service_entries, slot_enabled,
};

verus! {

/// A command may be used in a context: it is enabled and all its requirements hold.
pub open spec fn applicable(ctx: ContextView, c: CommandView) -> bool {
    c.enabled && satisfies_all(ctx, c.requirements)
}

/// Predicate form of `applicable`.
pub open spec fn applicable_in(ctx: ContextView) -> spec_fn(CommandView) -> bool {
    |c: CommandView| applicable(ctx, c)
}

/// The commands of a catalog that may be used in a context, in catalog order.
pub open spec fn resolved(cs: Seq<CommandView>, ctx: ContextView) -> Seq<CommandView> {
    cs.filter(applicable_in(ctx))
}

/// Whether a command may be used in a context.
pub fn is_command_applicable(command: &Command, context: &CommandContext) -> (r: bool)
    ensures
        r == applicable(context@, command@),
{
    if !command.enabled {
        return false;
    }
    let r = context.satisfies_all_requirements(command.context_requirements.as_slice());
    assert(command@.requirements =~= command.context_requirements@.map_values(
        |q: crate::commands::ContextRequirement| q@,
    ));
    r
}

/// The commands of `catalog` that may be used in `context`, in catalog order.
pub fn resolve(catalog: &Vec<Command>, context: &CommandContext) -> (r: Vec<Command>)
    ensures
        commands_view(r@) == resolved(commands_view(catalog@), context@),
{
    let ghost cs = commands_view(catalog@);
    let ghost p = applicable_in(context@);
    let mut r: Vec<Command> = Vec::new();
    let mut i: usize = 0;
    while i < catalog.len()
        invariant
            cs == commands_view(catalog@),
            p == applicable_in(context@),
            i <= catalog@.len(),
            commands_view(r@) == cs.take(i as int).filter(p),
        decreases catalog.len() - i,
    {
        proof {
            assert(cs.take(i + 1) == cs.take(i as int).push(cs[i as int]));
            cs.take(i as int).lemma_filter_push(cs[i as int], p);
        }
        if is_command_applicable(&catalog[i], context) {
            let c = catalog[i].clone();
            let ghost before = r@;
            r.push(c);
            assert(commands_view(r@) =~= commands_view(before).push(cs[i as int]));
        }
        i = i + 1;
    }
    assert(cs.take(catalog@.len() as int) == cs);
    r
}

/// The full catalog for a context: navigation, profiles, regions, services and
/// general commands, in that order.
pub open spec fn is_catalog(cs: Seq<CommandView>, ctx: ContextView) -> bool {
    let a = 8int;
    let b = a + other_names(ctx.profiles, ctx.profile).len() + 1;
    let c = b + other_regions(ctx.regions, ctx.region).len() + 1;
    let d = c + service_entries().len();
    &&& cs.len() == d + 2
    &&& is_navigation_catalog(cs.subrange(0, a))
    &&& is_profile_catalog(cs.subrange(a, b), ctx)
    &&& is_region_catalog(cs.subrange(b, c), ctx)
    &&& fills_slots(cs.subrange(c, d), service_entries(), Some(ctx))
    &&& is_general_catalog(cs.subrange(d, d + 2))
}

/// Builds the full catalog for a context, before any filtering.
pub fn build_catalog(context: &CommandContext) -> (r: Vec<Command>)
    ensures
        is_catalog(commands_view(r@), context@),
{
    let mut r = create_navigation_commands();
    let mut p = create_profile_commands_for_context(context);
    let mut q = create_region_commands_for_context(context);
    let mut s = create_service_commands_with_context(context);
    let mut g = create_general_commands();
    let ghost (v0, v1, v2, v3, v4) = (r@, p@, q@, s@, g@);
    r.append(&mut p);
    r.append(&mut q);
    r.append(&mut s);
    r.append(&mut g);
    proof {
        let all = commands_view(r@);
        let a = v0.len() as int;
        let b = a + v1.len();
        let c = b + v2.len();
        let d = c + v3.len();
        assert(r@ == v0 + v1 + v2 + v3 + v4);
        assert(all.subrange(0, a) =~= commands_view(v0));
        assert(all.subrange(a, b) =~= commands_view(v1));
        assert(all.subrange(b, c) =~= commands_view(v2));
        assert(all.subrange(c, d) =~= commands_view(v3));
        assert(all.subrange(d, d + 2) =~= commands_view(v4));
    }
    r
}

/// Every command of a context's catalog whose requirements hold is enabled.
pub proof fn lemma_catalog_enabled(cs: Seq<CommandView>, ctx: ContextView, i: int)
    requires
        is_catalog(cs, ctx),
        0 <= i < cs.len(),
        satisfies_all(ctx, cs[i].requirements),
    ensures
        cs[i].enabled,
{
    let a = 8int;
    let b = a + other_names(ctx.profiles, ctx.profile).len() + 1;
    let c = b + other_regions(ctx.regions, ctx.region).len() + 1;
    let d = c + service_entries().len();
    if i < a {
        assert(cs.subrange(0, a)[i] == cs[i]);
        if i >= 2 {
            assert(crate::builders::is_service_nav(cs.subrange(0, a)[i], crate::service::all_services()[i - 2]));
        }
    } else if i < b {
        assert(cs.subrange(a, b)[i - a] == cs[i]);
        if i - a >= 1 {
            assert(crate::builders::is_profile_switch(
                cs.subrange(a, b)[i - a],
                other_names(ctx.profiles, ctx.profile)[i - a - 1],
            ));
        }
    } else if i < c {
        assert(cs.subrange(b, c)[i - b] == cs[i]);
        if i - b >= 1 {
            assert(crate::builders::is_region_switch(
                cs.subrange(b, c)[i - b],
                other_regions(ctx.regions, ctx.region)[i - b - 1],
            ));
        }
    } else if i < d {
        let e = service_entries()[i - c];
        assert(cs.subrange(c, d)[i - c] == cs[i]);
        assert(is_service_entry(cs[i], e.0, e.1, e.2, slot_enabled(Some(ctx), e.0, e.2)));
        assert(satisfies(ctx, cs[i].requirements[0]));
        if e.2 {
            assert(satisfies(ctx, cs[i].requirements[1]));
        }
    } else {
        assert(cs.subrange(d, d + 2)[i - d] == cs[i]);
    }
}

/// In a context's catalog, a command is among the resolved commands exactly when
/// every one of its requirements holds in that context.
pub proof fn lemma_requirement_gating(cs: Seq<CommandView>, ctx: ContextView, i: int)
    requires
        is_catalog(cs, ctx),
        0 <= i < cs.len(),
    ensures
        resolved(cs, ctx).contains(cs[i]) <==> satisfies_all(ctx, cs[i].requirements),
{
    if satisfies_all(ctx, cs[i].requirements) {
        lemma_catalog_enabled(cs, ctx, i);
        assert(applicable_in(ctx)(cs[i]));
        cs.lemma_filter_contains(applicable_in(ctx), i);
    }
    if resolved(cs, ctx).contains(cs[i]) {
        let k = choose|k: int| 0 <= k < resolved(cs, ctx).len() && resolved(cs, ctx)[k] == cs[i];
        cs.lemma_filter_pred(applicable_in(ctx), k);
    }
}

/// A resolved list holds no disabled command and no command with a failing requirement.
pub proof fn lemma_resolved_applicable(cs: Seq<CommandView>, ctx: ContextView, j: int)
    requires
        0 <= j < resolved(cs, ctx).len(),
    ensures
        resolved(cs, ctx)[j].enabled,
        satisfies_all(ctx, resolved(cs, ctx)[j].requirements),
{
    cs.lemma_filter_pred(applicable_in(ctx), j);
}

/// Holds the catalog that commands are resolved from.
pub struct CommandRegistry {
    pub commands: Vec<Command>,
}

impl View for CommandRegistry {
    type V = Seq<CommandView>;

    open spec fn view(&self) -> Seq<CommandView> {
        commands_view(self.commands@)
    }
}

/// The catalog without a context: navigation, the two selector commands,
/// every service action enabled, and the general commands.
pub open spec fn is_static_catalog(cs: Seq<CommandView>) -> bool {
    let d = 10int + service_entries().len();
    &&& cs.len() == d + 2
    &&& is_navigation_catalog(cs.subrange(0, 8))
    &&& is_selector(
        cs[8],
        "profile.switch"@,
        CommandCategory::Profile,
        UIElement::ProfileSelector,
        RequirementView::ProfilesAvailable,
    )
    &&& is_selector(
        cs[9],
        "region.switch"@,
        CommandCategory::Region,
        UIElement::RegionSelector,
        RequirementView::RegionsAvailable,
    )
    &&& fills_slots(cs.subrange(10, d), service_entries(), None)
    &&& is_general_catalog(cs.subrange(d, d + 2))
}

/// The catalog built for a context without enabling by context: profile and
/// region commands for that context, every service action enabled.
pub open spec fn is_context_catalog(cs: Seq<CommandView>, ctx: ContextView) -> bool {
    let a = 8int;
    let b = a + other_names(ctx.profiles, ctx.profile).len() + 1;
    let c = b + other_regions(ctx.regions, ctx.region).len() + 1;
    let d = c + service_entries().len();
    &&& cs.len() == d + 2
    &&& is_navigation_catalog(cs.subrange(0, a))
    &&& is_profile_catalog(cs.subrange(a, b), ctx)
    &&& is_region_catalog(cs.subrange(b, c), ctx)
    &&& fills_slots(cs.subrange(c, d), service_entries(), None)
    &&& is_general_catalog(cs.subrange(d, d + 2))
}

impl CommandRegistry {
    /// A registry with the catalog that needs no context.
    pub fn new() -> (r: Self)
        ensures
            is_static_catalog(r@),
    {
        let mut r = create_navigation_commands();
        let mut p = create_profile_commands();
        let mut q = create_region_commands();
        let mut s = create_service_commands();
        let mut g = create_general_commands();
        let ghost (v0, v1, v2, v3, v4) = (r@, p@, q@, s@, g@);
        r.append(&mut p);
        r.append(&mut q);
        r.append(&mut s);
        r.append(&mut g);
        proof {
            let all = commands_view(r@);
            let d = 10int + v3.len();
            assert(r@ == v0 + v1 + v2 + v3 + v4);
            assert(all.subrange(0, 8) =~= commands_view(v0));
            assert(all[8] == v1[0]@);
            assert(all[9] == v2[0]@);
            assert(all.subrange(10, d) =~= commands_view(v3));
            assert(all.subrange(d, d + 2) =~= commands_view(v4));
        }
        CommandRegistry { commands: r }
    }

    /// A registry whose profile and region commands follow `context`.
    pub fn new_with_context(context: &CommandContext) -> (r: Self)
        ensures
            is_context_catalog(r@, context@),
    {
        let mut r = create_navigation_commands();
        let mut p = create_profile_commands_for_context(context);
        let mut q = create_region_commands_for_context(context);
        let mut s = create_service_commands();
        let mut g = create_general_commands();
        let ghost (v0, v1, v2, v3, v4) = (r@, p@, q@, s@, g@);
        r.append(&mut p);
        r.append(&mut q);
        r.append(&mut s);
        r.append(&mut g);
        proof {
            let all = commands_view(r@);
            let a = v0.len() as int;
            let b = a + v1.len();
            let c = b + v2.len();
            let d = c + v3.len();
            assert(r@ == v0 + v1 + v2 + v3 + v4);
            assert(all.subrange(0, a) =~= commands_view(v0));
            assert(all.subrange(a, b) =~= commands_view(v1));
            assert(all.subrange(b, c) =~= commands_view(v2));
            assert(all.subrange(c, d) =~= commands_view(v3));
            assert(all.subrange(d, d + 2) =~= commands_view(v4));
        }
        CommandRegistry { commands: r }
    }

    /// The registry's commands that may be used in `context`, in catalog order.
    pub fn get_commands_for_context(&self, context: &CommandContext) -> (r: Vec<Command>)
        ensures
            commands_view(r@) == resolved(self@, context@),
    {
        resolve(&self.commands, context)
    }

    /// The commands of the context's own catalog that may be used in it.
    pub fn get_context_aware_commands(context: &CommandContext) -> (r: Vec<Command>)
        ensures
            exists|cs: Seq<CommandView>|
                is_catalog(cs, context@) && commands_view(r@) == resolved(cs, context@),
    {
        let catalog = build_catalog(context);
        resolve(&catalog, context)
    }

    /// The profile commands for a context.
    pub fn create_profile_commands_for_context(context: &CommandContext) -> (r: Vec<Command>)
        ensures
            is_profile_catalog(commands_view(r@), context@),
    {
        create_profile_commands_for_context(context)
    }

    /// The region commands for a context.
    pub fn create_region_commands_for_context(context: &CommandContext) -> (r: Vec<Command>)
        ensures
            is_region_catalog(commands_view(r@), context@),
    {
        create_region_commands_for_context(context)
    }
}

} // verus!
