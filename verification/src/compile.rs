//! The plan for compiling the engine: the common setup, then every
//! component in its turn, then the include path, sorted and without
//! repetitions.

use crate::components::{
    common,
    cooking,
    extensions,
    fastxml,
    foundation,
    geomutils,
    lowlevel,
    lowlevelaabb,
    lowleveldynamics,
    physx,
    physxcharacterkinematic,
    pvd,
    scenequery,
    simulationcontroller,
    task,
    vehicle,
    with_cooking,
    with_extensions,
    with_foundation,
    with_geomutils,
    with_lowlevel,
    with_physx,
    with_vehicle,
    SourceLists,
};
use crate::context::{Context, ContextView};
use crate::environment::{CompilerFamily, Environment};
use crate::error::{BuildError, ErrorView};
use crate::includes::{ascending, finalize_includes, same_members};
use crate::path::{join, joined};
use crate::plan::{BuildPlan, PlanView};
use crate::toolchain::{add_common, common_error, common_setup};
use vstd::prelude::*;
use vstd::string::*;

verus! {

/// The context of a build that has not begun, for the trees below `base`.
pub open spec fn initial_context(base: Seq<char>, tree: Seq<Seq<char>>) -> ContextView {
    ContextView {
        root: joined(base, "physx"@),
        shared_root: joined(base, "pxshared"@),
        tree,
        includes: Seq::empty(),
        builder: PlanView::empty(),
    }
}

/// The first component whose source directory does not exist, among those
/// that the build begins with.
pub open spec fn missing_base_component(ctx: ContextView) -> Option<Seq<char>> {
    if !ctx.has_component("fastxml"@, Some("src"@)) {
        Some("fastxml"@)
    } else if !ctx.has_component("task"@, Some("src"@)) {
        Some("task"@)
    } else if !ctx.has_component("foundation"@, None) {
        Some("foundation"@)
    } else if !ctx.has_component("lowlevelaabb"@, Some("src"@)) {
        Some("lowlevelaabb"@)
    } else if !ctx.has_component("lowleveldynamics"@, Some("src"@)) {
        Some("lowleveldynamics"@)
    } else {
        None
    }
}

/// The first component whose source directory does not exist, among those
/// that the build goes on with.
pub open spec fn missing_middle_component(ctx: ContextView) -> Option<Seq<char>> {
    if !ctx.has_component("physxvehicle"@, Some("src"@)) {
        Some("physxvehicle"@)
    } else if !ctx.has_component("physxextensions"@, Some("src"@)) {
        Some("physxextensions"@)
    } else if !ctx.has_component("physxcharacterkinematic"@, Some("src"@)) {
        Some("physxcharacterkinematic"@)
    } else if !ctx.has_component("common"@, Some("src"@)) {
        Some("common"@)
    } else {
        None
    }
}

/// The first component whose source directory does not exist, among those
/// that the build ends with.
pub open spec fn missing_top_component(ctx: ContextView) -> Option<Seq<char>> {
    if !ctx.has_component("pvd"@, Some("src"@)) {
        Some("pvd"@)
    } else if !ctx.has_component("scenequery"@, Some("src"@)) {
        Some("scenequery"@)
    } else if !ctx.has_component("simulationcontroller"@, Some("src"@)) {
        Some("simulationcontroller"@)
    } else {
        None
    }
}

/// The first component, in the order of the build, whose source directory
/// does not exist.
pub open spec fn missing_component(ctx: ContextView) -> Option<Seq<char>> {
    if missing_base_component(ctx) is Some {
        missing_base_component(ctx)
    } else if missing_middle_component(ctx) is Some {
        missing_middle_component(ctx)
    } else {
        missing_top_component(ctx)
    }
}

/// Why the engine cannot be compiled, if it cannot: the common setup
/// cannot be made, or a component is missing.
pub open spec fn engine_error(
    ctx: ContextView,
    env: &Environment,
    family: CompilerFamily,
) -> Option<ErrorView> {
    match common_error(ctx, env, family) {
        Some(error) => Some(error),
        None => match missing_component(ctx) {
            Some(name) => Some(ErrorView::MissingComponent(name)),
            None => None,
        },
    }
}

/// The context after the components that the build begins with.
pub open spec fn base_sources(ctx: ContextView, env: &Environment, lists: &SourceLists) -> ContextView {
    let c = ctx.add_component("fastxml"@, Some("src"@), lists.fastxml.deep_view());
    let c = c.add_component("task"@, Some("src"@), lists.task.deep_view());
    let c = with_foundation(c, env.target_family, lists);
    let c = with_lowlevel(c, lists);
    let c = c.add_component("lowlevelaabb"@, Some("src"@), lists.lowlevelaabb.deep_view());
    c.add_component("lowleveldynamics"@, Some("src"@), lists.lowleveldynamics.deep_view())
}

/// The context after the components that the build goes on with.
pub open spec fn middle_sources(ctx: ContextView, lists: &SourceLists) -> ContextView {
    let c = with_vehicle(ctx, lists);
    let c = with_extensions(c, lists);
    let c = c.add_component(
        "physxcharacterkinematic"@,
        Some("src"@),
        lists.physxcharacterkinematic.deep_view(),
    );
    c.add_component("common"@, Some("src"@), lists.common.deep_view())
}

/// The context after the components that the build ends with.
pub open spec fn top_sources(ctx: ContextView, lists: &SourceLists) -> ContextView {
    let c = with_geomutils(ctx, lists);
    let c = with_cooking(c, lists);
    let c = c.add_component("pvd"@, Some("src"@), lists.pvd.deep_view());
    let c = with_physx(c, lists);
    let c = c.add_component("scenequery"@, Some("src"@), lists.scenequery.deep_view());
    c.add_component("simulationcontroller"@, Some("src"@), lists.simulationcontroller.deep_view())
}

/// The context after the common setup and every component, in the order of
/// the build, and the include directory of the debugger at the end.
pub open spec fn engine_sources(
    ctx: ContextView,
    env: &Environment,
    family: CompilerFamily,
    lists: &SourceLists,
) -> ContextView {
    let c = top_sources(
        middle_sources(base_sources(common_setup(ctx, env, family), env, lists), lists),
        lists,
    );
    ContextView { includes: c.includes.push(joined(c.root, "source/pvd/include"@)), ..c }
}

/// Whether `plan` is the plan for compiling the engine from what the
/// components gathered in `sources`: it is their plan for the compiler, with
/// CUDA switched on, and its include path holds the include directories that
/// they gathered, sorted and each of them once.
pub open spec fn compiles_engine(plan: PlanView, sources: ContextView) -> bool {
    &&& ascending(plan.includes)
    &&& same_members(plan.includes, sources.builder.includes + sources.includes)
    &&& plan == (PlanView { includes: plan.includes, cuda: true, ..sources.builder })
}

/// Neither the common setup nor a component changes where the trees are
/// or what exists in them.
pub open spec fn same_tree(a: ContextView, b: ContextView) -> bool {
    a.root == b.root && a.shared_root == b.shared_root && a.tree == b.tree
}

/// What a group of components leaves behind: the error that names the
/// first of them that is missing, or the context with all that they add, in
/// the same trees.
spec fn gathers(
    before: ContextView,
    after: ContextView,
    r: Result<(), BuildError>,
    missing: Option<Seq<char>>,
    sources: ContextView,
) -> bool {
    match missing {
        Some(name) => r is Err && r->Err_0@ == ErrorView::MissingComponent(name),
        None => r is Ok && after == sources && same_tree(after, before),
    }
}

/// Adds the components that the build begins with.
fn add_base_components(ctx: &mut Context, env: &Environment, lists: &SourceLists) -> (r: Result<
    (),
    BuildError,
>)
    ensures
        gathers(
            old(ctx)@,
            final(ctx)@,
            r,
            missing_base_component(old(ctx)@),
            base_sources(old(ctx)@, env, lists),
        ),
{
    fastxml(ctx, lists)?;
    assert(same_tree(ctx@, old(ctx)@));
    task(ctx, lists)?;
    assert(same_tree(ctx@, old(ctx)@));
    foundation(ctx, env, lists)?;
    assert(same_tree(ctx@, old(ctx)@));
    lowlevel(ctx, lists);
    assert(same_tree(ctx@, old(ctx)@));
    lowlevelaabb(ctx, lists)?;
    assert(same_tree(ctx@, old(ctx)@));
    lowleveldynamics(ctx, lists)?;
    assert(same_tree(ctx@, old(ctx)@));
    Ok(())
}

/// Adds the components that the build goes on with.
fn add_middle_components(ctx: &mut Context, lists: &SourceLists) -> (r: Result<(), BuildError>)
    ensures
        gathers(
            old(ctx)@,
            final(ctx)@,
            r,
            missing_middle_component(old(ctx)@),
            middle_sources(old(ctx)@, lists),
        ),
{
    vehicle(ctx, lists)?;
    assert(same_tree(ctx@, old(ctx)@));
    extensions(ctx, lists)?;
    assert(same_tree(ctx@, old(ctx)@));
    physxcharacterkinematic(ctx, lists)?;
    assert(same_tree(ctx@, old(ctx)@));
    common(ctx, lists)?;
    assert(same_tree(ctx@, old(ctx)@));
    Ok(())
}

/// Adds the components that the build ends with.
fn add_top_components(ctx: &mut Context, lists: &SourceLists) -> (r: Result<(), BuildError>)
    ensures
        gathers(
            old(ctx)@,
            final(ctx)@,
            r,
            missing_top_component(old(ctx)@),
            top_sources(old(ctx)@, lists),
        ),
{
    geomutils(ctx, lists);
    assert(same_tree(ctx@, old(ctx)@));
    cooking(ctx, lists);
    assert(same_tree(ctx@, old(ctx)@));
    pvd(ctx, lists)?;
    assert(same_tree(ctx@, old(ctx)@));
    physx(ctx, lists);
    assert(same_tree(ctx@, old(ctx)@));
    scenequery(ctx, lists)?;
    assert(same_tree(ctx@, old(ctx)@));
    simulationcontroller(ctx, lists)?;
    assert(same_tree(ctx@, old(ctx)@));
    Ok(())
}

/// Makes the plan for compiling the engine's sources, which lie below
/// `base`, into the library `physx`.
///
/// `tree` holds the directories that were found to exist, `family` is the
/// family of the compiler, and `lists` holds the names of the source files.
/// Nothing is compiled where a step fails: there is no plan then.
pub fn cc_compile(
    base: &str,
    tree: Vec<String>,
    env: &Environment,
    family: CompilerFamily,
    lists: &SourceLists,
) -> (r: Result<BuildPlan, BuildError>)
    ensures
        match engine_error(initial_context(base@, tree.deep_view()), env, family) {
            Some(error) => r is Err && r->Err_0@ == error,
            None => r is Ok && compiles_engine(
                r->Ok_0@,
                engine_sources(initial_context(base@, tree.deep_view()), env, family, lists),
            ),
        },
{
    let mut ctx = Context::new(base, tree);
    let ghost start = ctx@;
    add_common(&mut ctx, env, family)?;
    assert(same_tree(ctx@, start));
    add_base_components(&mut ctx, env, lists)?;
    add_middle_components(&mut ctx, lists)?;
    add_top_components(&mut ctx, lists)?;
    let ghost gathered = ctx@.includes;
    ctx.includes.push(join(ctx.root.as_str(), "source/pvd/include"));
    assert(ctx@.includes =~= gathered.push(joined(ctx@.root, "source/pvd/include"@)));
    assert(ctx@.builder.includes =~= Seq::<Seq<char>>::empty());
    assert(ctx@.builder.includes + ctx@.includes =~= ctx@.includes);
    let Context { root: _, shared_root: _, tree: _, includes, builder } = ctx;
    let mut plan = builder;
    plan.includes = finalize_includes(&includes);
    plan.cuda = true;
    Ok(plan)
}

} // verus!
