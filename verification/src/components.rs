//! The components of the engine, and what each of them contributes to the
//! build: source files for the compiler, and directories for its include
//! path.

use crate::context::{component_dir, Context, ContextView};
use crate::environment::{Environment, TargetFamily};
use crate::error::{BuildError, ErrorView};
use crate::text::owned;
use vstd::prelude::*;
use vstd::string::*;

verus! {

/// The lists of source files, one for each group of sources. A list holds
/// the names of the files without their extension.
#[derive(Debug)]
pub struct SourceLists {
    pub common: Vec<String>,
    pub fastxml: Vec<String>,
    pub lowlevelaabb: Vec<String>,
    pub lowleveldynamics: Vec<String>,
    pub physxcharacterkinematic: Vec<String>,
    pub pvd: Vec<String>,
    pub scenequery: Vec<String>,
    pub simulationcontroller: Vec<String>,
    pub task: Vec<String>,
    pub foundation: Vec<String>,
    pub foundation_unix: Vec<String>,
    pub foundation_windows: Vec<String>,
    pub lowlevel_pipeline: Vec<String>,
    pub lowlevel_software: Vec<String>,
    pub vehicle: Vec<String>,
    pub vehicle_metadata: Vec<String>,
    pub extensions: Vec<String>,
    pub extensions_serialization: Vec<String>,
    pub extensions_xml: Vec<String>,
    pub extensions_binary: Vec<String>,
    pub extensions_tet: Vec<String>,
    pub geomutils: Vec<String>,
    pub geomutils_ccd: Vec<String>,
    pub geomutils_common: Vec<String>,
    pub geomutils_contact: Vec<String>,
    pub geomutils_convex: Vec<String>,
    pub geomutils_cooking: Vec<String>,
    pub geomutils_distance: Vec<String>,
    pub geomutils_gjk: Vec<String>,
    pub geomutils_hf: Vec<String>,
    pub geomutils_intersection: Vec<String>,
    pub geomutils_mesh: Vec<String>,
    pub geomutils_pcm: Vec<String>,
    pub geomutils_sweep: Vec<String>,
    pub cooking: Vec<String>,
    pub core: Vec<String>,
    pub physxextensions: Vec<String>,
}

/// What a component that cannot be added leaves behind: the error that
/// names it, and the context as it was.
pub open spec fn component_refused(
    before: &Context,
    after: &Context,
    r: Result<(), BuildError>,
    name: Seq<char>,
) -> bool {
    &&& r is Err
    &&& r->Err_0@ == ErrorView::MissingComponent(name)
    &&& *after == *before
}

/// Adds the component `common`, the code that the other components share.
pub fn common(ctx: &mut Context, lists: &SourceLists) -> (r: Result<(), BuildError>)
    ensures
        if old(ctx)@.has_component("common"@, Some("src"@)) {
            &&& r is Ok
            &&& final(ctx)@ == old(ctx)@.add_component(
                "common"@,
                Some("src"@),
                lists.common.deep_view(),
            )
        } else {
            component_refused(old(ctx), final(ctx), r, "common"@)
        },
{
    ctx.add_component("common", Some("src"), &lists.common)
}

/// Adds the component `fastxml`, the XML reader.
pub fn fastxml(ctx: &mut Context, lists: &SourceLists) -> (r: Result<(), BuildError>)
    ensures
        if old(ctx)@.has_component("fastxml"@, Some("src"@)) {
            &&& r is Ok
            &&& final(ctx)@ == old(ctx)@.add_component(
                "fastxml"@,
                Some("src"@),
                lists.fastxml.deep_view(),
            )
        } else {
            component_refused(old(ctx), final(ctx), r, "fastxml"@)
        },
{
    ctx.add_component("fastxml", Some("src"), &lists.fastxml)
}

/// Adds the component `lowlevelaabb`, the broad phase.
pub fn lowlevelaabb(ctx: &mut Context, lists: &SourceLists) -> (r: Result<(), BuildError>)
    ensures
        if old(ctx)@.has_component("lowlevelaabb"@, Some("src"@)) {
            &&& r is Ok
            &&& final(ctx)@ == old(ctx)@.add_component(
                "lowlevelaabb"@,
                Some("src"@),
                lists.lowlevelaabb.deep_view(),
            )
        } else {
            component_refused(old(ctx), final(ctx), r, "lowlevelaabb"@)
        },
{
    ctx.add_component("lowlevelaabb", Some("src"), &lists.lowlevelaabb)
}

/// Adds the component `lowleveldynamics`, the constraint solver.
pub fn lowleveldynamics(ctx: &mut Context, lists: &SourceLists) -> (r: Result<(), BuildError>)
    ensures
        if old(ctx)@.has_component("lowleveldynamics"@, Some("src"@)) {
            &&& r is Ok
            &&& final(ctx)@ == old(ctx)@.add_component(
                "lowleveldynamics"@,
                Some("src"@),
                lists.lowleveldynamics.deep_view(),
            )
        } else {
            component_refused(old(ctx), final(ctx), r, "lowleveldynamics"@)
        },
{
    ctx.add_component("lowleveldynamics", Some("src"), &lists.lowleveldynamics)
}

/// Adds the component `physxcharacterkinematic`, the character controllers.
pub fn physxcharacterkinematic(ctx: &mut Context, lists: &SourceLists) -> (r: Result<(), BuildError>)
    ensures
        if old(ctx)@.has_component("physxcharacterkinematic"@, Some("src"@)) {
            &&& r is Ok
            &&& final(ctx)@ == old(ctx)@.add_component(
                "physxcharacterkinematic"@,
                Some("src"@),
                lists.physxcharacterkinematic.deep_view(),
            )
        } else {
            component_refused(old(ctx), final(ctx), r, "physxcharacterkinematic"@)
        },
{
    ctx.add_component("physxcharacterkinematic", Some("src"), &lists.physxcharacterkinematic)
}

/// Adds the component `pvd`, the visual debugger.
pub fn pvd(ctx: &mut Context, lists: &SourceLists) -> (r: Result<(), BuildError>)
    ensures
        if old(ctx)@.has_component("pvd"@, Some("src"@)) {
            &&& r is Ok
            &&& final(ctx)@ == old(ctx)@.add_component(
                "pvd"@,
                Some("src"@),
                lists.pvd.deep_view(),
            )
        } else {
            component_refused(old(ctx), final(ctx), r, "pvd"@)
        },
{
    ctx.add_component("pvd", Some("src"), &lists.pvd)
}

/// Adds the component `scenequery`, the scene queries.
pub fn scenequery(ctx: &mut Context, lists: &SourceLists) -> (r: Result<(), BuildError>)
    ensures
        if old(ctx)@.has_component("scenequery"@, Some("src"@)) {
            &&& r is Ok
            &&& final(ctx)@ == old(ctx)@.add_component(
                "scenequery"@,
                Some("src"@),
                lists.scenequery.deep_view(),
            )
        } else {
            component_refused(old(ctx), final(ctx), r, "scenequery"@)
        },
{
    ctx.add_component("scenequery", Some("src"), &lists.scenequery)
}

/// Adds the component `simulationcontroller`, the simulation controller.
pub fn simulationcontroller(ctx: &mut Context, lists: &SourceLists) -> (r: Result<(), BuildError>)
    ensures
        if old(ctx)@.has_component("simulationcontroller"@, Some("src"@)) {
            &&& r is Ok
            &&& final(ctx)@ == old(ctx)@.add_component(
                "simulationcontroller"@,
                Some("src"@),
                lists.simulationcontroller.deep_view(),
            )
        } else {
            component_refused(old(ctx), final(ctx), r, "simulationcontroller"@)
        },
{
    ctx.add_component("simulationcontroller", Some("src"), &lists.simulationcontroller)
}

/// Adds the component `task`, the task manager.
pub fn task(ctx: &mut Context, lists: &SourceLists) -> (r: Result<(), BuildError>)
    ensures
        if old(ctx)@.has_component("task"@, Some("src"@)) {
            &&& r is Ok
            &&& final(ctx)@ == old(ctx)@.add_component(
                "task"@,
                Some("src"@),
                lists.task.deep_view(),
            )
        } else {
            component_refused(old(ctx), final(ctx), r, "task"@)
        },
{
    ctx.add_component("task", Some("src"), &lists.task)
}

/// The directory of the sources that only one family of targets needs.
pub open spec fn platform_dir(family: TargetFamily) -> Seq<char> {
    "source/foundation/"@ + family.name()
}

/// The list of the sources that only one family of targets needs: the
/// list for Unix for a target of the Unix family, the list for Windows for a
/// target of the Windows family, and never the other.
pub open spec fn platform_sources(family: TargetFamily, lists: &SourceLists) -> Seq<Seq<char>> {
    match family {
        TargetFamily::Unix => lists.foundation_unix.deep_view(),
        TargetFamily::Windows => lists.foundation_windows.deep_view(),
    }
}

/// The context after the component `foundation` was added.
pub open spec fn with_foundation(
    ctx: ContextView,
    family: TargetFamily,
    lists: &SourceLists,
) -> ContextView {
    ctx.add_component("foundation"@, None, lists.foundation.deep_view()).add_sources(
        platform_dir(family),
        platform_sources(family, lists),
    )
}

/// Adds the component `foundation`: the sources that every target needs,
/// and those of the family of the target.
pub fn foundation(ctx: &mut Context, env: &Environment, lists: &SourceLists) -> (r: Result<
    (),
    BuildError,
>)
    ensures
        if old(ctx)@.has_component("foundation"@, None) {
            &&& r is Ok
            &&& final(ctx)@ == with_foundation(old(ctx)@, env.target_family, lists)
        } else {
            component_refused(old(ctx), final(ctx), r, "foundation"@)
        },
{
    match ctx.add_component("foundation", None, &lists.foundation) {
        Ok(()) => {},
        Err(error) => {
            return Err(error);
        },
    }
    let mut dir = String::from_str("source/foundation/");
    dir.append(env.target_family.dir_name());
    match env.target_family {
        TargetFamily::Unix => {
            ctx.add_sources(dir.as_str(), &lists.foundation_unix);
        },
        TargetFamily::Windows => {
            ctx.add_sources(dir.as_str(), &lists.foundation_windows);
        },
    }
    Ok(())
}

/// The context after the component `lowlevel` was added.
pub open spec fn with_lowlevel(ctx: ContextView, lists: &SourceLists) -> ContextView {
    ctx.add_file("source/lowlevel/api/src/px_globals.cpp"@).add_sources(
        "source/lowlevel/common/src/pipeline"@,
        lists.lowlevel_pipeline.deep_view(),
    ).add_sources("source/lowlevel/software/src"@, lists.lowlevel_software.deep_view()).add_includes(
        "source/lowlevel"@,
        seq![
            "api/include"@,
            "common/include/collision"@,
            "common/include/pipeline"@,
            "common/include/utils"@,
            "software/include"@,
        ],
    )
}

/// Adds the component `lowlevel`: its interface, the pipeline, and the
/// implementation that runs on the processor.
pub fn lowlevel(ctx: &mut Context, lists: &SourceLists)
    ensures
        final(ctx)@ == with_lowlevel(old(ctx)@, lists),
{
    ctx.add_file("source/lowlevel/api/src/px_globals.cpp");
    ctx.add_sources("source/lowlevel/common/src/pipeline", &lists.lowlevel_pipeline);
    ctx.add_sources("source/lowlevel/software/src", &lists.lowlevel_software);
    let dirs = [
        "api/include",
        "common/include/collision",
        "common/include/pipeline",
        "common/include/utils",
        "software/include",
    ];
    assert(dirs.deep_view() =~= seq![
        "api/include"@,
        "common/include/collision"@,
        "common/include/pipeline"@,
        "common/include/utils"@,
        "software/include"@,
    ]);
    ctx.add_includes("source/lowlevel", &dirs);
}

/// The context after the component `physxvehicle` was added.
pub open spec fn with_vehicle(ctx: ContextView, lists: &SourceLists) -> ContextView {
    ctx.add_component("physxvehicle"@, Some("src"@), lists.vehicle.deep_view()).add_sources(
        "source/physxvehicle/src/physxmetadata/src"@,
        lists.vehicle_metadata.deep_view(),
    ).add_includes("source/physxvehicle/src/physxmetadata"@, seq!["include"@])
}

/// Adds the component `physxvehicle` with its metadata.
pub fn vehicle(ctx: &mut Context, lists: &SourceLists) -> (r: Result<(), BuildError>)
    ensures
        if old(ctx)@.has_component("physxvehicle"@, Some("src"@)) {
            &&& r is Ok
            &&& final(ctx)@ == with_vehicle(old(ctx)@, lists)
        } else {
            component_refused(old(ctx), final(ctx), r, "physxvehicle"@)
        },
{
    match ctx.add_component("physxvehicle", Some("src"), &lists.vehicle) {
        Ok(()) => {},
        Err(error) => {
            return Err(error);
        },
    }
    ctx.add_sources("source/physxvehicle/src/physxmetadata/src", &lists.vehicle_metadata);
    let dirs = ["include"];
    assert(dirs.deep_view() =~= seq!["include"@]);
    ctx.add_includes("source/physxvehicle/src/physxmetadata", &dirs);
    Ok(())
}

/// The context after the component `physxextensions` was added.
pub open spec fn with_extensions(ctx: ContextView, lists: &SourceLists) -> ContextView {
    ctx.add_component("physxextensions"@, Some("src"@), lists.extensions.deep_view()).add_sources(
        "source/physxmetadata/extensions/src"@,
        seq!["PxExtensionAutoGeneratedMetaDataObjects"@],
    ).add_sources(
        "source/physxextensions/src/serialization"@,
        lists.extensions_serialization.deep_view(),
    ).add_includes("source/physxextensions/src/serialization"@, seq!["File"@]).add_sources(
        "source/physxextensions/src/serialization/Xml"@,
        lists.extensions_xml.deep_view(),
    ).add_sources(
        "source/physxextensions/src/serialization/Binary"@,
        lists.extensions_binary.deep_view(),
    ).add_sources("source/physxextensions/src/tet"@, lists.extensions_tet.deep_view()).add_includes(
        "source/physxmetadata/extensions"@,
        seq!["include"@],
    )
}

/// Adds the component `physxextensions`: the extensions themselves, their
/// metadata, the serialization in its two formats, and the tetrahedron
/// mesher.
pub fn extensions(ctx: &mut Context, lists: &SourceLists) -> (r: Result<(), BuildError>)
    ensures
        if old(ctx)@.has_component("physxextensions"@, Some("src"@)) {
            &&& r is Ok
            &&& final(ctx)@ == with_extensions(old(ctx)@, lists)
        } else {
            component_refused(old(ctx), final(ctx), r, "physxextensions"@)
        },
{
    match ctx.add_component("physxextensions", Some("src"), &lists.extensions) {
        Ok(()) => {},
        Err(error) => {
            return Err(error);
        },
    }
    let names = ["PxExtensionAutoGeneratedMetaDataObjects"];
    assert(names.deep_view() =~= seq!["PxExtensionAutoGeneratedMetaDataObjects"@]);
    let metadata = owned(&names);
    ctx.add_sources("source/physxmetadata/extensions/src", &metadata);
    ctx.add_sources("source/physxextensions/src/serialization", &lists.extensions_serialization);
    let file_dirs = ["File"];
    assert(file_dirs.deep_view() =~= seq!["File"@]);
    ctx.add_includes("source/physxextensions/src/serialization", &file_dirs);
    ctx.add_sources("source/physxextensions/src/serialization/Xml", &lists.extensions_xml);
    ctx.add_sources("source/physxextensions/src/serialization/Binary", &lists.extensions_binary);
    ctx.add_sources("source/physxextensions/src/tet", &lists.extensions_tet);
    let dirs = ["include"];
    assert(dirs.deep_view() =~= seq!["include"@]);
    ctx.add_includes("source/physxmetadata/extensions", &dirs);
    Ok(())
}

/// The context after the component `geomutils` was added.
pub open spec fn with_geomutils(ctx: ContextView, lists: &SourceLists) -> ContextView {
    ctx.add_sources("source/geomutils/src"@, lists.geomutils.deep_view()).add_includes(
        "source/geomutils"@,
        seq!["include"@],
    ).add_sources(
        "source/geomutils/src/ccd"@,
        lists.geomutils_ccd.deep_view(),
    ).add_sources(
        "source/geomutils/src/common"@,
        lists.geomutils_common.deep_view(),
    ).add_sources(
        "source/geomutils/src/contact"@,
        lists.geomutils_contact.deep_view(),
    ).add_sources(
        "source/geomutils/src/convex"@,
        lists.geomutils_convex.deep_view(),
    ).add_sources(
        "source/geomutils/src/cooking"@,
        lists.geomutils_cooking.deep_view(),
    ).add_sources(
        "source/geomutils/src/distance"@,
        lists.geomutils_distance.deep_view(),
    ).add_sources(
        "source/geomutils/src/gjk"@,
        lists.geomutils_gjk.deep_view(),
    ).add_sources(
        "source/geomutils/src/hf"@,
        lists.geomutils_hf.deep_view(),
    ).add_sources(
        "source/geomutils/src/intersection"@,
        lists.geomutils_intersection.deep_view(),
    ).add_sources(
        "source/geomutils/src/mesh"@,
        lists.geomutils_mesh.deep_view(),
    ).add_sources(
        "source/geomutils/src/pcm"@,
        lists.geomutils_pcm.deep_view(),
    ).add_sources(
        "source/geomutils/src/sweep"@,
        lists.geomutils_sweep.deep_view(),
    )
}

/// Adds the component `geomutils`: the geometry code, directory by
/// directory.
pub fn geomutils(ctx: &mut Context, lists: &SourceLists)
    ensures
        final(ctx)@ == with_geomutils(old(ctx)@, lists),
{
    ctx.add_sources("source/geomutils/src", &lists.geomutils);
    let dirs = ["include"];
    assert(dirs.deep_view() =~= seq!["include"@]);
    ctx.add_includes("source/geomutils", &dirs);
    ctx.add_sources("source/geomutils/src/ccd", &lists.geomutils_ccd);
    ctx.add_sources("source/geomutils/src/common", &lists.geomutils_common);
    ctx.add_sources("source/geomutils/src/contact", &lists.geomutils_contact);
    ctx.add_sources("source/geomutils/src/convex", &lists.geomutils_convex);
    ctx.add_sources("source/geomutils/src/cooking", &lists.geomutils_cooking);
    ctx.add_sources("source/geomutils/src/distance", &lists.geomutils_distance);
    ctx.add_sources("source/geomutils/src/gjk", &lists.geomutils_gjk);
    ctx.add_sources("source/geomutils/src/hf", &lists.geomutils_hf);
    ctx.add_sources("source/geomutils/src/intersection", &lists.geomutils_intersection);
    ctx.add_sources("source/geomutils/src/mesh", &lists.geomutils_mesh);
    ctx.add_sources("source/geomutils/src/pcm", &lists.geomutils_pcm);
    ctx.add_sources("source/geomutils/src/sweep", &lists.geomutils_sweep);
}

/// The context after the component `physxcooking` was added.
pub open spec fn with_cooking(ctx: ContextView, lists: &SourceLists) -> ContextView {
    ctx.add_sources("source/physxcooking/src"@, lists.cooking.deep_view()).add_includes(
        "source/include"@,
        seq!["cooking"@],
    )
}

/// Adds the component `physxcooking`.
pub fn cooking(ctx: &mut Context, lists: &SourceLists)
    ensures
        final(ctx)@ == with_cooking(old(ctx)@, lists),
{
    ctx.add_sources("source/physxcooking/src", &lists.cooking);
    let dirs = ["cooking"];
    assert(dirs.deep_view() =~= seq!["cooking"@]);
    ctx.add_includes("source/include", &dirs);
}

/// The context after the component `physx` was added.
pub open spec fn with_physx(ctx: ContextView, lists: &SourceLists) -> ContextView {
    ctx.add_sources(
        "source/physxmetadata/core/src"@,
        seq!["PxAutoGeneratedMetaDataObjects"@, "PxMetaDataObjects"@],
    ).add_includes("source"@, seq!["physxmetadata/core/include"@]).add_file(
        "source/immediatemode/src/NpImmediateMode.cpp"@,
    ).add_sources("source/physx/src"@, lists.core.deep_view()).add_sources(
        "source/physx/src/gpu"@,
        seq!["PxGpu"@, "PxPhysXGpuModuleLoader"@],
    ).add_sources("source/physxextensions/src"@, lists.physxextensions.deep_view()).add_sources(
        "source/physx/src/device/linux"@,
        seq!["PhysXIndicatorLinux"@],
    )
}

/// Adds the component `physx`: the metadata of the core, the immediate
/// mode, the core itself, the loader of the GPU module, and the device
/// indicator.
pub fn physx(ctx: &mut Context, lists: &SourceLists)
    ensures
        final(ctx)@ == with_physx(old(ctx)@, lists),
{
    let names = ["PxAutoGeneratedMetaDataObjects", "PxMetaDataObjects"];
    assert(names.deep_view() =~= seq!["PxAutoGeneratedMetaDataObjects"@, "PxMetaDataObjects"@]);
    let metadata = owned(&names);
    ctx.add_sources("source/physxmetadata/core/src", &metadata);
    let dirs = ["physxmetadata/core/include"];
    assert(dirs.deep_view() =~= seq!["physxmetadata/core/include"@]);
    ctx.add_includes("source", &dirs);
    ctx.add_file("source/immediatemode/src/NpImmediateMode.cpp");
    ctx.add_sources("source/physx/src", &lists.core);
    let gpu_names = ["PxGpu", "PxPhysXGpuModuleLoader"];
    assert(gpu_names.deep_view() =~= seq!["PxGpu"@, "PxPhysXGpuModuleLoader"@]);
    let gpu = owned(&gpu_names);
    ctx.add_sources("source/physx/src/gpu", &gpu);
    ctx.add_sources("source/physxextensions/src", &lists.physxextensions);
    let device_names = ["PhysXIndicatorLinux"];
    assert(device_names.deep_view() =~= seq!["PhysXIndicatorLinux"@]);
    let device = owned(&device_names);
    ctx.add_sources("source/physx/src/device/linux", &device);
}

} // verus!
