use physx::bindings::{api_plan, cxx_variables, generated_include, structgen_plan, GeneratorStep};
use physx::compile::cc_compile;
use physx::components::{
    common, cooking, extensions, fastxml, foundation, geomutils, lowlevel, physx as physx_component,
    vehicle, SourceLists,
};
use physx::context::Context;
use physx::environment::{BuildMode, CompilerFamily, Environment, TargetFamily};
use physx::error::{BuildError, Descriptor};
use physx::plan::{BuildPlan, Define};
use physx::toolchain::{add_common, forces_clang, ndk_toolchain};

fn strings(names: &[&str]) -> Vec<String> {
    names.iter().map(|s| s.to_string()).collect()
}

fn one(name: &str) -> Vec<String> {
    vec![name.to_string()]
}

fn lists() -> SourceLists {
    SourceLists {
        common: one("CmCollection"),
        fastxml: one("PsFastXml"),
        lowlevelaabb: one("BpAABBManager"),
        lowleveldynamics: one("DyArticulation"),
        physxcharacterkinematic: one("CctController"),
        pvd: one("PxPvd"),
        scenequery: one("SqQuery"),
        simulationcontroller: one("ScScene"),
        task: one("TaskManager"),
        foundation: strings(&["FdAllocator", "FdString"]),
        foundation_unix: strings(&["FdUnixMutex", "FdUnixThread"]),
        foundation_windows: strings(&["FdWindowsMutex"]),
        lowlevel_pipeline: one("PxcContactCache"),
        lowlevel_software: one("PxsContext"),
        vehicle: one("PxVehicleDrive"),
        vehicle_metadata: one("PxVehicleMetaDataObjects"),
        extensions: one("ExtD6Joint"),
        extensions_serialization: one("SnSerialization"),
        extensions_xml: one("SnXmlSerialization"),
        extensions_binary: one("SnBinarySerialization"),
        extensions_tet: one("ExtTetMaker"),
        geomutils: one("GuBox"),
        geomutils_ccd: one("GuCCDSweep"),
        geomutils_common: one("GuBarycentric"),
        geomutils_contact: one("GuContactBoxBox"),
        geomutils_convex: one("GuConvexMesh"),
        geomutils_cooking: one("GuCookingBVH"),
        geomutils_distance: one("GuDistancePointBox"),
        geomutils_gjk: one("GuGJKSimplex"),
        geomutils_hf: one("GuHeightField"),
        geomutils_intersection: one("GuIntersectionRay"),
        geomutils_mesh: one("GuMidphaseBV4"),
        geomutils_pcm: one("GuPCMContactBoxBox"),
        geomutils_sweep: one("GuSweepBoxBox"),
        cooking: one("Cooking"),
        core: one("NpActor"),
        physxextensions: one("ExtDefaultCpuDispatcher"),
    }
}

fn all_component_dirs() -> Vec<String> {
    strings(&[
        "base/physx/source/fastxml/src",
        "base/physx/source/task/src",
        "base/physx/source/foundation",
        "base/physx/source/lowlevelaabb/src",
        "base/physx/source/lowleveldynamics/src",
        "base/physx/source/physxvehicle/src",
        "base/physx/source/physxextensions/src",
        "base/physx/source/physxcharacterkinematic/src",
        "base/physx/source/common/src",
        "base/physx/source/pvd/src",
        "base/physx/source/scenequery/src",
        "base/physx/source/simulationcontroller/src",
        "base/physx/include/common",
        "base/physx/source/common/include",
        "base/physx/source/pvd/include",
    ])
}

fn env(target_os: &str, family: TargetFamily, debug: bool) -> Environment {
    Environment {
        target: "x86_64-unknown-linux-gnu".to_string(),
        host: "x86_64-unknown-linux-gnu".to_string(),
        emit_debug_info: debug,
        target_compiler: None,
        target_os: target_os.to_string(),
        target_env: None,
        target_family: family,
        mode: BuildMode::Debug,
        static_crt: false,
        out_dir: "/out".to_string(),
        android_ndk_root: None,
        profile: false,
        structgen: false,
        cpp_warnings: false,
    }
}

fn windows(debug: bool) -> Environment {
    let mut e = env("windows", TargetFamily::Windows, debug);
    e.target = "x86_64-pc-windows-msvc".to_string();
    e.host = "x86_64-pc-windows-msvc".to_string();
    e.target_env = Some("msvc".to_string());
    e
}

fn names(plan: &BuildPlan) -> Vec<String> {
    plan.defines.iter().map(|d: &Define| d.name.clone()).collect()
}

fn pairs(plan: &BuildPlan) -> Vec<(String, Option<String>)> {
    plan.defines.iter().map(|d: &Define| (d.name.clone(), d.value.clone())).collect()
}

fn pair(name: &str, value: Option<&str>) -> (String, Option<String>) {
    (name.to_string(), value.map(|v| v.to_string()))
}

#[test]
fn context_starts_empty_below_base() {
    let ctx = Context::new("base", strings(&["base/physx/include"]));
    assert_eq!(ctx.root, "base/physx");
    assert_eq!(ctx.shared_root, "base/pxshared");
    assert!(ctx.includes.is_empty());
    assert!(ctx.builder.files.is_empty());
    assert!(ctx.has_dir("base/physx/include"));
    assert!(!ctx.has_dir("base/physx"));
}

#[test]
fn add_includes_joins_below_root() {
    let mut ctx = Context::new("base", vec![]);
    ctx.add_includes("source/lowlevel", &["api/include", "software/include"]);
    assert_eq!(
        ctx.includes,
        strings(&["base/physx/source/lowlevel/api/include", "base/physx/source/lowlevel/software/include"])
    );
    assert!(ctx.builder.files.is_empty());
}

#[test]
fn add_sources_adds_files_and_directory() {
    let mut ctx = Context::new("base", vec![]);
    ctx.add_sources("source/physx/src", &strings(&["NpActor", "NpScene.cc"]));
    assert_eq!(
        ctx.builder.files,
        strings(&["base/physx/source/physx/src/NpActor.cpp", "base/physx/source/physx/src/NpScene.cpp"])
    );
    assert_eq!(ctx.includes, strings(&["base/physx/source/physx/src"]));
    ctx.add_file("source/lowlevel/api/src/px_globals.cpp");
    assert_eq!(ctx.builder.files.len(), 3);
    assert_eq!(ctx.builder.files[2], "base/physx/source/lowlevel/api/src/px_globals.cpp");
}

#[test]
fn add_component_adds_existing_include_directories() {
    let mut ctx = Context::new("base", all_component_dirs());
    assert!(ctx.add_component("common", Some("src"), &one("CmCollection")).is_ok());
    assert_eq!(ctx.builder.files, strings(&["base/physx/source/common/src/CmCollection.cpp"]));
    assert_eq!(
        ctx.includes,
        strings(&[
            "base/physx/source/common/src",
            "base/physx/include/common",
            "base/physx/source/common/include",
        ])
    );
    let mut ctx = Context::new("base", all_component_dirs());
    assert!(ctx.add_component("task", Some("src"), &one("TaskManager")).is_ok());
    assert_eq!(ctx.includes, strings(&["base/physx/source/task/src"]));
    let mut ctx = Context::new("base", all_component_dirs());
    assert!(ctx.add_component("foundation", None, &one("FdString")).is_ok());
    assert_eq!(ctx.builder.files, strings(&["base/physx/source/foundation/FdString.cpp"]));
}

#[test]
fn missing_component_fails_and_changes_nothing() {
    let mut ctx = Context::new("base", strings(&["base/physx/source/common"]));
    match ctx.add_component("common", Some("src"), &one("CmCollection")) {
        Err(BuildError::MissingComponent(name)) => assert_eq!(name, "common"),
        other => panic!("{:?}", other),
    }
    assert!(ctx.includes.is_empty());
    assert!(ctx.builder.files.is_empty());
    assert!(matches!(common(&mut ctx, &lists()), Err(BuildError::MissingComponent(_))));
    assert!(matches!(vehicle(&mut ctx, &lists()), Err(BuildError::MissingComponent(_))));
    assert!(matches!(extensions(&mut ctx, &lists()), Err(BuildError::MissingComponent(_))));
    assert!(matches!(
        foundation(&mut ctx, &env("linux", TargetFamily::Unix, false), &lists()),
        Err(BuildError::MissingComponent(_))
    ));
    assert!(ctx.includes.is_empty());
    assert!(ctx.builder.files.is_empty());
}

#[test]
fn unix_family_selects_unix_sources() {
    let mut ctx = Context::new("base", all_component_dirs());
    foundation(&mut ctx, &env("linux", TargetFamily::Unix, false), &lists()).unwrap();
    assert_eq!(
        ctx.builder.files,
        strings(&[
            "base/physx/source/foundation/FdAllocator.cpp",
            "base/physx/source/foundation/FdString.cpp",
            "base/physx/source/foundation/unix/FdUnixMutex.cpp",
            "base/physx/source/foundation/unix/FdUnixThread.cpp",
        ])
    );
    assert!(!ctx.builder.files.iter().any(|f| f.contains("Windows")));
    assert_eq!(
        ctx.includes,
        strings(&["base/physx/source/foundation", "base/physx/source/foundation/unix"])
    );
}

#[test]
fn windows_family_selects_windows_sources() {
    let mut ctx = Context::new("base", all_component_dirs());
    foundation(&mut ctx, &windows(false), &lists()).unwrap();
    assert_eq!(
        ctx.builder.files,
        strings(&[
            "base/physx/source/foundation/FdAllocator.cpp",
            "base/physx/source/foundation/FdString.cpp",
            "base/physx/source/foundation/windows/FdWindowsMutex.cpp",
        ])
    );
    assert!(!ctx.builder.files.iter().any(|f| f.contains("Unix")));
}

#[test]
fn components_add_their_directories() {
    let mut ctx = Context::new("base", all_component_dirs());
    lowlevel(&mut ctx, &lists());
    assert_eq!(
        ctx.builder.files,
        strings(&[
            "base/physx/source/lowlevel/api/src/px_globals.cpp",
            "base/physx/source/lowlevel/common/src/pipeline/PxcContactCache.cpp",
            "base/physx/source/lowlevel/software/src/PxsContext.cpp",
        ])
    );
    assert_eq!(ctx.includes.len(), 7);
    assert_eq!(ctx.includes[6], "base/physx/source/lowlevel/software/include");

    let mut ctx = Context::new("base", all_component_dirs());
    cooking(&mut ctx, &lists());
    assert_eq!(ctx.builder.files, strings(&["base/physx/source/physxcooking/src/Cooking.cpp"]));
    assert_eq!(
        ctx.includes,
        strings(&["base/physx/source/physxcooking/src", "base/physx/source/include/cooking"])
    );

    let mut ctx = Context::new("base", all_component_dirs());
    geomutils(&mut ctx, &lists());
    assert_eq!(ctx.builder.files.len(), 13);
    assert_eq!(ctx.builder.files[0], "base/physx/source/geomutils/src/GuBox.cpp");
    assert_eq!(ctx.builder.files[12], "base/physx/source/geomutils/src/sweep/GuSweepBoxBox.cpp");
    assert_eq!(ctx.includes.len(), 14);
    assert_eq!(ctx.includes[1], "base/physx/source/geomutils/include");

    let mut ctx = Context::new("base", all_component_dirs());
    physx_component(&mut ctx, &lists());
    assert_eq!(
        ctx.builder.files,
        strings(&[
            "base/physx/source/physxmetadata/core/src/PxAutoGeneratedMetaDataObjects.cpp",
            "base/physx/source/physxmetadata/core/src/PxMetaDataObjects.cpp",
            "base/physx/source/immediatemode/src/NpImmediateMode.cpp",
            "base/physx/source/physx/src/NpActor.cpp",
            "base/physx/source/physx/src/gpu/PxGpu.cpp",
            "base/physx/source/physx/src/gpu/PxPhysXGpuModuleLoader.cpp",
            "base/physx/source/physxextensions/src/ExtDefaultCpuDispatcher.cpp",
            "base/physx/source/physx/src/device/linux/PhysXIndicatorLinux.cpp",
        ])
    );

    let mut ctx = Context::new("base", all_component_dirs());
    vehicle(&mut ctx, &lists()).unwrap();
    assert_eq!(
        ctx.builder.files,
        strings(&[
            "base/physx/source/physxvehicle/src/PxVehicleDrive.cpp",
            "base/physx/source/physxvehicle/src/physxmetadata/src/PxVehicleMetaDataObjects.cpp",
        ])
    );
    assert_eq!(ctx.includes[2], "base/physx/source/physxvehicle/src/physxmetadata/include");

    let mut ctx = Context::new("base", all_component_dirs());
    extensions(&mut ctx, &lists()).unwrap();
    assert_eq!(ctx.builder.files.len(), 6);
    assert_eq!(
        ctx.builder.files[1],
        "base/physx/source/physxmetadata/extensions/src/PxExtensionAutoGeneratedMetaDataObjects.cpp"
    );
    assert_eq!(ctx.includes[3], "base/physx/source/physxextensions/src/serialization/File");
    assert_eq!(ctx.includes.len(), 8);

    let mut ctx = Context::new("base", all_component_dirs());
    fastxml(&mut ctx, &lists()).unwrap();
    assert_eq!(ctx.builder.files, strings(&["base/physx/source/fastxml/src/PsFastXml.cpp"]));
}

#[test]
fn debug_build_on_windows_keeps_release_runtime() {
    let mut ctx = Context::new("base", vec![]);
    add_common(&mut ctx, &windows(true), CompilerFamily::Msvc).unwrap();
    let plan = &ctx.builder;
    assert!(plan.is_defined("NDEBUG"));
    assert!(!plan.is_defined("_DEBUG"));
    assert!(pairs(plan).contains(&pair("NDEBUG", Some("1"))));
    assert!(plan.has_flag("/MD"));
    assert!(!plan.has_flag("/MDd"));
    assert!(!plan.has_flag("/MT"));
    assert!(!plan.has_flag("/MTd"));
    assert!(plan.has_flag("/Z7"));
    assert!(plan.no_default_flags);
    assert_eq!(plan.flags, strings(&["-nologo", "/MP", "/MD", "/Z7", "/std:c++14"]));
    let mut e = windows(true);
    e.static_crt = true;
    e.mode = BuildMode::Profile;
    let mut ctx = Context::new("base", vec![]);
    add_common(&mut ctx, &e, CompilerFamily::Msvc).unwrap();
    assert_eq!(ctx.builder.flags, strings(&["-nologo", "/MP", "/MT", "/Z7", "/O2", "/std:c++14"]));
    assert!(!ctx.builder.is_defined("_DEBUG"));
}

#[test]
fn debug_build_on_posix_defines_engine_debug_markers() {
    let mut ctx = Context::new("base", vec![]);
    add_common(&mut ctx, &env("linux", TargetFamily::Unix, true), CompilerFamily::Clang).unwrap();
    let plan = &ctx.builder;
    assert!(plan.is_defined("PX_DEBUG"));
    assert!(plan.is_defined("PX_CHECKED"));
    assert!(plan.is_defined("NDEBUG"));
    assert!(!plan.is_defined("_DEBUG"));
    assert!(!plan.has_flag("/MD") && !plan.has_flag("/MT"));
    assert!(!plan.has_flag("/MDd") && !plan.has_flag("/MTd"));
    assert_eq!(plan.flags, strings(&["-std=c++14", "-w"]));
    assert!(!plan.no_default_flags);
    assert_eq!(
        names(plan),
        strings(&[
            "PX_PHYSX_STATIC_LIB",
            "PX_DEBUG",
            "PX_CHECKED",
            "PX_SUPPORT_PVD",
            "PX_SUPPORT_GPU_PHYSX",
            "PX_PHYSX_GPU_SHARED_LIB_NAME",
            "NDEBUG",
        ])
    );
}

#[test]
fn release_build_leaves_debug_markers_out() {
    let mut ctx = Context::new("base", vec![]);
    add_common(&mut ctx, &env("linux", TargetFamily::Unix, false), CompilerFamily::Gnu).unwrap();
    assert!(!ctx.builder.is_defined("PX_DEBUG"));
    assert!(!ctx.builder.is_defined("PX_CHECKED"));
    assert!(ctx.builder.is_defined("NDEBUG"));
    let mut ctx = Context::new("base", vec![]);
    add_common(&mut ctx, &windows(false), CompilerFamily::Msvc).unwrap();
    assert!(!ctx.builder.is_defined("PX_DEBUG"));
    assert!(!ctx.builder.has_flag("/Z7"));
}

#[test]
fn common_setup_defines_in_order() {
    let mut e = windows(true);
    e.profile = true;
    let mut ctx = Context::new("base", vec![]);
    add_common(&mut ctx, &e, CompilerFamily::Msvc).unwrap();
    assert_eq!(
        pairs(&ctx.builder),
        vec![
            pair("_CRT_SECURE_NO_WARNINGS", None),
            pair("_WINSOCK_DEPRECATED_NO_WARNINGS", None),
            pair("_ITERATOR_DEBUG_LEVEL", Some("0")),
            pair("PX_PHYSX_STATIC_LIB", None),
            pair("PX_DEBUG", None),
            pair("PX_CHECKED", None),
            pair("PX_SUPPORT_PVD", Some("1")),
            pair("PX_SUPPORT_GPU_PHYSX", Some("1")),
            pair("PX_PHYSX_GPU_SHARED_LIB_NAME", Some("libPhysXGpu_64.so")),
            pair("PX_PROFILE", Some("1")),
            pair("NDEBUG", Some("1")),
        ]
    );
    assert!(ctx.builder.cpp);
    assert_eq!(ctx.builder.compiler, None);
    assert_eq!(ctx.builder.pic, None);
}

#[test]
fn common_setup_adds_shared_includes() {
    let mut ctx = Context::new("base", vec![]);
    add_common(&mut ctx, &env("linux", TargetFamily::Unix, false), CompilerFamily::Clang).unwrap();
    assert_eq!(
        ctx.includes,
        strings(&[
            "base/pxshared/include",
            "base/physx/include",
            "base/physx/source/foundation/include",
            "base/physx/source/common/src",
            "base/physx/source/filebuf/include",
            "base/physx/include/cudamanager",
            "base/physx/source/physxgpu/include",
            "base/physx/include/gpu",
            "base/physx/source/physx/src/device",
            "base/physx/include/extensions",
            "base/physx/source/physxextensions/src",
        ])
    );
}

#[test]
fn clang_is_forced_on_linux_and_intel_mac_hosts() {
    let mut e = env("linux", TargetFamily::Unix, false);
    assert!(forces_clang(&e));
    let mut ctx = Context::new("base", vec![]);
    add_common(&mut ctx, &e, CompilerFamily::Clang).unwrap();
    assert_eq!(ctx.builder.compiler, Some("clang++".to_string()));
    e.target_compiler = Some("g++".to_string());
    assert!(!forces_clang(&e));
    let mut ctx = Context::new("base", vec![]);
    add_common(&mut ctx, &e, CompilerFamily::Gnu).unwrap();
    assert_eq!(ctx.builder.compiler, None);
    e.target_compiler = None;
    e.host = "x86_64-apple-darwin".to_string();
    assert!(forces_clang(&e));
    e.host = "aarch64-apple-darwin".to_string();
    assert!(!forces_clang(&e));
    assert!(!forces_clang(&windows(false)));
}

#[test]
fn clang_for_windows_makes_no_position_independent_code() {
    let mut ctx = Context::new("base", vec![]);
    add_common(&mut ctx, &windows(false), CompilerFamily::Clang).unwrap();
    assert_eq!(ctx.builder.pic, Some(false));
    let mut ctx = Context::new("base", vec![]);
    add_common(&mut ctx, &windows(false), CompilerFamily::Msvc).unwrap();
    assert_eq!(ctx.builder.pic, None);
    let mut ctx = Context::new("base", vec![]);
    add_common(&mut ctx, &env("linux", TargetFamily::Unix, false), CompilerFamily::Clang).unwrap();
    assert_eq!(ctx.builder.pic, None);
}

#[test]
fn unknown_compiler_family_is_fatal() {
    let mut ctx = Context::new("base", vec![]);
    assert!(matches!(
        add_common(&mut ctx, &env("linux", TargetFamily::Unix, false), CompilerFamily::Unknown),
        Err(BuildError::UnknownCompiler)
    ));
    assert!(ctx.includes.is_empty());
    assert!(ctx.builder.defines.is_empty());
    assert!(!ctx.builder.cpp);
}

#[test]
fn android_needs_ndk_toolchain_and_sysroot() {
    let mut e = env("android", TargetFamily::Unix, false);
    let mut ctx = Context::new("base", vec![]);
    assert!(matches!(
        add_common(&mut ctx, &e, CompilerFamily::Clang),
        Err(BuildError::MissingDescriptor(Descriptor::AndroidNdkRoot))
    ));
    e.android_ndk_root = Some("/ndk".to_string());
    e.host = "aarch64-unknown-linux-gnu".to_string();
    match add_common(&mut ctx, &e, CompilerFamily::Clang) {
        Err(BuildError::UnsupportedAndroidHost(host)) => assert_eq!(host, "aarch64-unknown-linux-gnu"),
        other => panic!("{:?}", other),
    }
    e.host = "x86_64-unknown-linux-gnu".to_string();
    match add_common(&mut ctx, &e, CompilerFamily::Clang) {
        Err(BuildError::MissingAndroidSysroot(path)) => {
            assert_eq!(path, "/ndk/toolchains/llvm/prebuilt/linux-x86_64/sysroot")
        }
        other => panic!("{:?}", other),
    }
    assert!(ctx.builder.defines.is_empty());
    let mut ctx =
        Context::new("base", strings(&["/ndk/toolchains/llvm/prebuilt/linux-x86_64/sysroot"]));
    add_common(&mut ctx, &e, CompilerFamily::Clang).unwrap();
    assert_eq!(
        ctx.builder.flags,
        strings(&["--sysroot=/ndk/toolchains/llvm/prebuilt/linux-x86_64/sysroot", "-std=c++14", "-w"])
    );
    assert_eq!(ctx.builder.cpp_link_stdlib, Some("c++".to_string()));
    assert_eq!(names(&ctx.builder)[0], "ANDROID");
    assert_eq!(ndk_toolchain("x86_64-pc-windows-msvc"), Some("windows-x86_64"));
    assert_eq!(ndk_toolchain("x86_64-apple-darwin"), Some("darwin-x86_64"));
    assert_eq!(ndk_toolchain("x86_64-unknown-linux-gnu"), Some("linux-x86_64"));
    assert_eq!(ndk_toolchain("riscv"), None);
}

#[test]
fn engine_plan_has_sorted_includes_without_duplicates() {
    let e = env("linux", TargetFamily::Unix, true);
    let plan = cc_compile("base", all_component_dirs(), &e, CompilerFamily::Clang, &lists()).unwrap();
    assert!(plan.cuda);
    assert!(plan.cpp);
    let mut sorted = plan.includes.clone();
    sorted.dedup();
    assert_eq!(sorted, plan.includes);
    for pairs in plan.includes.windows(2) {
        assert_eq!(physx::path::compare(&pairs[0], &pairs[1]), physx::path::Order::Before);
    }
    let count = |dir: &str| plan.includes.iter().filter(|d| d.as_str() == dir).count();
    assert_eq!(count("base/physx/source/common/src"), 1);
    assert_eq!(count("base/physx/source/physxextensions/src"), 1);
    assert_eq!(count("base/physx/source/pvd/include"), 1);
    assert_eq!(count("base/pxshared/include"), 1);
    assert_eq!(plan.files[0], "base/physx/source/fastxml/src/PsFastXml.cpp");
    assert_eq!(plan.files[1], "base/physx/source/task/src/TaskManager.cpp");
    assert!(plan.files.contains(&"base/physx/source/foundation/unix/FdUnixMutex.cpp".to_string()));
    assert!(!plan.files.iter().any(|f| f.contains("/windows/")));
    assert_eq!(
        plan.files.last().unwrap(),
        "base/physx/source/simulationcontroller/src/ScScene.cpp"
    );
    assert_eq!(plan.files.len(), 46);
    assert!(plan.is_defined("PX_DEBUG"));
}

#[test]
fn engine_plan_fails_on_first_missing_component() {
    let e = env("linux", TargetFamily::Unix, false);
    let mut dirs = all_component_dirs();
    dirs.retain(|d| d != "base/physx/source/pvd/src" && d != "base/physx/source/physxvehicle/src");
    match cc_compile("base", dirs, &e, CompilerFamily::Clang, &lists()) {
        Err(BuildError::MissingComponent(name)) => assert_eq!(name, "physxvehicle"),
        other => panic!("{:?}", other.map(|_| ())),
    }
    match cc_compile("base", vec![], &e, CompilerFamily::Clang, &lists()) {
        Err(BuildError::MissingComponent(name)) => assert_eq!(name, "fastxml"),
        other => panic!("{:?}", other.map(|_| ())),
    }
    assert!(matches!(
        cc_compile("base", all_component_dirs(), &e, CompilerFamily::Unknown, &lists()),
        Err(BuildError::UnknownCompiler)
    ));
}

#[test]
fn compiler_is_looked_up_under_four_names() {
    assert_eq!(
        cxx_variables("x86_64-unknown-linux-gnu"),
        strings(&["CXX_x86_64-unknown-linux-gnu", "CXX_x86_64_unknown_linux_gnu", "TARGET_CXX", "CXX"])
    );
}

#[test]
fn generated_layouts_are_chosen_by_target() {
    assert_eq!(
        generated_include("x86_64-pc-windows-msvc"),
        Some("src/generated/x86_64-pc-windows-msvc".to_string())
    );
    assert_eq!(generated_include("x86_64-unknown-linux-gnu"), Some("src/generated/unix".to_string()));
    assert_eq!(generated_include("aarch64-linux-android"), Some("src/generated/unix".to_string()));
    assert_eq!(generated_include("aarch64-apple-darwin"), Some("src/generated/unix".to_string()));
    assert_eq!(generated_include("x86_64-pc-windows-gnu"), None);
    assert_eq!(generated_include("wasm32-unknown-unknown"), None);
}

#[test]
fn interface_plan_for_posix() {
    let plan = api_plan(&env("linux", TargetFamily::Unix, true), CompilerFamily::Clang).unwrap();
    assert!(plan.cpp && plan.cuda);
    assert_eq!(plan.opt_level, Some(3));
    assert_eq!(plan.debug, Some(false));
    assert_eq!(plan.use_plt, Some(false));
    assert_eq!(plan.warnings, Some(false));
    assert_eq!(plan.extra_warnings, Some(false));
    assert_eq!(plan.compiler, Some("clang++".to_string()));
    assert_eq!(plan.flags, strings(&["-std=c++14", "-w"]));
    assert_eq!(
        pairs(&plan),
        vec![
            pair("NDEBUG", None),
            pair("PX_PHYSX_STATIC_LIB", None),
            pair("PX_PHYSX_GPU_SHARED_LIB_NAME", Some("libPhysXGpu_64.so")),
        ]
    );
    assert_eq!(plan.includes.len(), 19);
    assert_eq!(plan.includes[0], "physx/physx/include");
    assert_eq!(plan.includes[17], "physx/physx/source/lowlevelaabb/include");
    assert_eq!(plan.includes[18], "src/generated/unix");
    assert_eq!(plan.files, strings(&["src/physx_api.cpp"]));
    assert!(!plan.is_defined("_DEBUG"));
    assert!(!plan.is_defined("PX_DEBUG"));
}

#[test]
fn interface_plan_for_windows() {
    let mut e = windows(true);
    e.profile = true;
    e.cpp_warnings = true;
    e.structgen = true;
    let plan = api_plan(&e, CompilerFamily::Msvc).unwrap();
    assert_eq!(plan.flags, strings(&["/std:c++14"]));
    assert_eq!(plan.compiler, None);
    assert_eq!(plan.includes[18], "/out");
    assert!(pairs(&plan).contains(&pair("PX_PROFILE", Some("1"))));
    e.cpp_warnings = false;
    e.structgen = false;
    let plan = api_plan(&e, CompilerFamily::Msvc).unwrap();
    assert_eq!(plan.flags, strings(&["/std:c++14", "/w"]));
    assert_eq!(plan.includes[18], "src/generated/x86_64-pc-windows-msvc");
}

#[test]
fn interface_plan_fails_on_unknown_target_or_compiler() {
    let mut e = env("none", TargetFamily::Unix, false);
    e.target = "wasm32-unknown-unknown".to_string();
    match api_plan(&e, CompilerFamily::Clang) {
        Err(BuildError::UnknownTarget(name)) => assert_eq!(name, "wasm32-unknown-unknown"),
        other => panic!("{:?}", other.map(|_| ())),
    }
    assert!(matches!(api_plan(&e, CompilerFamily::Unknown), Err(BuildError::UnknownCompiler)));
    e.structgen = true;
    assert!(api_plan(&e, CompilerFamily::Gnu).is_ok());
}

#[test]
fn generator_plan_for_native_build() {
    let mut e = env("linux", TargetFamily::Unix, false);
    e.structgen = true;
    let plan = structgen_plan(&e, CompilerFamily::Clang).unwrap();
    assert_eq!(
        plan.compile_args,
        strings(&["-w", "-o", "/out/structgen", "src/structgen/structgen.cpp"])
    );
    assert_eq!(plan.program, "/out/structgen");
    assert_eq!(plan.emulator, None);
    assert_eq!(plan.work_dir, "/out");
    e.cpp_warnings = true;
    let plan = structgen_plan(&e, CompilerFamily::Gnu).unwrap();
    assert_eq!(plan.compile_args, strings(&["-o", "/out/structgen", "src/structgen/structgen.cpp"]));
}

#[test]
fn generator_plan_for_cross_build_uses_emulator() {
    let mut e = env("linux", TargetFamily::Unix, false);
    e.target = "aarch64-unknown-linux-gnu".to_string();
    let plan = structgen_plan(&e, CompilerFamily::Gnu).unwrap();
    assert_eq!(
        plan.compile_args,
        strings(&["-w", "-static", "-o", "/out/structgen", "src/structgen/structgen.cpp"])
    );
    assert_eq!(plan.emulator, Some("qemu-aarch64".to_string()));
    e.host = "aarch64-unknown-linux-gnu".to_string();
    let plan = structgen_plan(&e, CompilerFamily::Gnu).unwrap();
    assert_eq!(plan.emulator, None);
}

#[test]
fn generator_plan_for_windows_host() {
    let plan = structgen_plan(&windows(false), CompilerFamily::Msvc).unwrap();
    assert_eq!(
        plan.compile_args,
        strings(&["/w", "/Fe/out/structgen", "/Fo/out/structgen.obj", "src/structgen/structgen.cpp"])
    );
    assert_eq!(plan.program, "/out/structgen.exe");
    assert!(matches!(
        structgen_plan(&windows(false), CompilerFamily::Unknown),
        Err(BuildError::UnknownCompiler)
    ));
}

#[test]
fn generator_steps_follow_each_other() {
    assert_eq!(GeneratorStep::Compile.advance(true, false).unwrap(), GeneratorStep::Locate);
    assert_eq!(GeneratorStep::Locate.advance(true, false).unwrap(), GeneratorStep::Run);
    assert_eq!(GeneratorStep::Run.advance(true, true).unwrap(), GeneratorStep::Done);
    assert_eq!(GeneratorStep::Done.advance(false, false).unwrap(), GeneratorStep::Done);
    assert!(matches!(
        GeneratorStep::Compile.advance(false, false),
        Err(BuildError::GeneratorNotCompiled)
    ));
    assert!(matches!(GeneratorStep::Locate.advance(false, true), Err(BuildError::GeneratorNotFound)));
    assert!(matches!(
        GeneratorStep::Run.advance(false, true),
        Err(BuildError::GeneratorNotRun { emulated: true })
    ));
    assert!(matches!(
        GeneratorStep::Run.advance(false, false),
        Err(BuildError::GeneratorNotRun { emulated: false })
    ));
}

#[test]
fn plan_records_settings_in_order() {
    let mut plan = BuildPlan::new();
    assert!(!plan.cpp && !plan.cuda && !plan.no_default_flags);
    plan.define("A", None);
    plan.define("B", Some("2"));
    plan.flag("-x");
    plan.file("f.cpp".to_string());
    plan.include_dir("inc".to_string());
    assert_eq!(pairs(&plan), vec![pair("A", None), pair("B", Some("2"))]);
    assert_eq!(plan.flags, strings(&["-x"]));
    assert_eq!(plan.files, strings(&["f.cpp"]));
    assert_eq!(plan.includes, strings(&["inc"]));
    assert!(plan.is_defined("B") && !plan.is_defined("C"));
    assert!(plan.has_flag("-x") && !plan.has_flag("-y"));
}

#[test]
fn interface_forces_clang_on_linux_hosts_only() {
    let mut e = env("linux", TargetFamily::Unix, false);
    assert!(physx::bindings::api_forces_clang(&e));
    e.host = "x86_64-apple-darwin".to_string();
    assert!(!physx::bindings::api_forces_clang(&e));
    assert_eq!(api_plan(&e, CompilerFamily::Clang).unwrap().compiler, None);
    e.host = "aarch64-unknown-linux-gnu".to_string();
    e.target_compiler = Some("g++".to_string());
    assert!(!physx::bindings::api_forces_clang(&e));
}
