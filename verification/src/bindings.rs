//! The plan for compiling the engine's C interface, and for making the
//! struct layouts that it is compiled against.

use crate::environment::{CompilerFamily, Environment};
use crate::error::{BuildError, ErrorView};
use crate::path::{join, joined, set_extension, with_extension};
use crate::plan::{BuildPlan, PlanView};
use crate::text::{contains, ends_with, occurs_at, occurs_in, replace, replaced, same, starts_with};
use vstd::prelude::*;
use vstd::string::*;

verus! {

/// The names under which the user may have asked for a C++ compiler, most
/// specific first: for the target as it is written, for the target with `_`
/// for every `-`, for any target, and for any compilation.
pub open spec fn cxx_names(target: Seq<char>) -> Seq<Seq<char>> {
    seq![
        "CXX_"@ + target,
        "CXX_"@ + replaced(target, '-', "_"@),
        "TARGET_CXX"@,
        "CXX"@,
    ]
}

/// The names under which the user may have asked for a C++ compiler.
pub fn cxx_variables(target: &str) -> (names: Vec<String>)
    ensures
        names.deep_view() == cxx_names(target@),
{
    let mut exact = String::from_str("CXX_");
    exact.append(target);
    let mut under = String::from_str("CXX_");
    under.append(replace(target, '-', "_").as_str());
    let mut names: Vec<String> = Vec::new();
    names.push(exact);
    names.push(under);
    names.push(String::from_str("TARGET_CXX"));
    names.push(String::from_str("CXX"));
    assert(names.deep_view() =~= cxx_names(target@));
    names
}

/// The directory of the struct layouts that were generated beforehand for
/// `target`, where there are any.
pub open spec fn generated_dir(target: Seq<char>) -> Option<Seq<char>> {
    if target == "x86_64-pc-windows-msvc"@ {
        Some(joined("src/generated"@, target))
    } else if occurs_in(target, "-linux-"@) || occurs_at(
        target,
        "apple-darwin"@,
        target.len() - "apple-darwin"@.len(),
    ) {
        Some(joined("src/generated"@, "unix"@))
    } else {
        None
    }
}

/// The directory of the struct layouts: the output directory where this
/// build generates them, else the directory of those generated beforehand.
pub open spec fn layout_dir(env: &Environment) -> Option<Seq<char>> {
    if env.structgen {
        Some(env.out_dir@)
    } else {
        generated_dir(env.target@)
    }
}

/// The flag that sets the language standard.
pub open spec fn standard_flag(family: CompilerFamily) -> Seq<char> {
    if family == CompilerFamily::Msvc {
        "/std:c++14"@
    } else {
        "-std=c++14"@
    }
}

/// The flag that silences all warnings.
pub open spec fn quiet_flag(family: CompilerFamily) -> Seq<char> {
    if family == CompilerFamily::Msvc {
        "/w"@
    } else {
        "-w"@
    }
}

/// Why the C interface cannot be compiled, if it cannot.
pub open spec fn api_error(env: &Environment, family: CompilerFamily) -> Option<ErrorView> {
    if family == CompilerFamily::Unknown {
        Some(ErrorView::UnknownCompiler)
    } else if layout_dir(env) is None {
        Some(ErrorView::UnknownTarget(env.target@))
    } else {
        None
    }
}

/// The include directories of the C interface, before that of the struct
/// layouts.
pub open spec fn api_includes() -> Seq<Seq<char>> {
    seq![
        "physx/physx/include"@,
        "physx/pxshared/include"@,
        "physx/physx/source/foundation/include"@,
        "physx/physx/source/physx/src"@,
        "physx/physx/source/lowleveldynamics/include"@,
        "physx/physx/source/common/src"@,
        "physx/physx/source/lowlevel/api/include"@,
        "physx/physx/source/geomutils/src"@,
        "physx/physx/source/scenequery/include"@,
        "physx/physx/source/geomutils/include"@,
        "physx/physx/source/simulationcontroller/include"@,
        "physx/physx/source/lowlevel/software/include"@,
        "physx/physx/source/lowlevel/common/include/pipeline"@,
        "physx/physx/source/lowlevel/common/include/utils"@,
        "physx/physx/source/geomutils/src/contact"@,
        "physx/physx/source/geomutils/src/pcm"@,
        "physx/physx/source/simulationcontroller/src"@,
        "physx/physx/source/lowlevelaabb/include"@,
    ]
}

/// Whether the toolchain is told to use `clang++` for the C interface: on
/// a Linux host, unless the user has asked for a compiler.
pub open spec fn api_wants_clang(env: &Environment) -> bool {
    env.target_compiler is None && occurs_in(env.host@, "-linux-"@)
}

/// The plan for compiling the C interface.
pub open spec fn api_setup(env: &Environment, family: CompilerFamily) -> PlanView {
    PlanView {
        cpp: true,
        cuda: true,
        compiler: if api_wants_clang(env) {
            Some("clang++"@)
        } else {
            None
        },
        opt_level: Some(3),
        debug: Some(false),
        use_plt: Some(false),
        warnings: Some(false),
        extra_warnings: Some(false),
        defines: seq![
            ("NDEBUG"@, None::<Seq<char>>),
            ("PX_PHYSX_STATIC_LIB"@, None::<Seq<char>>),
            ("PX_PHYSX_GPU_SHARED_LIB_NAME"@, Some("libPhysXGpu_64.so"@)),
        ] + (if env.profile {
            seq![("PX_PROFILE"@, Some("1"@))]
        } else {
            Seq::empty()
        }),
        flags: seq![standard_flag(family)] + (if env.cpp_warnings {
            Seq::empty()
        } else {
            seq![quiet_flag(family)]
        }),
        includes: api_includes().push(layout_dir(env)->Some_0),
        files: seq!["src/physx_api.cpp"@],
        ..PlanView::empty()
    }
}

/// The directory of the struct layouts that were generated beforehand for
/// `target`, where there are any.
pub fn generated_include(target: &str) -> (dir: Option<String>)
    ensures
        match dir {
            Some(dir) => generated_dir(target@) == Some(dir@),
            None => generated_dir(target@) is None,
        },
{
    if same(target, "x86_64-pc-windows-msvc") {
        Some(join("src/generated", target))
    } else if contains(target, "-linux-") || ends_with(target, "apple-darwin") {
        Some(join("src/generated", "unix"))
    } else {
        None
    }
}

/// Whether the toolchain is told to use `clang++` for the C interface.
pub fn api_forces_clang(env: &Environment) -> (b: bool)
    ensures
        b == api_wants_clang(env),
{
    env.target_compiler.is_none() && contains(env.host.as_str(), "-linux-")
}

/// Makes the plan for compiling the engine's C interface into the library
/// `physx_api`. `family` is the family of the compiler.
pub fn api_plan(env: &Environment, family: CompilerFamily) -> (r: Result<BuildPlan, BuildError>)
    ensures
        match api_error(env, family) {
            Some(error) => r is Err && r->Err_0@ == error,
            None => r is Ok && r->Ok_0@ == api_setup(env, family),
        },
{
    let msvc = match family {
        CompilerFamily::Unknown => {
            return Err(BuildError::UnknownCompiler);
        },
        CompilerFamily::Msvc => true,
        _ => false,
    };
    let layouts = if env.structgen {
        env.out_dir.clone()
    } else {
        match generated_include(env.target.as_str()) {
            Some(dir) => dir,
            None => {
                return Err(BuildError::UnknownTarget(env.target.clone()));
            },
        }
    };
    let mut plan = BuildPlan::new();
    plan.cpp = true;
    plan.opt_level = Some(3);
    plan.debug = Some(false);
    plan.use_plt = Some(false);
    plan.warnings = Some(false);
    plan.cuda = true;
    plan.extra_warnings = Some(false);
    plan.define("NDEBUG", None);
    plan.define("PX_PHYSX_STATIC_LIB", None);
    plan.define("PX_PHYSX_GPU_SHARED_LIB_NAME", Some("libPhysXGpu_64.so"));
    let dirs = [
        "physx/physx/include",
        "physx/pxshared/include",
        "physx/physx/source/foundation/include",
        "physx/physx/source/physx/src",
        "physx/physx/source/lowleveldynamics/include",
        "physx/physx/source/common/src",
        "physx/physx/source/lowlevel/api/include",
        "physx/physx/source/geomutils/src",
        "physx/physx/source/scenequery/include",
        "physx/physx/source/geomutils/include",
        "physx/physx/source/simulationcontroller/include",
        "physx/physx/source/lowlevel/software/include",
        "physx/physx/source/lowlevel/common/include/pipeline",
        "physx/physx/source/lowlevel/common/include/utils",
        "physx/physx/source/geomutils/src/contact",
        "physx/physx/source/geomutils/src/pcm",
        "physx/physx/source/simulationcontroller/src",
        "physx/physx/source/lowlevelaabb/include",
    ];
    let mut i: usize = 0;
    assert(dirs.deep_view() =~= api_includes());
    assert(plan@.includes =~= api_includes().take(0));
    while i < dirs.len()
        invariant
            0 <= i <= dirs.len(),
            dirs.deep_view() == api_includes(),
            plan@ == (PlanView { includes: api_includes().take(i as int), ..plan@ }),
            plan@.defines == seq![
                ("NDEBUG"@, None::<Seq<char>>),
                ("PX_PHYSX_STATIC_LIB"@, None::<Seq<char>>),
                ("PX_PHYSX_GPU_SHARED_LIB_NAME"@, Some("libPhysXGpu_64.so"@)),
            ],
            plan@ == (PlanView {
                cpp: true,
                cuda: true,
                opt_level: Some(3),
                debug: Some(false),
                use_plt: Some(false),
                warnings: Some(false),
                extra_warnings: Some(false),
                defines: plan@.defines,
                includes: plan@.includes,
                ..PlanView::empty()
            }),
        decreases dirs.len() - i,
    {
        assert(dirs.deep_view()[i as int] == dirs@[i as int]@);
        plan.include_dir(String::from_str(dirs[i]));
        assert(api_includes().take(i + 1) =~= api_includes().take(i as int).push(
            api_includes()[i as int],
        ));
        i = i + 1;
    }
    assert(api_includes().take(i as int) =~= api_includes());
    if env.profile {
        plan.define("PX_PROFILE", Some("1"));
    }
    if api_forces_clang(env) {
        plan.compiler = Some(String::from_str("clang++"));
    }
    plan.flag(
        if msvc {
            "/std:c++14"
        } else {
            "-std=c++14"
        },
    );
    if !env.cpp_warnings {
        plan.flag(
            if msvc {
                "/w"
            } else {
                "-w"
            },
        );
    }
    plan.include_dir(layouts);
    plan.file(String::from_str("src/physx_api.cpp"));
    assert(plan@.defines =~= api_setup(env, family).defines);
    assert(plan@.flags =~= api_setup(env, family).flags);
    assert(plan@.includes =~= api_setup(env, family).includes);
    assert(plan@.files =~= api_setup(env, family).files);
    Ok(plan)
}

/// How the struct layouts are generated: a small program is compiled for
/// the target, and then run in the output directory.
#[derive(Debug)]
pub struct GeneratorPlan {
    /// What the compiler is called with, after what the toolchain gives it.
    pub compile_args: Vec<String>,
    /// The program that the compiler leaves behind.
    pub program: String,
    /// The emulator under which the program has to run, where the host
    /// cannot run it.
    pub emulator: Option<String>,
    /// The directory in which the program runs.
    pub work_dir: String,
}

/// Whether the build is for a 64-bit ARM target on a host of another kind,
/// which cannot run what it compiles.
pub open spec fn crosses_to_aarch64(env: &Environment) -> bool {
    env.target@ != env.host@ && occurs_at(env.target@, "aarch64-"@, 0)
}

/// Where the compiler is told to put the generator.
pub open spec fn generator_path(env: &Environment) -> Seq<char> {
    joined(env.out_dir@, "structgen"@)
}

/// Where the generator is after the compiler has run: a Windows host adds
/// the extension `exe`.
pub open spec fn generator_program(env: &Environment) -> Seq<char> {
    if occurs_in(env.host@, "-windows-"@) {
        with_extension(generator_path(env), "exe"@)
    } else {
        generator_path(env)
    }
}

/// What the compiler is called with to compile the generator.
pub open spec fn generator_args(env: &Environment, family: CompilerFamily) -> Seq<Seq<char>> {
    (if env.cpp_warnings {
        Seq::empty()
    } else {
        seq![quiet_flag(family)]
    }) + (if family == CompilerFamily::Msvc {
        seq!["/Fe"@ + generator_path(env), "/Fo"@ + generator_path(env) + ".obj"@]
    } else if crosses_to_aarch64(env) {
        seq!["-static"@, "-o"@, generator_path(env)]
    } else {
        seq!["-o"@, generator_path(env)]
    }) + seq!["src/structgen/structgen.cpp"@]
}

/// Makes the plan for generating the struct layouts. A program that the
/// host cannot run is linked statically and run under `qemu-aarch64`.
pub fn structgen_plan(env: &Environment, family: CompilerFamily) -> (r: Result<
    GeneratorPlan,
    BuildError,
>)
    ensures
        match r {
            Ok(plan) => {
                &&& family != CompilerFamily::Unknown
                &&& plan.compile_args.deep_view() == generator_args(env, family)
                &&& plan.program@ == generator_program(env)
                &&& plan.emulator is Some <==> crosses_to_aarch64(env)
                &&& plan.emulator is Some ==> plan.emulator->Some_0@ == "qemu-aarch64"@
                &&& plan.work_dir@ == env.out_dir@
            },
            Err(error) => family == CompilerFamily::Unknown && error@
                == ErrorView::UnknownCompiler,
        },
{
    let msvc = match family {
        CompilerFamily::Unknown => {
            return Err(BuildError::UnknownCompiler);
        },
        CompilerFamily::Msvc => true,
        _ => false,
    };
    let path = join(env.out_dir.as_str(), "structgen");
    let cross = !same(env.target.as_str(), env.host.as_str()) && starts_with(
        env.target.as_str(),
        "aarch64-",
    );
    let mut args: Vec<String> = Vec::new();
    if !env.cpp_warnings {
        args.push(
            String::from_str(
                if msvc {
                    "/w"
                } else {
                    "-w"
                },
            ),
        );
    }
    if msvc {
        let mut exe = String::from_str("/Fe");
        exe.append(path.as_str());
        args.push(exe);
        let mut obj = String::from_str("/Fo");
        obj.append(path.as_str());
        obj.append(".obj");
        args.push(obj);
    } else {
        if cross {
            args.push(String::from_str("-static"));
        }
        args.push(String::from_str("-o"));
        args.push(path.clone());
    }
    args.push(String::from_str("src/structgen/structgen.cpp"));
    assert(args.deep_view() =~= generator_args(env, family));
    let program = if contains(env.host.as_str(), "-windows-") {
        set_extension(path.as_str(), "exe")
    } else {
        path
    };
    let emulator = if cross {
        Some(String::from_str("qemu-aarch64"))
    } else {
        None
    };
    Ok(GeneratorPlan { compile_args: args, program, emulator, work_dir: env.out_dir.clone() })
}

/// What is to be done next to generate the struct layouts.
#[derive(Clone, Copy, PartialEq, Eq, Structural, Debug)]
pub enum GeneratorStep {
    /// The compiler is to be run on the generator.
    Compile,
    /// The generator is to be looked for where the compiler should have
    /// left it.
    Locate,
    /// The generator is to be run.
    Run,
    /// The struct layouts are there.
    Done,
}

impl GeneratorStep {
    /// The step after this one, when this one has succeeded, or the error
    /// that ends the build, when it has not. A compiler that reports no
    /// failure may still have left no program, and a program that does not
    /// run under an emulator means that the emulator is missing.
    pub open spec fn after(self, succeeded: bool, emulated: bool) -> Result<
        GeneratorStep,
        ErrorView,
    > {
        match self {
            GeneratorStep::Compile => if succeeded {
                Ok(GeneratorStep::Locate)
            } else {
                Err(ErrorView::GeneratorNotCompiled)
            },
            GeneratorStep::Locate => if succeeded {
                Ok(GeneratorStep::Run)
            } else {
                Err(ErrorView::GeneratorNotFound)
            },
            GeneratorStep::Run => if succeeded {
                Ok(GeneratorStep::Done)
            } else {
                Err(ErrorView::GeneratorNotRun { emulated })
            },
            GeneratorStep::Done => Ok(GeneratorStep::Done),
        }
    }

    /// Says what follows this step: the next step, or the end of the build.
    pub fn advance(self, succeeded: bool, emulated: bool) -> (r: Result<GeneratorStep, BuildError>)
        ensures
            match self.after(succeeded, emulated) {
                Ok(next) => r == Ok::<GeneratorStep, BuildError>(next),
                Err(error) => r is Err && r->Err_0@ == error,
            },
    {
        match self {
            GeneratorStep::Compile => if succeeded {
                Ok(GeneratorStep::Locate)
            } else {
                Err(BuildError::GeneratorNotCompiled)
            },
            GeneratorStep::Locate => if succeeded {
                Ok(GeneratorStep::Run)
            } else {
                Err(BuildError::GeneratorNotFound)
            },
            GeneratorStep::Run => if succeeded {
                Ok(GeneratorStep::Done)
            } else {
                Err(BuildError::GeneratorNotRun { emulated })
            },
            GeneratorStep::Done => Ok(GeneratorStep::Done),
        }
    }
}

} // verus!
