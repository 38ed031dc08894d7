//! What every source of the engine is compiled with: the shared include
//! directories, the preprocessor definitions, and the flags that go with the
//! compiler's family.

use crate::context::{Context, ContextView};
use crate::environment::{BuildMode, CompilerFamily, Environment};
use crate::error::{BuildError, Descriptor, ErrorView};
use crate::path::{join, joined, lemma_join_through_empty};
use crate::plan::{defines_named, lemma_defines_named_in_parts, lemma_flag_in_parts, PlanView};
use crate::text::{contains, occurs_in, same};
use vstd::prelude::*;
use vstd::string::*;

verus! {

/// Whether the build is for Android.
pub open spec fn is_android(env: &Environment) -> bool {
    env.target_os@ == "android"@
}

/// Whether the toolchain is told to use `clang++`: on a Linux host, and on
/// an Intel macOS host, unless the user has asked for a compiler.
pub open spec fn wants_clang(env: &Environment) -> bool {
    (occurs_in(env.host@, "-linux-"@) || env.host@ == "x86_64-apple-darwin"@)
        && env.target_compiler is None
}

/// The name of the Android toolchain that runs on `host`, where there is
/// one.
pub open spec fn android_toolchain(host: Seq<char>) -> Option<Seq<char>> {
    if host == "x86_64-pc-windows-msvc"@ {
        Some("windows-x86_64"@)
    } else if host == "x86_64-unknown-linux-gnu"@ {
        Some("linux-x86_64"@)
    } else if host == "x86_64-apple-darwin"@ {
        Some("darwin-x86_64"@)
    } else {
        None
    }
}

/// The sysroot of the Android toolchain `toolchain` in the NDK at
/// `ndk_root`.
pub open spec fn android_sysroot(ndk_root: Seq<char>, toolchain: Seq<char>) -> Seq<char> {
    joined(joined(joined(ndk_root, "toolchains/llvm/prebuilt"@), toolchain), "sysroot"@)
}

/// Why the common setup cannot be made, if it cannot: for Android the NDK,
/// a toolchain for the host and its sysroot are needed, and for every target
/// a compiler of a known family.
pub open spec fn common_error(
    ctx: ContextView,
    env: &Environment,
    family: CompilerFamily,
) -> Option<ErrorView> {
    if is_android(env) && env.android_ndk_root is None {
        Some(ErrorView::MissingDescriptor(Descriptor::AndroidNdkRoot))
    } else if is_android(env) && android_toolchain(env.host@) is None {
        Some(ErrorView::UnsupportedAndroidHost(env.host@))
    } else if is_android(env) && !ctx.has_dir(
        android_sysroot(env.android_ndk_root->Some_0@, android_toolchain(env.host@)->Some_0),
    ) {
        Some(
            ErrorView::MissingAndroidSysroot(
                android_sysroot(
                    env.android_ndk_root->Some_0@,
                    android_toolchain(env.host@)->Some_0,
                ),
            ),
        )
    } else if family == CompilerFamily::Unknown {
        Some(ErrorView::UnknownCompiler)
    } else {
        None
    }
}

/// The include directories that nearly every source needs: the shared
/// headers, then ten directories of the engine's own tree.
pub open spec fn common_includes(ctx: ContextView) -> Seq<Seq<char>> {
    seq![joined(ctx.shared_root, "include"@)] + seq![
        "include"@,
        "source/foundation/include"@,
        "source/common/src"@,
        "source/filebuf/include"@,
        "include/cudamanager"@,
        "source/physxgpu/include"@,
        "include/gpu"@,
        "source/physx/src/device"@,
        "include/extensions"@,
        "source/physxextensions/src"@,
    ].map_values(|dir: Seq<char>| joined(ctx.root, dir))
}

/// The definitions that silence the Microsoft headers, made where the
/// target environment is `msvc`.
pub open spec fn msvc_defines(env: &Environment) -> Seq<(Seq<char>, Option<Seq<char>>)> {
    if env.target_env is Some && env.target_env->Some_0@ == "msvc"@ {
        seq![
            ("_CRT_SECURE_NO_WARNINGS"@, None),
            ("_WINSOCK_DEPRECATED_NO_WARNINGS"@, None),
            ("_ITERATOR_DEBUG_LEVEL"@, Some("0"@)),
        ]
    } else {
        Seq::empty()
    }
}

/// The engine's own debug markers, made where debug information is asked
/// for.
pub open spec fn debug_defines(env: &Environment) -> Seq<(Seq<char>, Option<Seq<char>>)> {
    if env.emit_debug_info {
        seq![("PX_DEBUG"@, None), ("PX_CHECKED"@, None)]
    } else {
        Seq::empty()
    }
}

/// The definitions of the common setup, in their order. The engine is
/// always built as a static library, and always against the release
/// runtime: `NDEBUG` is defined whatever else is asked for, and `_DEBUG`
/// never.
pub open spec fn common_defines(env: &Environment) -> Seq<(Seq<char>, Option<Seq<char>>)> {
    (if is_android(env) {
        seq![("ANDROID"@, None::<Seq<char>>)]
    } else {
        Seq::empty()
    }) + msvc_defines(env) + seq![("PX_PHYSX_STATIC_LIB"@, None::<Seq<char>>)] + debug_defines(
        env,
    ) + seq![
        ("PX_SUPPORT_PVD"@, Some("1"@)),
        ("PX_SUPPORT_GPU_PHYSX"@, Some("1"@)),
        ("PX_PHYSX_GPU_SHARED_LIB_NAME"@, Some("libPhysXGpu_64.so"@)),
    ] + (if env.profile {
        seq![("PX_PROFILE"@, Some("1"@))]
    } else {
        Seq::empty()
    }) + seq![("NDEBUG"@, Some("1"@))]
}

/// The flags for a compiler of the Microsoft family. The runtime is the
/// release runtime, static or dynamic, also where debug information is made.
pub open spec fn msvc_flags(env: &Environment) -> Seq<Seq<char>> {
    seq![
        "-nologo"@,
        "/MP"@,
        if env.static_crt {
            "/MT"@
        } else {
            "/MD"@
        },
    ] + (if env.emit_debug_info {
        seq!["/Z7"@]
    } else {
        Seq::empty()
    }) + (if env.mode == BuildMode::Profile {
        seq!["/O2"@]
    } else {
        Seq::empty()
    }) + seq!["/std:c++14"@]
}

/// The flags that go with the family of the compiler.
pub open spec fn family_flags(env: &Environment, family: CompilerFamily) -> Seq<Seq<char>> {
    match family {
        CompilerFamily::Gnu | CompilerFamily::Clang => seq!["-std=c++14"@, "-w"@],
        CompilerFamily::Msvc => msvc_flags(env),
        CompilerFamily::Unknown => Seq::empty(),
    }
}

/// The flags of the common setup, in their order.
pub open spec fn common_flags(env: &Environment, family: CompilerFamily) -> Seq<Seq<char>> {
    (if is_android(env) {
        seq![
            "--sysroot="@ + android_sysroot(
                env.android_ndk_root->Some_0@,
                android_toolchain(env.host@)->Some_0,
            ),
        ]
    } else {
        Seq::empty()
    }) + family_flags(env, family)
}

/// The context after the common setup was made.
pub open spec fn common_setup(
    ctx: ContextView,
    env: &Environment,
    family: CompilerFamily,
) -> ContextView {
    ContextView {
        includes: ctx.includes + common_includes(ctx),
        builder: PlanView {
            cpp: true,
            compiler: if wants_clang(env) {
                Some("clang++"@)
            } else {
                ctx.builder.compiler
            },
            cpp_link_stdlib: if is_android(env) {
                Some("c++"@)
            } else {
                ctx.builder.cpp_link_stdlib
            },
            no_default_flags: family == CompilerFamily::Msvc || ctx.builder.no_default_flags,
            pic: if family == CompilerFamily::Clang && env.target_os@ == "windows"@ {
                Some(false)
            } else {
                ctx.builder.pic
            },
            defines: ctx.builder.defines + common_defines(env),
            flags: ctx.builder.flags + common_flags(env, family),
            ..ctx.builder
        },
        ..ctx
    }
}

/// The definitions of the common setup, part by part.
proof fn lemma_common_defines_in_parts(env: &Environment, name: Seq<char>)
    ensures
        defines_named(common_defines(env), name) <==> (is_android(env) && name == "ANDROID"@)
            || defines_named(msvc_defines(env), name) || name == "PX_PHYSX_STATIC_LIB"@
            || defines_named(debug_defines(env), name) || name == "PX_SUPPORT_PVD"@ || name
            == "PX_SUPPORT_GPU_PHYSX"@ || name == "PX_PHYSX_GPU_SHARED_LIB_NAME"@ || (env.profile
            && name == "PX_PROFILE"@) || name == "NDEBUG"@,
{
    let p1 = if is_android(env) {
        seq![("ANDROID"@, None::<Seq<char>>)]
    } else {
        Seq::empty()
    };
    let p2 = msvc_defines(env);
    let p3 = seq![("PX_PHYSX_STATIC_LIB"@, None::<Seq<char>>)];
    let p4 = debug_defines(env);
    let p5 = seq![
        ("PX_SUPPORT_PVD"@, Some("1"@)),
        ("PX_SUPPORT_GPU_PHYSX"@, Some("1"@)),
        ("PX_PHYSX_GPU_SHARED_LIB_NAME"@, Some("libPhysXGpu_64.so"@)),
    ];
    let p6 = if env.profile {
        seq![("PX_PROFILE"@, Some("1"@))]
    } else {
        Seq::empty()
    };
    let p7 = seq![("NDEBUG"@, Some("1"@))];
    lemma_defines_named_in_parts(p1, p2, name);
    lemma_defines_named_in_parts(p1 + p2, p3, name);
    lemma_defines_named_in_parts(p1 + p2 + p3, p4, name);
    lemma_defines_named_in_parts(p1 + p2 + p3 + p4, p5, name);
    lemma_defines_named_in_parts(p1 + p2 + p3 + p4 + p5, p6, name);
    lemma_defines_named_in_parts(p1 + p2 + p3 + p4 + p5 + p6, p7, name);
    assert(defines_named(p1, name) <==> is_android(env) && name == "ANDROID"@) by {
        if is_android(env) && name == "ANDROID"@ {
            assert(p1[0].0 == name);
        }
    }
    assert(defines_named(p3, name) <==> name == "PX_PHYSX_STATIC_LIB"@) by {
        if name == "PX_PHYSX_STATIC_LIB"@ {
            assert(p3[0].0 == name);
        }
    }
    assert(defines_named(p5, name) <==> name == "PX_SUPPORT_PVD"@ || name
        == "PX_SUPPORT_GPU_PHYSX"@ || name == "PX_PHYSX_GPU_SHARED_LIB_NAME"@) by {
        if name == "PX_SUPPORT_PVD"@ {
            assert(p5[0].0 == name);
        }
        if name == "PX_SUPPORT_GPU_PHYSX"@ {
            assert(p5[1].0 == name);
        }
        if name == "PX_PHYSX_GPU_SHARED_LIB_NAME"@ {
            assert(p5[2].0 == name);
        }
    }
    assert(defines_named(p6, name) <==> env.profile && name == "PX_PROFILE"@) by {
        if env.profile && name == "PX_PROFILE"@ {
            assert(p6[0].0 == name);
        }
    }
    assert(defines_named(p7, name) <==> name == "NDEBUG"@) by {
        if name == "NDEBUG"@ {
            assert(p7[0].0 == name);
        }
    }
}

/// The engine is linked against the release runtime on every platform and
/// in every mode: the common setup defines `NDEBUG` and never `_DEBUG`,
/// whether or not debug information is asked for.
pub proof fn lemma_runtime_marker_is_release(env: &Environment)
    ensures
        common_defines(env).contains(("NDEBUG"@, Some("1"@))),
        !defines_named(common_defines(env), "_DEBUG"@),
{
    let defines = common_defines(env);
    assert(defines[defines.len() - 1] == ("NDEBUG"@, Some("1"@)));
    lemma_common_defines_in_parts(env, "_DEBUG"@);
    reveal_strlit("_DEBUG");
    reveal_strlit("NDEBUG");
    reveal_strlit("ANDROID");
    reveal_strlit("_CRT_SECURE_NO_WARNINGS");
    reveal_strlit("_WINSOCK_DEPRECATED_NO_WARNINGS");
    reveal_strlit("_ITERATOR_DEBUG_LEVEL");
    reveal_strlit("PX_PHYSX_STATIC_LIB");
    reveal_strlit("PX_DEBUG");
    reveal_strlit("PX_CHECKED");
    reveal_strlit("PX_SUPPORT_PVD");
    reveal_strlit("PX_SUPPORT_GPU_PHYSX");
    reveal_strlit("PX_PHYSX_GPU_SHARED_LIB_NAME");
    reveal_strlit("PX_PROFILE");
    assert("_DEBUG"@[0] != "NDEBUG"@[0]);
    assert("_DEBUG"@.len() == 6);
}

/// The common setup leaves the runtime as it found it: a plan that does
/// not define `_DEBUG` before the setup does not define it after, and every
/// plan defines `NDEBUG` after.
pub proof fn lemma_setup_keeps_release_runtime(
    ctx: ContextView,
    env: &Environment,
    family: CompilerFamily,
)
    ensures
        common_setup(ctx, env, family).builder.defines_name("NDEBUG"@),
        common_setup(ctx, env, family).builder.defines_name("_DEBUG"@)
            == ctx.builder.defines_name("_DEBUG"@),
{
    lemma_runtime_marker_is_release(env);
    lemma_defines_named_in_parts(ctx.builder.defines, common_defines(env), "_DEBUG"@);
    lemma_defines_named_in_parts(ctx.builder.defines, common_defines(env), "NDEBUG"@);
    lemma_common_defines_in_parts(env, "NDEBUG"@);
}

/// The engine's own debug markers follow the request for debug
/// information, on every platform: the common setup defines `PX_DEBUG` and
/// `PX_CHECKED` exactly where debug information is asked for.
pub proof fn lemma_debug_markers_follow_request(env: &Environment)
    ensures
        defines_named(common_defines(env), "PX_DEBUG"@) <==> env.emit_debug_info,
        defines_named(common_defines(env), "PX_CHECKED"@) <==> env.emit_debug_info,
{
    lemma_common_defines_in_parts(env, "PX_DEBUG"@);
    lemma_common_defines_in_parts(env, "PX_CHECKED"@);
    reveal_strlit("NDEBUG");
    reveal_strlit("ANDROID");
    reveal_strlit("_CRT_SECURE_NO_WARNINGS");
    reveal_strlit("_WINSOCK_DEPRECATED_NO_WARNINGS");
    reveal_strlit("_ITERATOR_DEBUG_LEVEL");
    reveal_strlit("PX_PHYSX_STATIC_LIB");
    reveal_strlit("PX_DEBUG");
    reveal_strlit("PX_CHECKED");
    reveal_strlit("PX_SUPPORT_PVD");
    reveal_strlit("PX_SUPPORT_GPU_PHYSX");
    reveal_strlit("PX_PHYSX_GPU_SHARED_LIB_NAME");
    reveal_strlit("PX_PROFILE");
    assert("PX_PROFILE"@[3] != "PX_CHECKED"@[3]);
    assert("PX_DEBUG"@.len() == 8);
    assert("PX_CHECKED"@.len() == 10);
    if env.emit_debug_info {
        assert(debug_defines(env)[0].0 == "PX_DEBUG"@);
        assert(debug_defines(env)[1].0 == "PX_CHECKED"@);
    }
}

/// The choice of the C runtime is made for the Microsoft family alone, and
/// there it is a release runtime: a compiler of that family gets `/MT` or
/// `/MD`, as the target links its runtime, and never `/MTd` or `/MDd`; a
/// compiler of another family gets none of the four.
pub proof fn lemma_runtime_flags_stay_with_their_family(env: &Environment, family: CompilerFamily)
    ensures
        !family_flags(env, family).contains("/MTd"@),
        !family_flags(env, family).contains("/MDd"@),
        family_flags(env, family).contains("/MT"@) <==> family == CompilerFamily::Msvc
            && env.static_crt,
        family_flags(env, family).contains("/MD"@) <==> family == CompilerFamily::Msvc
            && !env.static_crt,
{
    lemma_runtime_flag_is_unlike_others("/MTd"@, env, family);
    lemma_runtime_flag_is_unlike_others("/MDd"@, env, family);
    lemma_runtime_flag_is_unlike_others("/MT"@, env, family);
    lemma_runtime_flag_is_unlike_others("/MD"@, env, family);
    reveal_strlit("/MTd");
    reveal_strlit("/MDd");
    reveal_strlit("/MT");
    reveal_strlit("/MD");
    assert("/MT"@[2] != "/MD"@[2]);
    assert("/MT"@.len() == 3 && "/MD"@.len() == 3 && "/MTd"@.len() == 4 && "/MDd"@.len() == 4);
}

/// The flags that choose the runtime, with and without the mark of the
/// debug runtime.
spec fn is_runtime_flag(flag: Seq<char>) -> bool {
    flag == "/MT"@ || flag == "/MD"@ || flag == "/MTd"@ || flag == "/MDd"@
}

/// A flag that chooses the runtime is among the flags of a family only as
/// the one that the Microsoft family gets in the third place.
proof fn lemma_runtime_flag_is_unlike_others(
    flag: Seq<char>,
    env: &Environment,
    family: CompilerFamily,
)
    requires
        is_runtime_flag(flag),
    ensures
        family_flags(env, family).contains(flag) <==> family == CompilerFamily::Msvc && flag == (
        if env.static_crt {
            "/MT"@
        } else {
            "/MD"@
        }),
{
    reveal_strlit("/MTd");
    reveal_strlit("/MDd");
    reveal_strlit("/MT");
    reveal_strlit("/MD");
    reveal_strlit("-std=c++14");
    reveal_strlit("-w");
    reveal_strlit("-nologo");
    reveal_strlit("/MP");
    reveal_strlit("/Z7");
    reveal_strlit("/O2");
    reveal_strlit("/std:c++14");
    assert(flag[0] == '/' && flag[1] == 'M' && (flag[2] == 'T' || flag[2] == 'D') && flag.len()
        <= 4);
    assert("/MP"@[2] == 'P');
    assert("/Z7"@[1] == 'Z');
    assert("/O2"@[1] == 'O');
    assert("-w"@[0] == '-');
    assert("-nologo"@[0] == '-');
    assert("-std=c++14"@[0] == '-');
    assert("/std:c++14"@.len() == 10);
    match family {
        CompilerFamily::Gnu | CompilerFamily::Clang => {
            let flags = seq!["-std=c++14"@, "-w"@];
            if flags.contains(flag) {
                let i = choose|i: int| 0 <= i < flags.len() && flags[i] == flag;
            }
        },
        CompilerFamily::Msvc => {
            let p1 = seq![
                "-nologo"@,
                "/MP"@,
                if env.static_crt {
                    "/MT"@
                } else {
                    "/MD"@
                },
            ];
            let p2 = if env.emit_debug_info {
                seq!["/Z7"@]
            } else {
                Seq::empty()
            };
            let p3 = if env.mode == BuildMode::Profile {
                seq!["/O2"@]
            } else {
                Seq::empty()
            };
            let p4 = seq!["/std:c++14"@];
            lemma_flag_in_parts(p1, p2, flag);
            lemma_flag_in_parts(p1 + p2, p3, flag);
            lemma_flag_in_parts(p1 + p2 + p3, p4, flag);
            if p1.contains(flag) {
                let i = choose|i: int| 0 <= i < p1.len() && p1[i] == flag;
            }
            if flag == p1[2] {
                assert(p1.contains(flag));
            }
            if p2.contains(flag) {
                let i = choose|i: int| 0 <= i < p2.len() && p2[i] == flag;
            }
            if p3.contains(flag) {
                let i = choose|i: int| 0 <= i < p3.len() && p3[i] == flag;
            }
            if p4.contains(flag) {
                let i = choose|i: int| 0 <= i < p4.len() && p4[i] == flag;
            }
        },
        CompilerFamily::Unknown => {},
    }
}

/// Whether the toolchain is told to use `clang++`.
pub fn forces_clang(env: &Environment) -> (b: bool)
    ensures
        b == wants_clang(env),
{
    (contains(env.host.as_str(), "-linux-") || same(env.host.as_str(), "x86_64-apple-darwin"))
        && env.target_compiler.is_none()
}

/// The name of the Android toolchain that runs on `host`, where there is
/// one.
pub fn ndk_toolchain(host: &str) -> (toolchain: Option<&'static str>)
    ensures
        match toolchain {
            Some(name) => android_toolchain(host@) == Some(name@),
            None => android_toolchain(host@) is None,
        },
{
    if same(host, "x86_64-pc-windows-msvc") {
        Some("windows-x86_64")
    } else if same(host, "x86_64-unknown-linux-gnu") {
        Some("linux-x86_64")
    } else if same(host, "x86_64-apple-darwin") {
        Some("darwin-x86_64")
    } else {
        None
    }
}

/// Gives the compiler the flags that go with its family.
fn add_family_flags(ctx: &mut Context, env: &Environment, family: CompilerFamily)
    ensures
        final(ctx)@ == (ContextView {
            builder: PlanView {
                no_default_flags: family == CompilerFamily::Msvc || old(
                    ctx,
                )@.builder.no_default_flags,
                flags: old(ctx)@.builder.flags + family_flags(env, family),
                ..old(ctx)@.builder
            },
            ..old(ctx)@
        }),
{
    let ghost before = ctx@.builder.flags;
    match family {
        CompilerFamily::Gnu | CompilerFamily::Clang => {
            ctx.builder.flag("-std=c++14");
            ctx.builder.flag("-w");
            assert(ctx@.builder.flags =~= before + family_flags(env, family));
        },
        CompilerFamily::Msvc => {
            ctx.builder.no_default_flags = true;
            ctx.builder.flag("-nologo");
            ctx.builder.flag("/MP");
            if env.static_crt {
                ctx.builder.flag("/MT");
            } else {
                ctx.builder.flag("/MD");
            }
            if env.emit_debug_info {
                ctx.builder.flag("/Z7");
            }
            match env.mode {
                BuildMode::Profile => {
                    ctx.builder.flag("/O2");
                },
                BuildMode::Debug => {},
            }
            ctx.builder.flag("/std:c++14");
            assert(ctx@.builder.flags =~= before + family_flags(env, family));
        },
        CompilerFamily::Unknown => {
            assert(ctx@.builder.flags =~= before + family_flags(env, family));
        },
    }
}

/// Makes the definitions of the common setup.
fn add_common_defines(ctx: &mut Context, env: &Environment)
    ensures
        final(ctx)@ == (ContextView {
            builder: PlanView {
                defines: old(ctx)@.builder.defines + common_defines(env),
                ..old(ctx)@.builder
            },
            ..old(ctx)@
        }),
{
    let ghost before = ctx@.builder.defines;
    if same(env.target_os.as_str(), "android") {
        ctx.builder.define("ANDROID", None);
    }
    let msvc = match &env.target_env {
        Some(target_env) => same(target_env.as_str(), "msvc"),
        None => false,
    };
    if msvc {
        ctx.builder.define("_CRT_SECURE_NO_WARNINGS", None);
        ctx.builder.define("_WINSOCK_DEPRECATED_NO_WARNINGS", None);
        ctx.builder.define("_ITERATOR_DEBUG_LEVEL", Some("0"));
    }
    ctx.builder.define("PX_PHYSX_STATIC_LIB", None);
    if env.emit_debug_info {
        ctx.builder.define("PX_DEBUG", None);
        ctx.builder.define("PX_CHECKED", None);
    }
    ctx.builder.define("PX_SUPPORT_PVD", Some("1"));
    ctx.builder.define("PX_SUPPORT_GPU_PHYSX", Some("1"));
    ctx.builder.define("PX_PHYSX_GPU_SHARED_LIB_NAME", Some("libPhysXGpu_64.so"));
    if env.profile {
        ctx.builder.define("PX_PROFILE", Some("1"));
    }
    ctx.builder.define("NDEBUG", Some("1"));
    assert(ctx@.builder.defines =~= before + common_defines(env));
}

/// Makes the setup that every source of the engine is compiled with.
///
/// `family` is the family of the compiler that the toolchain finds once it
/// has been told what [`forces_clang`] says. Where the setup cannot be made,
/// the context stays as it was.
pub fn add_common(ctx: &mut Context, env: &Environment, family: CompilerFamily) -> (r: Result<
    (),
    BuildError,
>)
    ensures
        match common_error(old(ctx)@, env, family) {
            Some(error) => r is Err && r->Err_0@ == error && *final(ctx) == *old(ctx),
            None => r is Ok && final(ctx)@ == common_setup(old(ctx)@, env, family),
        },
{
    let android = same(env.target_os.as_str(), "android");
    let mut sysroot_flag: Option<String> = None;
    if android {
        let ndk_root = match &env.android_ndk_root {
            Some(ndk_root) => ndk_root,
            None => {
                return Err(BuildError::MissingDescriptor(Descriptor::AndroidNdkRoot));
            },
        };
        let toolchain = match ndk_toolchain(env.host.as_str()) {
            Some(toolchain) => toolchain,
            None => {
                return Err(BuildError::UnsupportedAndroidHost(env.host.clone()));
            },
        };
        let sysroot = join(
            join(join(ndk_root.as_str(), "toolchains/llvm/prebuilt").as_str(), toolchain).as_str(),
            "sysroot",
        );
        if !ctx.has_dir(sysroot.as_str()) {
            return Err(BuildError::MissingAndroidSysroot(sysroot));
        }
        let mut flag = String::from_str("--sysroot=");
        flag.append(sysroot.as_str());
        sysroot_flag = Some(flag);
    }
    match family {
        CompilerFamily::Unknown => {
            return Err(BuildError::UnknownCompiler);
        },
        _ => {},
    }
    ctx.builder.cpp = true;
    match sysroot_flag {
        Some(flag) => {
            let ghost before = ctx@.builder.flags;
            ctx.builder.flags.push(flag);
            assert(ctx@.builder.flags =~= before.push(flag@));
            ctx.builder.cpp_link_stdlib = Some(String::from_str("c++"));
        },
        None => {},
    }
    let ghost flags_before = old(ctx)@.builder.flags;
    assert(ctx@.builder.flags =~= flags_before + common_flags(env, CompilerFamily::Unknown));

    let ghost includes_before = ctx@.includes;
    ctx.includes.push(join(ctx.shared_root.as_str(), "include"));
    let dirs = [
        "include",
        "source/foundation/include",
        "source/common/src",
        "source/filebuf/include",
        "include/cudamanager",
        "source/physxgpu/include",
        "include/gpu",
        "source/physx/src/device",
        "include/extensions",
        "source/physxextensions/src",
    ];
    ctx.add_includes("", &dirs);
    proof {
        reveal_strlit("");
        assert(""@ =~= Seq::<char>::empty());
        assert forall|dir: Seq<char>| #![auto] joined(joined(ctx@.root, ""@), dir) == joined(
            ctx@.root,
            dir,
        ) by {
            lemma_join_through_empty(ctx@.root, dir);
        }
        assert(ctx@.includes =~= includes_before + common_includes(old(ctx)@));
    }

    add_common_defines(ctx, env);
    if forces_clang(env) {
        ctx.builder.compiler = Some(String::from_str("clang++"));
    }
    add_family_flags(ctx, env, family);
    assert(ctx@.builder.flags =~= flags_before + common_flags(env, family));
    match family {
        CompilerFamily::Clang => {
            if same(env.target_os.as_str(), "windows") {
                ctx.builder.pic = Some(false);
            }
        },
        _ => {},
    }
    Ok(())
}

} // verus!
