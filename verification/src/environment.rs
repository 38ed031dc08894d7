//! What the build is told from outside, and what it makes of it before the
//! first step: the environment that every later step reads and none changes.

use crate::error::{BuildError, Descriptor, ErrorView};
use crate::text::{chars_of, contains, occurs_in, same, text_of};
use vstd::prelude::*;
use vstd::string::*;

verus! {

/// Whether the build is tuned for debugging or for measuring.
#[derive(Clone, Copy, PartialEq, Eq, Structural, Debug)]
pub enum BuildMode {
    Debug,
    Profile,
}

/// The families of operating systems that the sources know.
#[derive(Clone, Copy, PartialEq, Eq, Structural, Debug)]
pub enum TargetFamily {
    Unix,
    Windows,
}

/// The family of the compiler, as the toolchain reports it.
#[derive(Clone, Copy, PartialEq, Eq, Structural, Debug)]
pub enum CompilerFamily {
    Gnu,
    Clang,
    Msvc,
    /// None of the above.
    Unknown,
}

/// What the build is told from outside, each descriptor as it was found or
/// not found.
pub struct Descriptors {
    /// The optimization level.
    pub opt_level: Option<String>,
    /// The triple of the platform that is built for.
    pub target: Option<String>,
    /// The triple of the platform that builds.
    pub host: Option<String>,
    /// The C++ compiler that the user asks for.
    pub cxx: Option<String>,
    /// The operating system that is built for.
    pub target_os: Option<String>,
    /// The environment (ABI) that is built for.
    pub target_env: Option<String>,
    /// The family of the operating system that is built for.
    pub target_family: Option<String>,
    /// The features of the target, separated by commas.
    pub target_feature: Option<String>,
    /// Whether debug information is asked for: `true` or `false`.
    pub debug: Option<String>,
    /// The directory that takes what the build produces.
    pub out_dir: Option<String>,
    /// The directory of the Android NDK.
    pub android_ndk_root: Option<String>,
    /// Whether the engine's profiling code is asked for.
    pub profile: bool,
    /// Whether the struct layouts are to be generated by this build.
    pub structgen: bool,
    /// Whether the warnings of the C++ compiler are to be shown.
    pub cpp_warnings: bool,
}

/// What every step of the build reads and none changes.
pub struct Environment {
    pub target: String,
    pub host: String,
    pub emit_debug_info: bool,
    pub target_compiler: Option<String>,
    pub target_os: String,
    pub target_env: Option<String>,
    pub target_family: TargetFamily,
    pub mode: BuildMode,
    pub static_crt: bool,
    pub out_dir: String,
    pub android_ndk_root: Option<String>,
    pub profile: bool,
    pub structgen: bool,
    pub cpp_warnings: bool,
}

/// Whether `digits` is one or more `0`.
pub open spec fn all_zeros(digits: Seq<char>) -> bool {
    digits.len() > 0 && forall|i: int| 0 <= i < digits.len() ==> digits[i] == '0'
}

/// Whether `text` is a way to write the number zero: one or more `0`, after
/// at most one sign.
pub open spec fn denotes_zero(text: Seq<char>) -> bool {
    if text.len() > 0 && (text[0] == '+' || text[0] == '-') {
        all_zeros(text.skip(1))
    } else {
        all_zeros(text)
    }
}

impl TargetFamily {
    /// The name of the family, which is also the name of the directory that
    /// holds its sources.
    pub open spec fn name(self) -> Seq<char> {
        match self {
            TargetFamily::Unix => "unix"@,
            TargetFamily::Windows => "windows"@,
        }
    }

    /// The family that `name` names, if it names one.
    pub open spec fn named(name: Seq<char>) -> Option<TargetFamily> {
        if name == "unix"@ {
            Some(TargetFamily::Unix)
        } else if name == "windows"@ {
            Some(TargetFamily::Windows)
        } else {
            None
        }
    }

    /// The family that `name` names, if it names one.
    pub fn parse(name: &str) -> (family: Option<TargetFamily>)
        ensures
            family == Self::named(name@),
    {
        if same(name, "unix") {
            Some(TargetFamily::Unix)
        } else if same(name, "windows") {
            Some(TargetFamily::Windows)
        } else {
            None
        }
    }

    /// The name of the family.
    pub fn dir_name(self) -> (name: &'static str)
        ensures
            name@ == self.name(),
    {
        match self {
            TargetFamily::Unix => "unix",
            TargetFamily::Windows => "windows",
        }
    }
}

impl BuildMode {
    /// The mode that goes with an optimization level: debug for level zero,
    /// profile for every other level, and for none.
    pub open spec fn of_level(opt_level: Option<Seq<char>>) -> BuildMode {
        match opt_level {
            Some(level) if denotes_zero(level) => BuildMode::Debug,
            _ => BuildMode::Profile,
        }
    }

    /// The mode that goes with an optimization level.
    pub fn from_opt_level(opt_level: &Option<String>) -> (mode: BuildMode)
        ensures
            mode == Self::of_level(text_of(*opt_level)),
    {
        match opt_level {
            Some(level) => {
                if is_zero(level.as_str()) {
                    BuildMode::Debug
                } else {
                    BuildMode::Profile
                }
            },
            None => BuildMode::Profile,
        }
    }
}

/// Whether `text` is a way to write the number zero.
pub fn is_zero(text: &str) -> (b: bool)
    ensures
        b == denotes_zero(text@),
{
    let chars = chars_of(text);
    let start: usize = if chars.len() > 0 && (chars[0] == '+' || chars[0] == '-') {
        1
    } else {
        0
    };
    let ghost digits = text@.skip(start as int);
    assert(text@.skip(0) =~= text@);
    if chars.len() == start {
        return false;
    }
    let mut i: usize = start;
    while i < chars.len()
        invariant
            start <= i <= chars.len(),
            chars@ == text@,
            start == if text@.len() > 0 && (text@[0] == '+' || text@[0] == '-') {
                1int
            } else {
                0int
            },
            digits == text@.skip(start as int),
            text@.skip(0) == text@,
            forall|j: int| 0 <= j < i - start ==> digits[j] == '0',
        decreases chars.len() - i,
    {
        assert(digits[i - start] == chars@[i as int]);
        if chars[i] != '0' {
            return false;
        }
        i = i + 1;
    }
    true
}

/// The first of `found` that holds a value: the compiler that the user
/// asks for, where `found` holds what stands under the names that
/// [`cxx_variables`] gives, in their order.
pub fn first_found(found: &Vec<Option<String>>) -> (first: Option<String>)
    ensures
        match first {
            Some(value) => exists|i: int|
                0 <= i < found@.len() && found@[i] == Some(value) && forall|j: int|
                    0 <= j < i ==> found@[j] is None,
            None => forall|i: int| 0 <= i < found@.len() ==> found@[i] is None,
        },
{
    let mut i: usize = 0;
    while i < found.len()
        invariant
            0 <= i <= found.len(),
            forall|j: int| 0 <= j < i ==> found@[j] is None,
        decreases found.len() - i,
    {
        match &found[i] {
            Some(value) => {
                return Some(value.clone());
            },
            None => {},
        }
        i = i + 1;
    }
    None
}

impl Descriptors {
    /// The descriptor that is needed and was not given: the first of
    /// target, host, target OS, target family and output directory.
    pub open spec fn missing(&self) -> Option<Descriptor> {
        if self.target is None {
            Some(Descriptor::Target)
        } else if self.host is None {
            Some(Descriptor::Host)
        } else if self.target_os is None {
            Some(Descriptor::TargetOs)
        } else if self.target_family is None {
            Some(Descriptor::TargetFamily)
        } else if self.out_dir is None {
            Some(Descriptor::OutDir)
        } else {
            None
        }
    }

    /// Whether `env` is what these descriptors resolve to.
    pub open spec fn resolves_to(&self, env: &Environment) -> bool {
        &&& self.target == Some(env.target)
        &&& self.host == Some(env.host)
        &&& env.emit_debug_info == (text_of(self.debug) == Some("true"@))
        &&& env.target_compiler == self.cxx
        &&& self.target_os == Some(env.target_os)
        &&& env.target_env == self.target_env
        &&& self.target_family is Some
        &&& TargetFamily::named(self.target_family->Some_0@) == Some(env.target_family)
        &&& env.mode == BuildMode::of_level(text_of(self.opt_level))
        &&& env.static_crt == (self.target_feature is Some && occurs_in(
            self.target_feature->Some_0@,
            "crt-static"@,
        ))
        &&& self.out_dir == Some(env.out_dir)
        &&& env.android_ndk_root == self.android_ndk_root
        &&& env.profile == self.profile
        &&& env.structgen == self.structgen
        &&& env.cpp_warnings == self.cpp_warnings
    }

    /// Resolves the descriptors into the environment of the build, once and
    /// before anything else is done.
    ///
    /// It fails where a needed descriptor is missing, and where the target
    /// family is none that the sources know; the error names the family.
    pub fn resolve(&self) -> (r: Result<Environment, BuildError>)
        ensures
            match r {
                Ok(env) => self.missing() is None && self.resolves_to(&env),
                Err(error) => match self.missing() {
                    Some(which) => error@ == ErrorView::MissingDescriptor(which),
                    None => {
                        &&& TargetFamily::named(self.target_family->Some_0@) is None
                        &&& error@ == ErrorView::UnknownTargetFamily(self.target_family->Some_0@)
                    },
                },
            },
    {
        let target = match &self.target {
            Some(target) => target.clone(),
            None => {
                return Err(BuildError::MissingDescriptor(Descriptor::Target));
            },
        };
        let host = match &self.host {
            Some(host) => host.clone(),
            None => {
                return Err(BuildError::MissingDescriptor(Descriptor::Host));
            },
        };
        let target_os = match &self.target_os {
            Some(target_os) => target_os.clone(),
            None => {
                return Err(BuildError::MissingDescriptor(Descriptor::TargetOs));
            },
        };
        let family_name = match &self.target_family {
            Some(name) => name.clone(),
            None => {
                return Err(BuildError::MissingDescriptor(Descriptor::TargetFamily));
            },
        };
        let out_dir = match &self.out_dir {
            Some(out_dir) => out_dir.clone(),
            None => {
                return Err(BuildError::MissingDescriptor(Descriptor::OutDir));
            },
        };
        let target_family = match TargetFamily::parse(family_name.as_str()) {
            Some(family) => family,
            None => {
                return Err(BuildError::UnknownTargetFamily(family_name));
            },
        };
        let emit_debug_info = match &self.debug {
            Some(debug) => same(debug.as_str(), "true"),
            None => false,
        };
        let static_crt = match &self.target_feature {
            Some(feature) => contains(feature.as_str(), "crt-static"),
            None => false,
        };
        Ok(
            Environment {
                target,
                host,
                emit_debug_info,
                target_compiler: self.cxx.clone(),
                target_os,
                target_env: self.target_env.clone(),
                target_family,
                mode: BuildMode::from_opt_level(&self.opt_level),
                static_crt,
                out_dir,
                android_ndk_root: self.android_ndk_root.clone(),
                profile: self.profile,
                structgen: self.structgen,
                cpp_warnings: self.cpp_warnings,
            },
        )
    }
}

} // verus!
