//! Why a build can fail.

use vstd::prelude::*;
use vstd::string::*;

verus! {

/// One of the descriptors that the build cannot do without.
#[derive(Clone, Copy, PartialEq, Eq, Structural, Debug)]
pub enum Descriptor {
    /// The triple of the platform that is built for.
    Target,
    /// The triple of the platform that builds.
    Host,
    /// The operating system that is built for.
    TargetOs,
    /// The family of the operating system that is built for.
    TargetFamily,
    /// The directory that takes what the build produces.
    OutDir,
    /// The directory of the Android NDK, when building for Android.
    AndroidNdkRoot,
}

/// Why no build can be had. Every one of these ends the build: no step is
/// tried again, and no part of a build is of any use.
#[derive(Debug)]
pub enum BuildError {
    /// A descriptor that the build needs was not given.
    MissingDescriptor(Descriptor),
    /// The target family, named here, is none that the sources know.
    UnknownTargetFamily(String),
    /// The compiler is of no family that the flags are known for.
    UnknownCompiler,
    /// The target triple, named here, has no generated bindings.
    UnknownTarget(String),
    /// No Android toolchain exists for the host, named here.
    UnsupportedAndroidHost(String),
    /// The Android sysroot, named here, does not exist.
    MissingAndroidSysroot(String),
    /// The source directory of a component, named here, does not exist.
    MissingComponent(String),
    /// The compiler could not be run on the layout generator.
    GeneratorNotCompiled,
    /// The compiler ran and left no layout generator behind.
    GeneratorNotFound,
    /// The layout generator could not be run. Where it has to run under an
    /// emulator, the emulator is missing.
    GeneratorNotRun { emulated: bool },
}

/// A [`BuildError`] as the contracts see it.
pub enum ErrorView {
    MissingDescriptor(Descriptor),
    UnknownTargetFamily(Seq<char>),
    UnknownCompiler,
    UnknownTarget(Seq<char>),
    UnsupportedAndroidHost(Seq<char>),
    MissingAndroidSysroot(Seq<char>),
    MissingComponent(Seq<char>),
    GeneratorNotCompiled,
    GeneratorNotFound,
    GeneratorNotRun { emulated: bool },
}

impl View for BuildError {
    type V = ErrorView;

    open spec fn view(&self) -> ErrorView {
        match self {
            BuildError::MissingDescriptor(which) => ErrorView::MissingDescriptor(*which),
            BuildError::UnknownTargetFamily(name) => ErrorView::UnknownTargetFamily(name@),
            BuildError::UnknownCompiler => ErrorView::UnknownCompiler,
            BuildError::UnknownTarget(name) => ErrorView::UnknownTarget(name@),
            BuildError::UnsupportedAndroidHost(name) => ErrorView::UnsupportedAndroidHost(name@),
            BuildError::MissingAndroidSysroot(path) => ErrorView::MissingAndroidSysroot(path@),
            BuildError::MissingComponent(name) => ErrorView::MissingComponent(name@),
            BuildError::GeneratorNotCompiled => ErrorView::GeneratorNotCompiled,
            BuildError::GeneratorNotFound => ErrorView::GeneratorNotFound,
            BuildError::GeneratorNotRun { emulated } => ErrorView::GeneratorNotRun {
                emulated: *emulated,
            },
        }
    }
}

impl Descriptor {
    /// What is said of the descriptor where it is missing.
    pub open spec fn complaint(self) -> Seq<char> {
        match self {
            Descriptor::Target => "TARGET not specified"@,
            Descriptor::Host => "HOST not specified"@,
            Descriptor::TargetOs => "target os not specified"@,
            Descriptor::TargetFamily => "TARGET_FAMILY not specified"@,
            Descriptor::OutDir => "output directory not specified"@,
            Descriptor::AndroidNdkRoot =>
                "environment variable \"ANDROID_NDK_ROOT\" has not been set"@,
        }
    }
}

impl ErrorView {
    /// The message that the build ends with. It names what was not
    /// recognized or not found.
    pub open spec fn message(self) -> Seq<char> {
        match self {
            ErrorView::MissingDescriptor(which) => which.complaint(),
            ErrorView::UnknownTargetFamily(name) => "unknown TARGET_FAMILY '"@ + name + "'"@,
            ErrorView::UnknownCompiler => "unknown compiler"@,
            ErrorView::UnknownTarget(name) => "unknown TARGET triple '"@ + name + "'"@,
            ErrorView::UnsupportedAndroidHost(name) => "Host triple "@ + name
                + " is unsupported for cross-compilation to Android"@,
            ErrorView::MissingAndroidSysroot(path) => "Can't find Android NDK sysroot path \""@
                + path + "\""@,
            ErrorView::MissingComponent(name) => "missing component '"@ + name + "'"@,
            ErrorView::GeneratorNotCompiled => "c++ compiler failed to execute"@,
            ErrorView::GeneratorNotFound =>
                "failed to compile structgen even though compiler reported no failures"@,
            ErrorView::GeneratorNotRun { emulated } =>
                "structgen failed to execute, if you are cross compiling to aarch64 you need to have qemu-aarch64 installed"@,
        }
    }
}

/// `name` between `before` and `after`.
fn quoted(before: &str, name: &str, after: &str) -> (text: String)
    ensures
        text@ == before@ + name@ + after@,
{
    let mut text = String::from_str(before);
    text.append(name);
    text.append(after);
    text
}

impl BuildError {
    /// The message that the build ends with.
    pub fn message(&self) -> (text: String)
        ensures
            text@ == self@.message(),
    {
        match self {
            BuildError::MissingDescriptor(which) => String::from_str(
                match which {
                    Descriptor::Target => "TARGET not specified",
                    Descriptor::Host => "HOST not specified",
                    Descriptor::TargetOs => "target os not specified",
                    Descriptor::TargetFamily => "TARGET_FAMILY not specified",
                    Descriptor::OutDir => "output directory not specified",
                    Descriptor::AndroidNdkRoot =>
                        "environment variable \"ANDROID_NDK_ROOT\" has not been set",
                },
            ),
            BuildError::UnknownTargetFamily(name) => quoted(
                "unknown TARGET_FAMILY '",
                name.as_str(),
                "'",
            ),
            BuildError::UnknownCompiler => String::from_str("unknown compiler"),
            BuildError::UnknownTarget(name) => quoted(
                "unknown TARGET triple '",
                name.as_str(),
                "'",
            ),
            BuildError::UnsupportedAndroidHost(name) => quoted(
                "Host triple ",
                name.as_str(),
                " is unsupported for cross-compilation to Android",
            ),
            BuildError::MissingAndroidSysroot(path) => quoted(
                "Can't find Android NDK sysroot path \"",
                path.as_str(),
                "\"",
            ),
            BuildError::MissingComponent(name) => quoted("missing component '", name.as_str(), "'"),
            BuildError::GeneratorNotCompiled => String::from_str("c++ compiler failed to execute"),
            BuildError::GeneratorNotFound => String::from_str(
                "failed to compile structgen even though compiler reported no failures",
            ),
            BuildError::GeneratorNotRun { emulated: _ } => String::from_str(
                "structgen failed to execute, if you are cross compiling to aarch64 you need to have qemu-aarch64 installed",
            ),
        }
    }
}

} // verus!
