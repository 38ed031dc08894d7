//! What the compiler is to be called with, written down before it is called.

use crate::text::{same, text_of};
use vstd::prelude::*;
use vstd::string::*;

verus! {

/// A preprocessor definition: a name and, where it has one, a value.
#[derive(Debug)]
pub struct Define {
    pub name: String,
    pub value: Option<String>,
}

impl View for Define {
    type V = (Seq<char>, Option<Seq<char>>);

    open spec fn view(&self) -> (Seq<char>, Option<Seq<char>>) {
        (
            self.name@,
            match self.value {
                Some(value) => Some(value@),
                None => None,
            },
        )
    }
}

impl DeepView for Define {
    type V = (Seq<char>, Option<Seq<char>>);

    open spec fn deep_view(&self) -> (Seq<char>, Option<Seq<char>>) {
        self@
    }
}

/// Everything that one call of the compiler is configured with. A setting
/// that is `None` is left as the toolchain has it.
#[derive(Debug)]
pub struct BuildPlan {
    /// Whether the sources are C++.
    pub cpp: bool,
    /// Whether the sources are compiled for CUDA.
    pub cuda: bool,
    /// The compiler to use in place of the one that the toolchain finds.
    pub compiler: Option<String>,
    /// Whether the flags that the toolchain would add by itself are left out.
    pub no_default_flags: bool,
    /// Whether position-independent code is made.
    pub pic: Option<bool>,
    /// The C++ standard library to link.
    pub cpp_link_stdlib: Option<String>,
    /// The optimization level.
    pub opt_level: Option<u32>,
    /// Whether debug information is made.
    pub debug: Option<bool>,
    /// Whether calls go through the procedure linkage table.
    pub use_plt: Option<bool>,
    /// Whether warnings are errors.
    pub warnings: Option<bool>,
    /// Whether the extra warnings are switched on.
    pub extra_warnings: Option<bool>,
    /// The preprocessor definitions, in the order in which they were made.
    pub defines: Vec<Define>,
    /// The flags, in the order in which they were given.
    pub flags: Vec<String>,
    /// The include directories, in the order in which the compiler gets them.
    pub includes: Vec<String>,
    /// The source files, in the order in which they were added.
    pub files: Vec<String>,
}

/// Whether one of `defines` defines `name`, with whatever value.
pub open spec fn defines_named(defines: Seq<(Seq<char>, Option<Seq<char>>)>, name: Seq<char>) -> bool {
    exists|i: int| 0 <= i < defines.len() && (#[trigger] defines[i]).0 == name
}

/// A name is defined by one list after another where one of the two
/// defines it.
pub proof fn lemma_defines_named_in_parts(
    first: Seq<(Seq<char>, Option<Seq<char>>)>,
    second: Seq<(Seq<char>, Option<Seq<char>>)>,
    name: Seq<char>,
)
    ensures
        defines_named(first + second, name) <==> defines_named(first, name) || defines_named(
            second,
            name,
        ),
{
    let both = first + second;
    if defines_named(both, name) {
        let i = choose|i: int| 0 <= i < both.len() && (#[trigger] both[i]).0 == name;
        if i < first.len() {
            assert(first[i].0 == name);
        } else {
            assert(second[i - first.len()].0 == name);
        }
    }
    if defines_named(first, name) {
        let i = choose|i: int| 0 <= i < first.len() && (#[trigger] first[i]).0 == name;
        assert(both[i].0 == name);
    }
    if defines_named(second, name) {
        let i = choose|i: int| 0 <= i < second.len() && (#[trigger] second[i]).0 == name;
        assert(both[first.len() + i].0 == name);
    }
}

/// A flag is in one list after another where it is in one of the two.
pub proof fn lemma_flag_in_parts(first: Seq<Seq<char>>, second: Seq<Seq<char>>, flag: Seq<char>)
    ensures
        (first + second).contains(flag) <==> first.contains(flag) || second.contains(flag),
{
    let both = first + second;
    if both.contains(flag) {
        let i = choose|i: int| 0 <= i < both.len() && both[i] == flag;
        if i < first.len() {
            assert(first[i] == flag);
        } else {
            assert(second[i - first.len()] == flag);
        }
    }
    if first.contains(flag) {
        let i = choose|i: int| 0 <= i < first.len() && first[i] == flag;
        assert(both[i] == flag);
    }
    if second.contains(flag) {
        let i = choose|i: int| 0 <= i < second.len() && second[i] == flag;
        assert(both[first.len() + i] == flag);
    }
}

/// A [`BuildPlan`] as the contracts see it.
pub struct PlanView {
    pub cpp: bool,
    pub cuda: bool,
    pub compiler: Option<Seq<char>>,
    pub no_default_flags: bool,
    pub pic: Option<bool>,
    pub cpp_link_stdlib: Option<Seq<char>>,
    pub opt_level: Option<u32>,
    pub debug: Option<bool>,
    pub use_plt: Option<bool>,
    pub warnings: Option<bool>,
    pub extra_warnings: Option<bool>,
    pub defines: Seq<(Seq<char>, Option<Seq<char>>)>,
    pub flags: Seq<Seq<char>>,
    pub includes: Seq<Seq<char>>,
    pub files: Seq<Seq<char>>,
}

impl PlanView {
    /// The plan that configures nothing.
    pub open spec fn empty() -> PlanView {
        PlanView {
            cpp: false,
            cuda: false,
            compiler: None,
            no_default_flags: false,
            pic: None,
            cpp_link_stdlib: None,
            opt_level: None,
            debug: None,
            use_plt: None,
            warnings: None,
            extra_warnings: None,
            defines: Seq::empty(),
            flags: Seq::empty(),
            includes: Seq::empty(),
            files: Seq::empty(),
        }
    }

    /// The plan with one definition more.
    pub open spec fn define(self, name: Seq<char>, value: Option<Seq<char>>) -> PlanView {
        PlanView { defines: self.defines.push((name, value)), ..self }
    }

    /// The plan with one flag more.
    pub open spec fn flag(self, flag: Seq<char>) -> PlanView {
        PlanView { flags: self.flags.push(flag), ..self }
    }

    /// The plan with more flags.
    pub open spec fn with_flags(self, flags: Seq<Seq<char>>) -> PlanView {
        PlanView { flags: self.flags + flags, ..self }
    }

    /// The plan with one source file more.
    pub open spec fn file(self, path: Seq<char>) -> PlanView {
        PlanView { files: self.files.push(path), ..self }
    }

    /// The plan with one include directory more.
    pub open spec fn include_dir(self, dir: Seq<char>) -> PlanView {
        PlanView { includes: self.includes.push(dir), ..self }
    }

    /// The plan with more include directories.
    pub open spec fn with_includes(self, dirs: Seq<Seq<char>>) -> PlanView {
        PlanView { includes: self.includes + dirs, ..self }
    }

    /// Whether the plan defines `name`, with whatever value.
    pub open spec fn defines_name(self, name: Seq<char>) -> bool {
        defines_named(self.defines, name)
    }

    /// Whether the plan gives the compiler `flag`.
    pub open spec fn has_flag(self, flag: Seq<char>) -> bool {
        self.flags.contains(flag)
    }
}

impl View for BuildPlan {
    type V = PlanView;

    open spec fn view(&self) -> PlanView {
        PlanView {
            cpp: self.cpp,
            cuda: self.cuda,
            compiler: text_of(self.compiler),
            no_default_flags: self.no_default_flags,
            pic: self.pic,
            cpp_link_stdlib: text_of(self.cpp_link_stdlib),
            opt_level: self.opt_level,
            debug: self.debug,
            use_plt: self.use_plt,
            warnings: self.warnings,
            extra_warnings: self.extra_warnings,
            defines: self.defines.deep_view(),
            flags: self.flags.deep_view(),
            includes: self.includes.deep_view(),
            files: self.files.deep_view(),
        }
    }
}

impl BuildPlan {
    /// The plan that configures nothing.
    pub fn new() -> (plan: BuildPlan)
        ensures
            plan@ == PlanView::empty(),
    {
        let plan = BuildPlan {
            cpp: false,
            cuda: false,
            compiler: None,
            no_default_flags: false,
            pic: None,
            cpp_link_stdlib: None,
            opt_level: None,
            debug: None,
            use_plt: None,
            warnings: None,
            extra_warnings: None,
            defines: Vec::new(),
            flags: Vec::new(),
            includes: Vec::new(),
            files: Vec::new(),
        };
        assert(plan@.defines =~= Seq::empty());
        assert(plan@.flags =~= Seq::empty());
        assert(plan@.includes =~= Seq::empty());
        assert(plan@.files =~= Seq::empty());
        plan
    }

    /// Defines `name`, with `value` where one is given.
    pub fn define(&mut self, name: &str, value: Option<&str>)
        ensures
            final(self)@ == old(self)@.define(
                name@,
                match value {
                    Some(value) => Some(value@),
                    None => None,
                },
            ),
    {
        let value = match value {
            Some(value) => Some(String::from_str(value)),
            None => None,
        };
        self.defines.push(Define { name: String::from_str(name), value });
        assert(self@.defines =~= old(self)@.defines.push(self.defines@.last()@));
    }

    /// Gives the compiler one flag more.
    pub fn flag(&mut self, flag: &str)
        ensures
            final(self)@ == old(self)@.flag(flag@),
    {
        self.flags.push(String::from_str(flag));
        assert(self@.flags =~= old(self)@.flags.push(flag@));
    }

    /// Adds one source file.
    pub fn file(&mut self, path: String)
        ensures
            final(self)@ == old(self)@.file(path@),
    {
        self.files.push(path);
        assert(self@.files =~= old(self)@.files.push(path@));
    }

    /// Adds one include directory.
    pub fn include_dir(&mut self, dir: String)
        ensures
            final(self)@ == old(self)@.include_dir(dir@),
    {
        self.includes.push(dir);
        assert(self@.includes =~= old(self)@.includes.push(dir@));
    }

    /// Whether the plan defines `name`, with whatever value.
    pub fn is_defined(&self, name: &str) -> (b: bool)
        ensures
            b == self@.defines_name(name@),
    {
        let mut i: usize = 0;
        while i < self.defines.len()
            invariant
                0 <= i <= self.defines.len(),
                forall|j: int| 0 <= j < i ==> (#[trigger] self@.defines[j]).0 != name@,
            decreases self.defines.len() - i,
        {
            assert(self@.defines[i as int] == self.defines@[i as int]@);
            if same(self.defines[i].name.as_str(), name) {
                return true;
            }
            i = i + 1;
        }
        false
    }

    /// Whether the plan gives the compiler `flag`.
    pub fn has_flag(&self, flag: &str) -> (b: bool)
        ensures
            b == self@.has_flag(flag@),
    {
        let mut i: usize = 0;
        while i < self.flags.len()
            invariant
                0 <= i <= self.flags.len(),
                forall|j: int| 0 <= j < i ==> self@.flags[j] != flag@,
            decreases self.flags.len() - i,
        {
            assert(self@.flags[i as int] == self.flags@[i as int]@);
            if same(self.flags[i].as_str(), flag) {
                return true;
            }
            i = i + 1;
        }
        false
    }
}

} // verus!
