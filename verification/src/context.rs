//! The growing state of a build: the source files and include directories
//! that the components contribute, one after the other.

use crate::error::{BuildError, ErrorView};
use crate::path::{join, joined, set_extension, with_extension};
use crate::plan::{BuildPlan, PlanView};
use crate::text::same;
use vstd::prelude::*;
use vstd::string::*;

verus! {

/// What the steps of a build work on.
#[derive(Debug)]
pub struct Context {
    /// The root of the engine's source tree.
    pub root: String,
    /// The root of the tree of shared headers, which lies beside it.
    pub shared_root: String,
    /// The directories that were found to exist.
    pub tree: Vec<String>,
    /// The include directories collected so far, repetitions and all.
    pub includes: Vec<String>,
    /// The plan for the compiler, as far as it stands.
    pub builder: BuildPlan,
}

/// A [`Context`] as the contracts see it.
pub struct ContextView {
    pub root: Seq<char>,
    pub shared_root: Seq<char>,
    pub tree: Seq<Seq<char>>,
    pub includes: Seq<Seq<char>>,
    pub builder: PlanView,
}

impl View for Context {
    type V = ContextView;

    open spec fn view(&self) -> ContextView {
        ContextView {
            root: self.root@,
            shared_root: self.shared_root@,
            tree: self.tree.deep_view(),
            includes: self.includes.deep_view(),
            builder: self.builder@,
        }
    }
}

/// The directory of a component's sources, from the root of the tree:
/// `source`, the name of the component, and `rel` where one is given.
pub open spec fn component_dir(name: Seq<char>, rel: Option<Seq<char>>) -> Seq<char> {
    match rel {
        Some(rel) => "source/"@ + name + "/"@ + rel,
        None => "source/"@ + name,
    }
}

impl ContextView {
    /// Whether `path` is among the directories that were found to exist.
    pub open spec fn has_dir(self, path: Seq<char>) -> bool {
        self.tree.contains(path)
    }

    /// The directories `includes`, each taken below `rel_root` in the tree.
    pub open spec fn include_paths(
        self,
        rel_root: Seq<char>,
        includes: Seq<Seq<char>>,
    ) -> Seq<Seq<char>> {
        includes.map_values(|inc: Seq<char>| joined(joined(self.root, rel_root), inc))
    }

    /// The source files `files`, each taken below `rel_root` in the tree and
    /// given the extension `cpp`.
    pub open spec fn source_paths(self, rel_root: Seq<char>, files: Seq<Seq<char>>) -> Seq<
        Seq<char>,
    > {
        files.map_values(
            |file: Seq<char>| with_extension(joined(joined(self.root, rel_root), file), "cpp"@),
        )
    }

    /// The context after the include directories `includes` below `rel_root`
    /// were added.
    pub open spec fn add_includes(
        self,
        rel_root: Seq<char>,
        includes: Seq<Seq<char>>,
    ) -> ContextView {
        ContextView { includes: self.includes + self.include_paths(rel_root, includes), ..self }
    }

    /// The context after the source files `files` below `rel_root` were
    /// added: the compiler gets the files, and their directory becomes an
    /// include directory.
    pub open spec fn add_sources(self, rel_root: Seq<char>, files: Seq<Seq<char>>) -> ContextView {
        ContextView {
            includes: self.includes.push(joined(self.root, rel_root)),
            builder: PlanView {
                files: self.builder.files + self.source_paths(rel_root, files),
                ..self.builder
            },
            ..self
        }
    }

    /// The context after one source file, named from the root of the tree
    /// with its extension, was added.
    pub open spec fn add_file(self, rel_path: Seq<char>) -> ContextView {
        ContextView { builder: self.builder.file(joined(self.root, rel_path)), ..self }
    }

    /// Whether the source directory of a component exists.
    pub open spec fn has_component(self, name: Seq<char>, rel: Option<Seq<char>>) -> bool {
        self.has_dir(joined(self.root, component_dir(name, rel)))
    }

    /// The include directory that a component offers to the others.
    pub open spec fn public_includes(self, name: Seq<char>) -> Seq<char> {
        joined(joined(self.root, "include"@), name)
    }

    /// The include directory that a component keeps among its sources.
    pub open spec fn private_includes(self, name: Seq<char>) -> Seq<char> {
        joined(joined(joined(self.root, "source"@), name), "include"@)
    }

    /// The context after a component was added: its sources, and those of
    /// its two include directories that exist.
    pub open spec fn add_component(
        self,
        name: Seq<char>,
        rel: Option<Seq<char>>,
        sources: Seq<Seq<char>>,
    ) -> ContextView {
        let added = self.add_sources(component_dir(name, rel), sources);
        let first = if self.has_dir(self.public_includes(name)) {
            added.includes.push(self.public_includes(name))
        } else {
            added.includes
        };
        let second = if self.has_dir(self.private_includes(name)) {
            first.push(self.private_includes(name))
        } else {
            first
        };
        ContextView { includes: second, ..added }
    }
}

impl Context {
    /// The context of a build that has not begun. The engine's source tree
    /// is the directory `physx` below `base`, the shared headers are in
    /// `pxshared` beside it, and `tree` holds the directories that were found
    /// to exist.
    pub fn new(base: &str, tree: Vec<String>) -> (ctx: Context)
        ensures
            ctx@ == (ContextView {
                root: joined(base@, "physx"@),
                shared_root: joined(base@, "pxshared"@),
                tree: tree.deep_view(),
                includes: Seq::empty(),
                builder: PlanView::empty(),
            }),
    {
        let ctx = Context {
            root: join(base, "physx"),
            shared_root: join(base, "pxshared"),
            tree,
            includes: Vec::new(),
            builder: BuildPlan::new(),
        };
        assert(ctx@.includes =~= Seq::empty());
        ctx
    }

    /// Whether `path` is among the directories that were found to exist.
    pub fn has_dir(&self, path: &str) -> (b: bool)
        ensures
            b == self@.has_dir(path@),
    {
        let mut i: usize = 0;
        while i < self.tree.len()
            invariant
                0 <= i <= self.tree.len(),
                forall|j: int| 0 <= j < i ==> self@.tree[j] != path@,
            decreases self.tree.len() - i,
        {
            assert(self@.tree[i as int] == self.tree@[i as int]@);
            if same(self.tree[i].as_str(), path) {
                return true;
            }
            i = i + 1;
        }
        false
    }

    /// Adds the include directories `includes`, each taken below `rel_root`.
    pub fn add_includes(&mut self, rel_root: &str, includes: &[&str])
        ensures
            final(self)@ == old(self)@.add_includes(rel_root@, includes.deep_view()),
    {
        let root = join(self.root.as_str(), rel_root);
        let ghost names = includes.deep_view();
        let ghost paths = old(self)@.include_paths(rel_root@, names);
        let mut i: usize = 0;
        assert(self@.includes =~= old(self)@.includes + paths.take(0));
        while i < includes.len()
            invariant
                0 <= i <= includes.len(),
                names == includes.deep_view(),
                paths == old(self)@.include_paths(rel_root@, names),
                root@ == joined(old(self)@.root, rel_root@),
                self@.includes == old(self)@.includes + paths.take(i as int),
                self.root == old(self).root,
                self.shared_root == old(self).shared_root,
                self.tree == old(self).tree,
                self.builder == old(self).builder,
            decreases includes.len() - i,
        {
            let ghost before = self@.includes;
            let path = join(root.as_str(), includes[i]);
            assert(names[i as int] == includes@[i as int]@);
            assert(path@ == paths[i as int]);
            self.includes.push(path);
            assert(self@.includes =~= before.push(path@));
            assert(paths.take(i + 1) =~= paths.take(i as int).push(paths[i as int]));
            i = i + 1;
        }
        assert(paths.take(i as int) =~= paths);
    }

    /// Adds the source files `files`, each taken below `rel_root` and given
    /// the extension `cpp`, and makes their directory an include directory.
    pub fn add_sources(&mut self, rel_root: &str, files: &Vec<String>)
        ensures
            final(self)@ == old(self)@.add_sources(rel_root@, files.deep_view()),
    {
        let root = join(self.root.as_str(), rel_root);
        let ghost names = files.deep_view();
        let ghost paths = old(self)@.source_paths(rel_root@, names);
        let mut i: usize = 0;
        assert(self@.builder.files =~= old(self)@.builder.files + paths.take(0));
        while i < files.len()
            invariant
                0 <= i <= files.len(),
                names == files.deep_view(),
                paths == old(self)@.source_paths(rel_root@, names),
                root@ == joined(old(self)@.root, rel_root@),
                self@.builder.files == old(self)@.builder.files + paths.take(i as int),
                self@.builder == (PlanView { files: self@.builder.files, ..old(self)@.builder }),
                self.root == old(self).root,
                self.shared_root == old(self).shared_root,
                self.tree == old(self).tree,
                self.includes == old(self).includes,
            decreases files.len() - i,
        {
            let ghost before = self@.builder.files;
            let path = set_extension(join(root.as_str(), files[i].as_str()).as_str(), "cpp");
            assert(names[i as int] == files@[i as int]@);
            assert(path@ == paths[i as int]);
            self.builder.files.push(path);
            assert(self@.builder.files =~= before.push(path@));
            assert(paths.take(i + 1) =~= paths.take(i as int).push(paths[i as int]));
            i = i + 1;
        }
        assert(paths.take(i as int) =~= paths);
        let ghost before = self@.includes;
        self.includes.push(root);
        assert(self@.includes =~= before.push(root@));
    }

    /// Adds one source file, named from the root of the tree with its
    /// extension.
    pub fn add_file(&mut self, rel_path: &str)
        ensures
            final(self)@ == old(self)@.add_file(rel_path@),
    {
        let path = join(self.root.as_str(), rel_path);
        self.builder.file(path);
    }

    /// Adds the component `name`: its sources `sources`, which lie below
    /// `source`, `name` and `rel`, and those of its include directories that
    /// exist.
    ///
    /// A component whose source directory does not exist cannot be built:
    /// the error names it, and the context stays as it was.
    pub fn add_component(&mut self, name: &str, rel: Option<&str>, sources: &Vec<String>) -> (r:
        Result<(), BuildError>)
        ensures
            ({
                let rel_view = match rel {
                    Some(rel) => Some(rel@),
                    None => None,
                };
                match r {
                    Ok(()) => {
                        &&& old(self)@.has_component(name@, rel_view)
                        &&& final(self)@ == old(self)@.add_component(
                            name@,
                            rel_view,
                            sources.deep_view(),
                        )
                    },
                    Err(error) => {
                        &&& !old(self)@.has_component(name@, rel_view)
                        &&& error@ == ErrorView::MissingComponent(name@)
                        &&& *final(self) == *old(self)
                    },
                }
            }),
    {
        let mut src_dir = String::from_str("source/");
        src_dir.append(name);
        match rel {
            Some(rel) => {
                src_dir.append("/");
                src_dir.append(rel);
            },
            None => {},
        }
        if !self.has_dir(join(self.root.as_str(), src_dir.as_str()).as_str()) {
            return Err(BuildError::MissingComponent(String::from_str(name)));
        }
        let public = join(join(self.root.as_str(), "include").as_str(), name);
        let private = join(
            join(join(self.root.as_str(), "source").as_str(), name).as_str(),
            "include",
        );
        let has_public = self.has_dir(public.as_str());
        let has_private = self.has_dir(private.as_str());
        self.add_sources(src_dir.as_str(), sources);
        if has_public {
            let ghost before = self@.includes;
            self.includes.push(public);
            assert(self@.includes =~= before.push(public@));
        }
        if has_private {
            let ghost before = self@.includes;
            self.includes.push(private);
            assert(self@.includes =~= before.push(private@));
        }
        Ok(())
    }
}

} // verus!
