//! The module writer: which files a request for modules of a model amounts
//! to, each with its path and its text.

use crate::entity::{create_entity, entity_text};
use crate::mapper::{create_mapper, mapper_text};
use crate::model::{Model, ModelView};
use crate::module_type::ModuleType;
use crate::paths::{build_path, path_of};
use crate::repository::{abstract_repository, create_repository, prisma_repository};
use vstd::prelude::*;

verus! {

/// One file to write: where, and what.
#[derive(Clone, Debug, PartialEq, Eq)]
pub struct ModuleFile {
    pub path: String,
    pub contents: String,
}

/// What a [`ModuleFile`] holds, as mathematical values.
pub struct ModuleFileView {
    pub path: Seq<char>,
    pub contents: Seq<char>,
}

impl View for ModuleFile {
    type V = ModuleFileView;

    open spec fn view(&self) -> ModuleFileView {
        ModuleFileView { path: self.path@, contents: self.contents@ }
    }
}

/// The views of a list of files.
pub open spec fn file_views(files: Seq<ModuleFile>) -> Seq<ModuleFileView> {
    files.map_values(|f: ModuleFile| f@)
}

/// The file of one kind of module of a model.
pub open spec fn file_of(
    kind: ModuleType,
    contents: Seq<char>,
    dir: Seq<char>,
    module_dir: Seq<char>,
    m: ModelView,
) -> ModuleFileView {
    ModuleFileView { path: path_of(dir, module_dir, kind, m.name), contents }
}

/// The files that one requested kind amounts to. An entity and a mapper are
/// one file each. A repository is two: the abstract repository and, behind
/// it, the Prisma repository that implements it. A Prisma repository cannot
/// be requested, and amounts to nothing.
pub open spec fn files_for(
    kind: ModuleType,
    has_mapper: bool,
    dir: Seq<char>,
    module_dir: Seq<char>,
    m: ModelView,
) -> Seq<ModuleFileView> {
    match kind {
        ModuleType::Entity => seq![file_of(kind, entity_text(m), dir, module_dir, m)],
        ModuleType::Mapper => seq![file_of(kind, mapper_text(m), dir, module_dir, m)],
        ModuleType::Repository => seq![
            file_of(kind, abstract_repository(m.name), dir, module_dir, m),
            file_of(
                ModuleType::PrismaRepository,
                prisma_repository(m.name, has_mapper),
                dir,
                module_dir,
                m,
            ),
        ],
        ModuleType::PrismaRepository => Seq::empty(),
    }
}

/// The files of the requested kinds, in the order of the request, with
/// repositories that map to the domain if `has_mapper` says so.
pub open spec fn files_of_request(
    modules: Seq<ModuleType>,
    has_mapper: bool,
    dir: Seq<char>,
    module_dir: Seq<char>,
    m: ModelView,
) -> Seq<ModuleFileView> {
    modules.flat_map(|kind: ModuleType| files_for(kind, has_mapper, dir, module_dir, m))
}

/// The files that a request amounts to: those of each requested kind, in the
/// order of the request. The repositories map to the domain exactly when a
/// mapper is part of the same request, wherever in it.
pub open spec fn module_files(
    modules: Seq<ModuleType>,
    dir: Seq<char>,
    module_dir: Seq<char>,
    m: ModelView,
) -> Seq<ModuleFileView> {
    files_of_request(modules, modules.contains(ModuleType::Mapper), dir, module_dir, m)
}

/// The number of repositories among the requested kinds.
pub open spec fn repositories_requested(modules: Seq<ModuleType>) -> nat {
    modules.filter(|kind: ModuleType| kind == ModuleType::Repository).len()
}

/// Whether `kind` is among `modules`.
fn requests(modules: &Vec<ModuleType>, kind: ModuleType) -> (r: bool)
    ensures
        r == modules@.contains(kind),
{
    let mut i: usize = 0;
    while i < modules.len()
        invariant
            i <= modules.len(),
            forall|j: int| 0 <= j < i ==> modules@[j] != kind,
        decreases modules.len() - i,
    {
        if modules[i] == kind {
            return true;
        }
        i += 1;
    }
    false
}

/// Builds the modules of `model` that `modules` asks for, each with the path
/// it is to be written at below `dir` and `module_dir`. Writing them is left
/// to the caller.
pub fn write_modules(modules: Vec<ModuleType>, dir: &str, module_dir: &str, model: &Model) -> (files:
    Vec<ModuleFile>)
    requires
        !modules@.contains(ModuleType::PrismaRepository),
    ensures
        file_views(files@) == module_files(modules@, dir@, module_dir@, model@),
{
    let has_mapper = requests(&modules, ModuleType::Mapper);
    let name = model.name.as_str();
    let ghost per_kind = |kind: ModuleType|
        files_for(kind, has_mapper, dir@, module_dir@, model@);
    let mut files: Vec<ModuleFile> = Vec::new();
    proof {
        assert(modules@.take(0) =~= Seq::<ModuleType>::empty());
        assert(modules@.take(0).flat_map(per_kind) =~= Seq::<ModuleFileView>::empty());
        assert(file_views(files@) =~= Seq::<ModuleFileView>::empty());
    }
    let mut i: usize = 0;
    while i < modules.len()
        invariant
            i <= modules.len(),
            !modules@.contains(ModuleType::PrismaRepository),
            has_mapper == modules@.contains(ModuleType::Mapper),
            name@ == model@.name,
            per_kind == (|kind: ModuleType|
                files_for(kind, has_mapper, dir@, module_dir@, model@)),
            file_views(files@) == modules@.take(i as int).flat_map(per_kind),
        decreases modules.len() - i,
    {
        let ghost done = file_views(files@);
        proof {
            modules@.lemma_flat_map_take_append(per_kind, i as int);
            assert(modules@.contains(modules@[i as int]));
        }
        match modules[i] {
            ModuleType::Entity => {
                files.push(
                    ModuleFile {
                        path: build_path(dir, module_dir, ModuleType::Entity, name),
                        contents: create_entity(model),
                    },
                );
            },
            ModuleType::Mapper => {
                files.push(
                    ModuleFile {
                        path: build_path(dir, module_dir, ModuleType::Mapper, name),
                        contents: create_mapper(model),
                    },
                );
            },
            ModuleType::Repository => {
                let (abstract_text, prisma_text) = create_repository(model, has_mapper);
                files.push(
                    ModuleFile {
                        path: build_path(dir, module_dir, ModuleType::Repository, name),
                        contents: abstract_text,
                    },
                );
                files.push(
                    ModuleFile {
                        path: build_path(dir, module_dir, ModuleType::PrismaRepository, name),
                        contents: prisma_text,
                    },
                );
            },
            ModuleType::PrismaRepository => {
                assert(false);
            },
        }
        assert(file_views(files@) =~= done + per_kind(modules@[i as int]));
        i += 1;
    }
    assert(modules@.take(modules.len() as int) =~= modules@);
    files
}

/// Every requested kind is one file, and a repository one more: the Prisma
/// repository that comes with it.
pub proof fn lemma_file_count(
    modules: Seq<ModuleType>,
    has_mapper: bool,
    dir: Seq<char>,
    module_dir: Seq<char>,
    m: ModelView,
)
    requires
        !modules.contains(ModuleType::PrismaRepository),
    ensures
        files_of_request(modules, has_mapper, dir, module_dir, m).len() == modules.len()
            + repositories_requested(modules),
    decreases modules.len(),
{
    let per_kind = |kind: ModuleType| files_for(kind, has_mapper, dir, module_dir, m);
    let is_repository = |kind: ModuleType| kind == ModuleType::Repository;
    if modules.len() == 0 {
        reveal(Seq::filter);
        assert(modules.map_values(per_kind) =~= Seq::<Seq<ModuleFileView>>::empty());
    } else {
        let rest = modules.drop_last();
        let kind = modules.last();
        assert(modules =~= rest.push(kind));
        assert(modules.contains(kind));
        assert forall|k: ModuleType| rest.contains(k) implies modules.contains(k) by {
            let j = choose|j: int| 0 <= j < rest.len() && rest[j] == k;
            assert(modules[j] == k);
        }
        lemma_file_count(rest, has_mapper, dir, module_dir, m);
        rest.lemma_flat_map_push(per_kind, kind);
        rest.lemma_filter_push(kind, is_repository);
    }
}

} // verus!
