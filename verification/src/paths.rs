//! The path resolver: where the module of each kind belongs, below a base
//! directory and a module path.

use crate::module_type::ModuleType;
use crate::naming::{kebab_case, to_kebab_case};
use vstd::prelude::*;
use vstd::string::*;

verus! {

/// The directory of entities, below the module.
pub const ENTITY_PATH: &'static str = "domain/entity/";

/// The directory of mappers, below the module.
pub const MAPPER_PATH: &'static str = "infra/database/prisma/mappers";

/// The directory of abstract repositories, below the module.
pub const REPOSITORY_PATH: &'static str = "app/repositories";

/// The directory of Prisma repositories, below the module.
pub const PRISMA_REPOSITORY_PATH: &'static str = "infra/database/prisma";

/// The directory of the modules of a kind, below the module.
pub open spec fn subdirectory(kind: ModuleType) -> &'static str {
    match kind {
        ModuleType::Entity => ENTITY_PATH,
        ModuleType::Mapper => MAPPER_PATH,
        ModuleType::Repository => REPOSITORY_PATH,
        ModuleType::PrismaRepository => PRISMA_REPOSITORY_PATH,
    }
}

/// The file name of the module of a kind, from the kebab-cased name of the
/// model.
pub open spec fn file_name(kind: ModuleType, stem: Seq<char>) -> Seq<char> {
    match kind {
        ModuleType::Entity => stem + ".entity.ts"@,
        ModuleType::Mapper => stem + ".mapper.ts"@,
        ModuleType::Repository => stem + ".repository.ts"@,
        ModuleType::PrismaRepository => "prisma-"@ + stem + ".repository.ts"@,
    }
}

/// The module path as a directory of its own in front of what follows: with
/// a slash behind it, unless it is empty or ends in one already.
pub open spec fn module_prefix(module_dir: Seq<char>) -> Seq<char> {
    if module_dir.len() == 0 || module_dir.last() == '/' {
        module_dir
    } else {
        module_dir + "/"@
    }
}

/// The path of the module of a kind: the base directory, a slash, the module
/// path as a directory of its own, the directory of the kind, a slash, the
/// file name.
pub open spec fn path_of(
    dir: Seq<char>,
    module_dir: Seq<char>,
    kind: ModuleType,
    model_name: Seq<char>,
) -> Seq<char> {
    dir + "/"@ + module_prefix(module_dir) + subdirectory(kind)@ + "/"@ + file_name(
        kind,
        kebab_case(model_name),
    )
}

/// The directory of the modules of a kind.
pub fn subdirectory_of(kind: ModuleType) -> (r: &'static str)
    ensures
        r == subdirectory(kind),
{
    match kind {
        ModuleType::Entity => ENTITY_PATH,
        ModuleType::Mapper => MAPPER_PATH,
        ModuleType::Repository => REPOSITORY_PATH,
        ModuleType::PrismaRepository => PRISMA_REPOSITORY_PATH,
    }
}

/// The module path with the slash that parts it from what follows.
pub fn module_prefix_of(module_dir: &str) -> (r: String)
    ensures
        r@ == module_prefix(module_dir@),
{
    let n = module_dir.unicode_len();
    let mut out = String::new();
    out.append(module_dir);
    if n > 0 && module_dir.get_char(n - 1) != '/' {
        out.append("/");
    }
    out
}

/// Resolves the path at which the module of kind `module_type` of the model
/// `model_name` is written.
pub fn build_path(dir: &str, module_dir: &str, module_type: ModuleType, model_name: &str) -> (r:
    String)
    ensures
        r@ == path_of(dir@, module_dir@, module_type, model_name@),
{
    let kebab_model_name = to_kebab_case(model_name);
    let mut out = String::new();
    out.append(dir);
    out.append("/");
    out.append(module_prefix_of(module_dir).as_str());
    out.append(subdirectory_of(module_type));
    out.append("/");
    match module_type {
        ModuleType::Entity => {
            out.append(kebab_model_name.as_str());
            out.append(".entity.ts");
        },
        ModuleType::Mapper => {
            out.append(kebab_model_name.as_str());
            out.append(".mapper.ts");
        },
        ModuleType::Repository => {
            out.append(kebab_model_name.as_str());
            out.append(".repository.ts");
        },
        ModuleType::PrismaRepository => {
            out.append("prisma-");
            out.append(kebab_model_name.as_str());
            out.append(".repository.ts");
        },
    }
    assert(out@ =~= path_of(dir@, module_dir@, module_type, model_name@));
    out
}

/// The module path never runs into the directory of the kind: what stands
/// between the base directory and that directory is empty or ends in a slash,
/// and it is the module path itself wherever that is empty or ends in one.
pub proof fn lemma_module_prefix_is_a_directory(module_dir: Seq<char>)
    ensures
        module_prefix(module_dir).len() == 0 || module_prefix(module_dir).last() == '/',
        module_prefix(module_dir).len() == 0 <==> module_dir.len() == 0,
        module_dir.is_prefix_of(module_prefix(module_dir)),
        module_dir.len() == 0 || module_dir.last() == '/' ==> module_prefix(module_dir)
            == module_dir,
        module_prefix(module_prefix(module_dir)) == module_prefix(module_dir),
{
    reveal_strlit("/");
    let closed = module_prefix(module_dir);
    if !(module_dir.len() == 0 || module_dir.last() == '/') {
        assert(closed.last() == "/"@[0]);
    }
    assert(module_dir.is_prefix_of(closed));
}

/// With or without a slash behind the module path, the path is the same.
pub proof fn lemma_path_ignores_trailing_slash(
    dir: Seq<char>,
    module_dir: Seq<char>,
    kind: ModuleType,
    model_name: Seq<char>,
)
    requires
        module_dir.len() > 0,
        module_dir.last() != '/',
    ensures
        path_of(dir, module_dir + "/"@, kind, model_name) == path_of(
            dir,
            module_dir,
            kind,
            model_name,
        ),
        path_of(dir, module_dir, kind, model_name) == dir + "/"@ + module_dir + "/"@
            + subdirectory(kind)@ + "/"@ + file_name(kind, kebab_case(model_name)),
{
    reveal_strlit("/");
    assert((module_dir + "/"@).last() == "/"@[0]);
    assert(dir + "/"@ + (module_dir + "/"@) + subdirectory(kind)@ + "/"@ + file_name(
        kind,
        kebab_case(model_name),
    ) =~= dir + "/"@ + module_dir + "/"@ + subdirectory(kind)@ + "/"@ + file_name(
        kind,
        kebab_case(model_name),
    ));
}

} // verus!
