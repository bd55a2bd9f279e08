//! The repository builder: the abstract repository of a model, and the
//! implementation of it over a Prisma client.

use crate::model::Model;
use crate::naming::{lowercase_first, lowercase_first_char};
use vstd::prelude::*;
use vstd::string::*;

verus! {

/// The five operations every repository offers.
#[derive(Clone, Copy, Debug, PartialEq, Eq, Structural)]
pub enum RepositoryOperations {
    Create,
    Find,
    FindMany,
    Delete,
    Update,
}

/// The head of a method of the Prisma repository, up to the line break behind
/// its opening brace.
pub open spec fn method_signature(name: Seq<char>, op: RepositoryOperations) -> Seq<char> {
    match op {
        RepositoryOperations::Create => "async create(data: "@ + name + "): Promise<"@ + name
            + "> {\n"@,
        RepositoryOperations::Find => "async find(data: Partial<"@ + name + ">): Promise<"@ + name
            + "> {\n"@,
        RepositoryOperations::FindMany => "async findMany(data: Partial<"@ + name
            + ">): Promise<"@ + name + "[]> {\n"@,
        RepositoryOperations::Update => "async update(id: string, data: Partial<"@ + name
            + ">): Promise<"@ + name + "> {\n"@,
        RepositoryOperations::Delete => "async delete(id: string) {\n"@,
    }
}

/// The call a method makes on the model's accessor of the Prisma client.
///
/// `delete` is a soft delete whether or not a mapper exists: it stamps
/// `deletedAt` through an update by identifier and removes nothing.
///
/// Known defect: without a mapper, `update` issues the query of `findMany`
/// and updates nothing. It is kept, and marked here, because projects hold
/// repositories that were generated with it; a corrected body changes them.
pub open spec fn client_call(op: RepositoryOperations, has_mapper: bool) -> Seq<char> {
    match op {
        RepositoryOperations::Create => if has_mapper {
            ".create({\n      data,\n    })"@
        } else {
            ".create({\n        data,\n      })"@
        },
        RepositoryOperations::Find => if has_mapper {
            ".findFirst({\n      where: data,\n    })"@
        } else {
            ".findFirst({\n        where: data,\n      })"@
        },
        RepositoryOperations::FindMany => if has_mapper {
            ".findMany({\n      where: data,\n    })"@
        } else {
            ".findMany({\n        where: data,\n      })"@
        },
        RepositoryOperations::Update => if has_mapper {
            ".update({\n      where: {\n        id,\n      },\n      data,\n    })"@
        } else {
            ".findMany({\n        where: data,\n      })"@
        },
        RepositoryOperations::Delete =>
            ".update({\n      where: {\n        id,\n      },\n      data: {\n        deletedAt: new Date(),\n      },\n    })"@,
    }
}

/// The expression a method returns when a mapper exists: the client's result
/// piped through the mapper's `toDomain`, element by element for `findMany`.
pub open spec fn mapped_result(name: Seq<char>, op: RepositoryOperations) -> Seq<char> {
    if op == RepositoryOperations::FindMany {
        "result.map("@ + name + "Mapper.toDomain)"@
    } else {
        name + "Mapper.toDomain(result)"@
    }
}

/// The text of one method of the Prisma repository of the model `name`.
///
/// `delete` awaits its call and returns nothing. Every other method, with a
/// mapper, awaits the client's result and returns it mapped to the domain;
/// without one it returns what the client returns.
pub open spec fn repository_method(
    name: Seq<char>,
    has_mapper: bool,
    op: RepositoryOperations,
) -> Seq<char> {
    let accessor = lowercase_first(name);
    if op == RepositoryOperations::Delete {
        method_signature(name, op) + "    await this.prisma."@ + accessor + client_call(
            op,
            has_mapper,
        ) + "\n  }"@
    } else if has_mapper {
        method_signature(name, op) + "    const result = await this.prisma."@ + accessor
            + client_call(op, has_mapper) + "\n\n    return "@ + mapped_result(name, op)
            + "\n  }"@
    } else {
        method_signature(name, op) + "      return this.prisma."@ + accessor + client_call(
            op,
            has_mapper,
        ) + "\n  }"@
    }
}

/// The abstract repository of the model `name`: five abstract operations with
/// fixed signatures.
pub open spec fn abstract_repository(name: Seq<char>) -> Seq<char> {
    "export abstract class "@ + name + "Repository {\n    abstract create(data: "@ + name
        + "): Promise<"@ + name + ">\n\n    abstract find(data: Partial<"@ + name
        + ">): Promise<"@ + name + ">\n\n    abstract findMany(data: Partial<"@ + name
        + ">): Promise<"@ + name + "[]>\n\n    abstract update(id: string, data: Partial<"@ + name
        + ">): Promise<"@ + name + ">\n\n    abstract delete(id: string): Promise<void>\n}"@
}

/// The Prisma repository of the model `name`: the class head, the injected
/// client, and the five methods in the order create, find, findMany, update,
/// delete.
pub open spec fn prisma_repository(name: Seq<char>, has_mapper: bool) -> Seq<char> {
    "export class Prisma"@ + name + "Repository implements "@ + name
        + "Repository {\n    constructor(private readonly prisma: PrismaService) {}\n\n  "@
        + repository_method(name, has_mapper, RepositoryOperations::Create) + "\n\n  "@
        + repository_method(name, has_mapper, RepositoryOperations::Find) + "\n\n  "@
        + repository_method(name, has_mapper, RepositoryOperations::FindMany) + "\n\n  "@
        + repository_method(name, has_mapper, RepositoryOperations::Update) + "\n\n  "@
        + repository_method(name, has_mapper, RepositoryOperations::Delete) + "\n}"@
}

/// Appends the head of a method to `out`.
fn append_signature(out: &mut String, name: &str, op: RepositoryOperations)
    ensures
        final(out)@ == old(out)@ + method_signature(name@, op),
{
    let ghost before = out@;
    match op {
        RepositoryOperations::Create => {
            out.append("async create(data: ");
            out.append(name);
            out.append("): Promise<");
            out.append(name);
            out.append("> {\n");
        },
        RepositoryOperations::Find => {
            out.append("async find(data: Partial<");
            out.append(name);
            out.append(">): Promise<");
            out.append(name);
            out.append("> {\n");
        },
        RepositoryOperations::FindMany => {
            out.append("async findMany(data: Partial<");
            out.append(name);
            out.append(">): Promise<");
            out.append(name);
            out.append("[]> {\n");
        },
        RepositoryOperations::Update => {
            out.append("async update(id: string, data: Partial<");
            out.append(name);
            out.append(">): Promise<");
            out.append(name);
            out.append("> {\n");
        },
        RepositoryOperations::Delete => {
            out.append("async delete(id: string) {\n");
        },
    }
    assert(out@ =~= before + method_signature(name@, op));
}

/// The call an operation makes on the Prisma client.
fn client_call_text(op: RepositoryOperations, has_mapper: bool) -> (r: &'static str)
    ensures
        r@ == client_call(op, has_mapper),
{
    match op {
        RepositoryOperations::Create => if has_mapper {
            ".create({\n      data,\n    })"
        } else {
            ".create({\n        data,\n      })"
        },
        RepositoryOperations::Find => if has_mapper {
            ".findFirst({\n      where: data,\n    })"
        } else {
            ".findFirst({\n        where: data,\n      })"
        },
        RepositoryOperations::FindMany => if has_mapper {
            ".findMany({\n      where: data,\n    })"
        } else {
            ".findMany({\n        where: data,\n      })"
        },
        RepositoryOperations::Update => if has_mapper {
            ".update({\n      where: {\n        id,\n      },\n      data,\n    })"
        } else {
            ".findMany({\n        where: data,\n      })"
        },
        RepositoryOperations::Delete =>
            ".update({\n      where: {\n        id,\n      },\n      data: {\n        deletedAt: new Date(),\n      },\n    })",
    }
}

/// Appends the expression that maps the client's result to the domain.
fn append_mapped_result(out: &mut String, name: &str, op: RepositoryOperations)
    ensures
        final(out)@ == old(out)@ + mapped_result(name@, op),
{
    let ghost before = out@;
    match op {
        RepositoryOperations::FindMany => {
            out.append("result.map(");
            out.append(name);
            out.append("Mapper.toDomain)");
        },
        _ => {
            out.append(name);
            out.append("Mapper.toDomain(result)");
        },
    }
    assert(out@ =~= before + mapped_result(name@, op));
}

/// Writes one method of the Prisma repository of `model`.
pub fn build_repository_methods(model: &Model, has_mapper: bool, op: RepositoryOperations) -> (r:
    String)
    ensures
        r@ == repository_method(model@.name, has_mapper, op),
{
    let name = model.name.as_str();
    let accessor = lowercase_first_char(name);
    let mut out = String::new();
    append_signature(&mut out, name, op);
    match op {
        RepositoryOperations::Delete => {
            out.append("    await this.prisma.");
            out.append(accessor.as_str());
            out.append(client_call_text(op, has_mapper));
        },
        _ => {
            if has_mapper {
                out.append("    const result = await this.prisma.");
                out.append(accessor.as_str());
                out.append(client_call_text(op, has_mapper));
                out.append("\n\n    return ");
                append_mapped_result(&mut out, name, op);
            } else {
                out.append("      return this.prisma.");
                out.append(accessor.as_str());
                out.append(client_call_text(op, has_mapper));
            }
        },
    }
    out.append("\n  }");
    assert(out@ =~= repository_method(model@.name, has_mapper, op));
    out
}

/// Writes the abstract repository of `model` and its Prisma implementation.
/// `has_mapper` says whether a mapper is generated for the same model: with
/// one, the implementation hands out domain objects only.
pub fn create_repository(model: &Model, has_mapper: bool) -> (r: (String, String))
    ensures
        r.0@ == abstract_repository(model@.name),
        r.1@ == prisma_repository(model@.name, has_mapper),
{
    let name = model.name.as_str();
    let mut contract = String::new();
    contract.append("export abstract class ");
    contract.append(name);
    contract.append("Repository {\n    abstract create(data: ");
    contract.append(name);
    contract.append("): Promise<");
    contract.append(name);
    contract.append(">\n\n    abstract find(data: Partial<");
    contract.append(name);
    contract.append(">): Promise<");
    contract.append(name);
    contract.append(">\n\n    abstract findMany(data: Partial<");
    contract.append(name);
    contract.append(">): Promise<");
    contract.append(name);
    contract.append("[]>\n\n    abstract update(id: string, data: Partial<");
    contract.append(name);
    contract.append(">): Promise<");
    contract.append(name);
    contract.append(">\n\n    abstract delete(id: string): Promise<void>\n}");

    let create = build_repository_methods(model, has_mapper, RepositoryOperations::Create);
    let find = build_repository_methods(model, has_mapper, RepositoryOperations::Find);
    let find_many = build_repository_methods(model, has_mapper, RepositoryOperations::FindMany);
    let update = build_repository_methods(model, has_mapper, RepositoryOperations::Update);
    let delete = build_repository_methods(model, has_mapper, RepositoryOperations::Delete);

    let mut prisma = String::new();
    prisma.append("export class Prisma");
    prisma.append(name);
    prisma.append("Repository implements ");
    prisma.append(name);
    prisma.append(
        "Repository {\n    constructor(private readonly prisma: PrismaService) {}\n\n  ",
    );
    prisma.append(create.as_str());
    prisma.append("\n\n  ");
    prisma.append(find.as_str());
    prisma.append("\n\n  ");
    prisma.append(find_many.as_str());
    prisma.append("\n\n  ");
    prisma.append(update.as_str());
    prisma.append("\n\n  ");
    prisma.append(delete.as_str());
    prisma.append("\n}");

    (contract, prisma)
}

/// `delete` is the same soft delete with and without a mapper: an update by
/// identifier that stamps `deletedAt`.
pub proof fn lemma_delete_is_soft(name: Seq<char>, has_mapper: bool)
    ensures
        repository_method(name, has_mapper, RepositoryOperations::Delete)
            == "async delete(id: string) {\n"@ + "    await this.prisma."@ + lowercase_first(name)
            + ".update({\n      where: {\n        id,\n      },\n      data: {\n        deletedAt: new Date(),\n      },\n    })"@
            + "\n  }"@,
{
}

/// With a mapper, every method that reads or writes hands out what the
/// mapper's `toDomain` made of the client's result.
pub proof fn lemma_mapped_methods_go_through_to_domain(name: Seq<char>, op: RepositoryOperations)
    requires
        op != RepositoryOperations::Delete,
    ensures
        exists|head: Seq<char>, tail: Seq<char>|
            repository_method(name, true, op) == head + name + "Mapper.toDomain"@ + tail,
{
    reveal_strlit("Mapper.toDomain");
    reveal_strlit("Mapper.toDomain)");
    reveal_strlit("Mapper.toDomain(result)");
    reveal_strlit(")");
    reveal_strlit("(result)");
    let start = method_signature(name, op) + "    const result = await this.prisma."@
        + lowercase_first(name) + client_call(op, true) + "\n\n    return "@;
    let (head, tail) = if op == RepositoryOperations::FindMany {
        (start + "result.map("@, ")"@ + "\n  }"@)
    } else {
        (start, "(result)"@ + "\n  }"@)
    };
    assert("Mapper.toDomain)"@ =~= "Mapper.toDomain"@ + ")"@);
    assert("Mapper.toDomain(result)"@ =~= "Mapper.toDomain"@ + "(result)"@);
    assert(repository_method(name, true, op) =~= head + name + "Mapper.toDomain"@ + tail);
}

} // verus!
