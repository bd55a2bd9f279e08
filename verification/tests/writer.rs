use scaffold_gen::entity::create_entity;
use scaffold_gen::mapper::create_mapper;
use scaffold_gen::model::{Field, Model};
use scaffold_gen::module_type::ModuleType;
use scaffold_gen::paths::build_path;
use scaffold_gen::repository::create_repository;
use scaffold_gen::writer::{write_modules, ModuleFile};

fn user() -> Model {
    Model {
        name: "User".to_string(),
        fields: vec![
            Field { name: "name".to_string(), field_type: "String".to_string(), is_optional: false },
            Field { name: "age".to_string(), field_type: "Int".to_string(), is_optional: true },
        ],
    }
}

fn paths(files: &[ModuleFile]) -> Vec<&str> {
    files.iter().map(|file| file.path.as_str()).collect()
}

#[test]
fn an_entity_request_is_one_file() {
    let files = write_modules(vec![ModuleType::Entity], "/out", "users/", &user());
    assert_eq!(files.len(), 1);
    assert_eq!(files[0].path, "/out/users/domain/entity//user.entity.ts");
    assert!(files[0].contents.contains("export interface IUser {\n\tname: string\n\tage: number | null\n}"));
    assert!(files[0].contents.contains("export class User implements IUser {"));
    assert!(files[0].contents.contains("\tconstructor(user: IUser) {\n\t\tObject.assign(this, user)\n\t}"));
    assert_eq!(files[0].contents, create_entity(&user()));
}

#[test]
fn a_mapper_request_is_one_file() {
    let files = write_modules(vec![ModuleType::Mapper], "/out", "users/", &user());
    assert_eq!(
        files,
        vec![ModuleFile {
            path: "/out/users/infra/database/prisma/mappers/user.mapper.ts".to_string(),
            contents: create_mapper(&user()),
        }]
    );
}

#[test]
fn a_repository_request_brings_its_prisma_companion() {
    let files = write_modules(vec![ModuleType::Repository], "/out", "users/", &user());
    assert_eq!(
        paths(&files),
        vec![
            "/out/users/app/repositories/user.repository.ts",
            "/out/users/infra/database/prisma/prisma-user.repository.ts",
        ]
    );
    let (contract, prisma) = create_repository(&user(), false);
    assert_eq!(files[0].contents, contract);
    assert_eq!(files[1].contents, prisma);
}

#[test]
fn a_repository_without_a_mapper_request_is_unmapped() {
    let files = write_modules(vec![ModuleType::Repository], "/out", "users/", &user());
    let prisma = &files[1].contents;
    assert!(prisma.contains("return this.prisma.user.create({\n        data,\n      })"));
    assert!(prisma.contains("return this.prisma.user.findFirst({\n        where: data,\n      })"));
    assert!(prisma.contains("return this.prisma.user.findMany({\n        where: data,\n      })"));
    assert!(!prisma.contains("UserMapper"));
    assert!(prisma.contains(
        "async delete(id: string) {\n    await this.prisma.user.update({\n      where: {\n        id,\n      },\n      data: {\n        deletedAt: new Date(),\n      },\n    })\n  }"
    ));
}

#[test]
fn a_repository_with_a_mapper_request_is_mapped() {
    let files =
        write_modules(vec![ModuleType::Repository, ModuleType::Mapper], "/out", "users/", &user());
    assert_eq!(
        paths(&files),
        vec![
            "/out/users/app/repositories/user.repository.ts",
            "/out/users/infra/database/prisma/prisma-user.repository.ts",
            "/out/users/infra/database/prisma/mappers/user.mapper.ts",
        ]
    );
    let (contract, prisma) = create_repository(&user(), true);
    assert_eq!(files[0].contents, contract);
    assert_eq!(files[1].contents, prisma);
    assert_eq!(files[2].contents, create_mapper(&user()));
    assert_eq!(files[1].contents.matches("UserMapper.toDomain").count(), 4);
    assert!(files[1].contents.contains("deletedAt: new Date()"));
}

#[test]
fn the_mapper_counts_wherever_it_stands_in_the_request() {
    let before =
        write_modules(vec![ModuleType::Mapper, ModuleType::Repository], "/out", "users/", &user());
    let after =
        write_modules(vec![ModuleType::Repository, ModuleType::Mapper], "/out", "users/", &user());
    assert_eq!(before[2].contents, after[1].contents);
    assert!(before[2].contents.contains("UserMapper.toDomain"));
    assert_eq!(before[0], after[2]);
}

#[test]
fn files_come_in_the_order_of_the_request() {
    let files = write_modules(
        vec![ModuleType::Mapper, ModuleType::Entity, ModuleType::Repository],
        "/out",
        "billing/",
        &Model { name: "OrderItem".to_string(), fields: vec![] },
    );
    let expected: Vec<String> = [
        ModuleType::Mapper,
        ModuleType::Entity,
        ModuleType::Repository,
        ModuleType::PrismaRepository,
    ]
    .into_iter()
    .map(|kind| build_path("/out", "billing/", kind, "OrderItem"))
    .collect();
    assert_eq!(paths(&files), expected);
    assert_eq!(files[1].path, "/out/billing/domain/entity//order-item.entity.ts");
}

#[test]
fn a_kind_asked_for_twice_is_built_twice() {
    let files = write_modules(vec![ModuleType::Entity, ModuleType::Entity], "/out", "", &user());
    assert_eq!(files.len(), 2);
    assert_eq!(files[0], files[1]);
}

#[test]
fn files_land_below_the_module_with_or_without_its_slash() {
    let kinds = vec![ModuleType::Entity, ModuleType::Repository, ModuleType::Mapper];
    let closed = write_modules(kinds.clone(), "/out", "users/", &user());
    let open = write_modules(kinds, "/out", "users", &user());
    assert_eq!(open, closed);
    assert_eq!(
        paths(&open),
        vec![
            "/out/users/domain/entity//user.entity.ts",
            "/out/users/app/repositories/user.repository.ts",
            "/out/users/infra/database/prisma/prisma-user.repository.ts",
            "/out/users/infra/database/prisma/mappers/user.mapper.ts",
        ]
    );
}

#[test]
fn an_empty_request_is_no_file() {
    let files = write_modules(vec![], "/out", "users/", &user());
    assert!(files.is_empty());
}
