use scaffold_gen::module_type::ModuleType;
use scaffold_gen::paths::{
    build_path, module_prefix_of, subdirectory_of, ENTITY_PATH, MAPPER_PATH,
    PRISMA_REPOSITORY_PATH, REPOSITORY_PATH,
};
use std::path::Path;

/// The path with every run of slashes read as one.
fn normalized(path: &str) -> String {
    let mut out = String::new();
    for c in path.chars() {
        if !(c == '/' && out.ends_with('/')) {
            out.push(c);
        }
    }
    out
}

#[test]
fn entity_of_order_item_below_billing() {
    let path = build_path("/out", "billing/", ModuleType::Entity, "OrderItem");
    assert_eq!(path, "/out/billing/domain/entity//order-item.entity.ts");
    assert_eq!(normalized(&path), "/out/billing/domain/entity/order-item.entity.ts");
}

#[test]
fn mapper_path() {
    assert_eq!(
        build_path("/out", "billing/", ModuleType::Mapper, "OrderItem"),
        "/out/billing/infra/database/prisma/mappers/order-item.mapper.ts"
    );
}

#[test]
fn repository_path() {
    assert_eq!(
        build_path("/out", "billing/", ModuleType::Repository, "OrderItem"),
        "/out/billing/app/repositories/order-item.repository.ts"
    );
}

#[test]
fn prisma_repository_path() {
    assert_eq!(
        build_path("/out", "billing/", ModuleType::PrismaRepository, "OrderItem"),
        "/out/billing/infra/database/prisma/prisma-order-item.repository.ts"
    );
}

#[test]
fn a_module_path_is_a_directory_of_its_own() {
    let path = build_path("/out", "billing", ModuleType::Entity, "User");
    assert_eq!(path, "/out/billing/domain/entity//user.entity.ts");
    assert!(Path::new(&path)
        .components()
        .eq(Path::new("/out/billing/domain/entity/user.entity.ts").components()));
    assert_eq!(
        build_path("", "sales", ModuleType::Repository, "U"),
        "/sales/app/repositories/u.repository.ts"
    );
    assert_eq!(
        build_path("src", "modules/sales", ModuleType::PrismaRepository, "User"),
        "src/modules/sales/infra/database/prisma/prisma-user.repository.ts"
    );
}

#[test]
fn a_slash_behind_the_module_path_changes_nothing() {
    for kind in [
        ModuleType::Entity,
        ModuleType::Mapper,
        ModuleType::Repository,
        ModuleType::PrismaRepository,
    ] {
        assert_eq!(
            build_path("/out", "billing", kind, "OrderItem"),
            build_path("/out", "billing/", kind, "OrderItem")
        );
        assert_eq!(
            build_path("/out", "a/b", kind, "OrderItem"),
            build_path("/out", "a/b/", kind, "OrderItem")
        );
    }
}

#[test]
fn a_module_path_that_ends_in_a_slash_is_taken_as_given() {
    assert_eq!(
        build_path("src", "modules/sales/", ModuleType::Mapper, "User"),
        "src/modules/sales/infra/database/prisma/mappers/user.mapper.ts"
    );
    assert_eq!(
        build_path("src", "sales//", ModuleType::Repository, "User"),
        "src/sales//app/repositories/user.repository.ts"
    );
    assert_eq!(
        build_path("src", "/", ModuleType::Repository, "User"),
        "src//app/repositories/user.repository.ts"
    );
}

#[test]
fn an_empty_module_path_adds_nothing() {
    assert_eq!(
        build_path("src", "", ModuleType::Repository, "User"),
        "src/app/repositories/user.repository.ts"
    );
    assert_eq!(
        build_path("/out", "", ModuleType::Entity, "User"),
        "/out/domain/entity//user.entity.ts"
    );
}

#[test]
fn module_prefix_ends_in_one_slash_more_at_most() {
    assert_eq!(module_prefix_of(""), "");
    assert_eq!(module_prefix_of("billing"), "billing/");
    assert_eq!(module_prefix_of("billing/"), "billing/");
    assert_eq!(module_prefix_of("a/b"), "a/b/");
    assert_eq!(module_prefix_of("/"), "/");
    assert_eq!(module_prefix_of("b"), "b/");
    assert_eq!(module_prefix_of("caf\u{e9}"), "caf\u{e9}/");
    assert_eq!(module_prefix_of(&module_prefix_of("billing")), "billing/");
}

#[test]
fn the_layout_is_fixed() {
    assert_eq!(ENTITY_PATH, "domain/entity/");
    assert_eq!(MAPPER_PATH, "infra/database/prisma/mappers");
    assert_eq!(REPOSITORY_PATH, "app/repositories");
    assert_eq!(PRISMA_REPOSITORY_PATH, "infra/database/prisma");
    assert_eq!(subdirectory_of(ModuleType::Entity), ENTITY_PATH);
    assert_eq!(subdirectory_of(ModuleType::Mapper), MAPPER_PATH);
    assert_eq!(subdirectory_of(ModuleType::Repository), REPOSITORY_PATH);
    assert_eq!(subdirectory_of(ModuleType::PrismaRepository), PRISMA_REPOSITORY_PATH);
}
