use scaffold_gen::entity::create_entity;
use scaffold_gen::model::{Field, Model};

fn field(name: &str, field_type: &str, is_optional: bool) -> Field {
    Field { name: name.to_string(), field_type: field_type.to_string(), is_optional }
}

fn user() -> Model {
    Model {
        name: "User".to_string(),
        fields: vec![field("name", "String", false), field("age", "Int", true)],
    }
}

/// The declaration lines between a block's opening line and the line that
/// closes its field list.
fn declared(text: &str, opening: &str) -> Vec<String> {
    text.lines()
        .skip_while(|line| *line != opening)
        .skip(1)
        .take_while(|line| line.starts_with('\t') && !line.starts_with("\tconstructor"))
        .map(|line| line.trim_start_matches('\t').trim_start_matches("readonly ").to_string())
        .collect()
}

#[test]
fn entity_of_user_is_an_interface_and_a_class() {
    let expected = "export interface IUser {\n\
                    \tname: string\n\
                    \tage: number | null\n\
                    }\n\
                    \n\
                    export class User implements IUser {\n\
                    \treadonly name: string\n\
                    \treadonly age: number | null\n\
                    \n\
                    \tconstructor(user: IUser) {\n\
                    \t\tObject.assign(this, user)\n\
                    \t}\n\
                    }\n";
    assert_eq!(create_entity(&user()), expected);
}

#[test]
fn entity_of_user_has_what_is_asked_of_it() {
    let text = create_entity(&user());
    assert!(text.contains("export interface IUser {"));
    assert!(text.contains("\n\tname: string\n"));
    assert!(text.contains("\n\tage: number | null\n"));
    assert!(text.contains("export class User implements IUser {"));
    assert_eq!(text.matches("constructor(").count(), 1);
    assert!(text.contains("\tconstructor(user: IUser) {\n\t\tObject.assign(this, user)\n\t}"));
}

#[test]
fn entity_without_fields_is_still_whole() {
    let model = Model { name: "Empty".to_string(), fields: vec![] };
    assert_eq!(
        create_entity(&model),
        "export interface IEmpty {\n}\n\nexport class Empty implements IEmpty {\n\n\tconstructor(empty: IEmpty) {\n\t\tObject.assign(this, empty)\n\t}\n}\n"
    );
}

#[test]
fn entity_without_a_representable_field_is_still_whole() {
    let model = Model {
        name: "Link".to_string(),
        fields: vec![field("from", "Node", false), field("to", "Node", false)],
    };
    assert_eq!(
        create_entity(&model),
        "export interface ILink {\n}\n\nexport class Link implements ILink {\n\n\tconstructor(link: ILink) {\n\t\tObject.assign(this, link)\n\t}\n}\n"
    );
}

#[test]
fn entity_leaves_unknown_types_out_of_both_blocks() {
    let model = Model {
        name: "Post".to_string(),
        fields: vec![
            field("id", "Int", false),
            field("author", "User", false),
            field("title", "String", false),
            field("tags", "Tag[]", false),
            field("publishedAt", "DateTime", true),
        ],
    };
    let text = create_entity(&model);
    assert!(!text.contains("author"));
    assert!(!text.contains("tags"));
    let expected = "export interface IPost {\n\
                    \tid: number\n\
                    \ttitle: string\n\
                    \tpublishedAt: Date | null\n\
                    }\n\
                    \n\
                    export class Post implements IPost {\n\
                    \treadonly id: number\n\
                    \treadonly title: string\n\
                    \treadonly publishedAt: Date | null\n\
                    \n\
                    \tconstructor(post: IPost) {\n\
                    \t\tObject.assign(this, post)\n\
                    \t}\n\
                    }\n";
    assert_eq!(text, expected);
}

#[test]
fn interface_and_class_declare_the_same_fields_in_order() {
    let model = Model {
        name: "Invoice".to_string(),
        fields: vec![
            field("total", "Decimal", false),
            field("customer", "Customer", false),
            field("paid", "Boolean", false),
            field("lines", "Line[]", false),
            field("note", "String", true),
            field("count", "BigInt", true),
            field("rate", "Float", false),
            field("dueAt", "DateTime", true),
        ],
    };
    let text = create_entity(&model);
    let in_interface = declared(&text, "export interface IInvoice {");
    let in_class = declared(&text, "export class Invoice implements IInvoice {");
    let expected: Vec<String> = vec![
        "total: number",
        "paid: boolean",
        "note: string | null",
        "count: number | null",
        "rate: number",
        "dueAt: Date | null",
    ]
    .into_iter()
    .map(String::from)
    .collect();
    assert_eq!(in_interface.len(), 6);
    assert_eq!(in_interface, expected);
    assert_eq!(in_class, expected);
}

#[test]
fn entity_names_its_constructor_argument_after_the_model() {
    let model = Model { name: "OrderItem".to_string(), fields: vec![field("qty", "Int", false)] };
    let text = create_entity(&model);
    assert!(text.contains("\tconstructor(orderItem: IOrderItem) {\n\t\tObject.assign(this, orderItem)\n\t}\n}\n"));
    assert!(text.ends_with("}\n"));
    assert!(!text.ends_with("}\n\n"));
}
