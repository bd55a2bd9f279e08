//! The type mapper and the declaration of one field: which schema types have
//! a TypeScript counterpart, and how a field of such a type is declared.

use crate::model::{Field, FieldView};
use vstd::prelude::*;
use vstd::string::*;

verus! {

/// The TypeScript type a schema type tag is declared with, if it has one.
/// Every tag outside the table (a relation, an enum, a list) has none, and a
/// field of such a type is left out of what is generated.
pub open spec fn target_type(tag: Seq<char>) -> Option<Seq<char>> {
    if tag == "Float"@ || tag == "Int"@ || tag == "Decimal"@ || tag == "BigInt"@ {
        Some("number"@)
    } else if tag == "String"@ {
        Some("string"@)
    } else if tag == "Boolean"@ {
        Some("boolean"@)
    } else if tag == "DateTime"@ {
        Some("Date"@)
    } else {
        None
    }
}

/// Whether a value of this schema type has to be narrowed to a plain number
/// when it is copied out of a persistence record.
pub open spec fn narrows(tag: Seq<char>) -> bool {
    tag == "Decimal"@ || tag == "BigInt"@
}

/// Whether the field appears in generated entities and mappers.
pub open spec fn is_representable(f: FieldView) -> bool {
    target_type(f.field_type) is Some
}

/// The type a field is declared with: the base type, unioned with `null` when
/// the field is optional.
pub open spec fn declared_type(base: Seq<char>, is_optional: bool) -> Seq<char> {
    if is_optional {
        base + " | null"@
    } else {
        base
    }
}

/// How a declaration line starts: a line break and a tab, and `readonly` for
/// a property of a class.
pub open spec fn line_head(read_only: bool) -> Seq<char> {
    if read_only {
        "\n\treadonly "@
    } else {
        "\n\t"@
    }
}

/// One declaration line: the head, then the name and the declared type.
pub open spec fn type_string(
    field_type: Seq<char>,
    field_name: Seq<char>,
    is_optional: bool,
    read_only: bool,
) -> Seq<char> {
    line_head(read_only) + field_name + ": "@ + declared_type(field_type, is_optional)
}

/// The declaration line of a representable field.
pub open spec fn declaration(f: FieldView, read_only: bool) -> Seq<char> {
    type_string(target_type(f.field_type).unwrap(), f.name, f.is_optional, read_only)
}

/// The declaration line of a field, if the field is representable.
pub open spec fn field_decl(f: FieldView, read_only: bool) -> Option<Seq<char>> {
    if is_representable(f) {
        Some(declaration(f, read_only))
    } else {
        None
    }
}

/// The representable fields among `fields`, in their order.
pub open spec fn representable_fields(fields: Seq<FieldView>) -> Seq<FieldView> {
    fields.filter(|f: FieldView| is_representable(f))
}

/// The text that the representable fields among `fields` give when each is
/// rendered by `render` and the results are joined in order.
pub open spec fn rendered(fields: Seq<FieldView>, render: spec_fn(FieldView) -> Seq<char>) -> Seq<
    char,
> {
    representable_fields(fields).map_values(render).flatten()
}

/// No field, no text.
pub proof fn lemma_rendered_empty(render: spec_fn(FieldView) -> Seq<char>)
    ensures
        rendered(Seq::<FieldView>::empty(), render) == Seq::<char>::empty(),
{
    reveal(Seq::filter);
    assert(representable_fields(Seq::<FieldView>::empty()) =~= Seq::<FieldView>::empty());
    assert(Seq::<FieldView>::empty().map_values(render) =~= Seq::<Seq<char>>::empty());
}

/// One field more adds its rendering behind the others if it is
/// representable, and nothing if it is not.
pub proof fn lemma_rendered_step(
    fields: Seq<FieldView>,
    render: spec_fn(FieldView) -> Seq<char>,
    i: int,
)
    requires
        0 <= i < fields.len(),
    ensures
        rendered(fields.take(i + 1), render) == rendered(fields.take(i), render) + (
        if is_representable(fields[i]) {
            render(fields[i])
        } else {
            Seq::empty()
        }),
{
    let before = fields.take(i);
    let pred = |f: FieldView| is_representable(f);
    fields.lemma_take_succ_push(i);
    before.lemma_filter_push(fields[i], pred);
    if is_representable(fields[i]) {
        before.filter(pred).lemma_push_map_commute(render, fields[i]);
        before.filter(pred).map_values(render).lemma_flatten_push(render(fields[i]));
    } else {
        assert(rendered(before, render) + Seq::<char>::empty() =~= rendered(before, render));
    }
}

/// The text of an optional string slice, for contracts.
pub open spec fn opt_text(s: Option<&str>) -> Option<Seq<char>> {
    match s {
        Some(t) => Some(t@),
        None => None,
    }
}

/// The text of an optional string, for contracts.
pub open spec fn opt_string_text(s: Option<String>) -> Option<Seq<char>> {
    match s {
        Some(t) => Some(t@),
        None => None,
    }
}

/// Maps a schema type tag to the TypeScript type it is declared with.
pub fn map_type(field_type: &str) -> (r: Option<&'static str>)
    ensures
        opt_text(r) == target_type(field_type@),
{
    if field_type.eq("Float") || field_type.eq("Int") || field_type.eq("Decimal") || field_type.eq(
        "BigInt",
    ) {
        Some("number")
    } else if field_type.eq("String") {
        Some("string")
    } else if field_type.eq("Boolean") {
        Some("boolean")
    } else if field_type.eq("DateTime") {
        Some("Date")
    } else {
        None
    }
}

/// Whether a mapper narrows a value of this schema type with `Number(..)`.
pub fn needs_narrowing(field_type: &str) -> (r: bool)
    ensures
        r == narrows(field_type@),
{
    field_type.eq("Decimal") || field_type.eq("BigInt")
}

/// Writes one declaration line.
pub fn build_type_string(
    field_type: &str,
    field_name: &str,
    is_optional: bool,
    read_only: bool,
) -> (r: String)
    ensures
        r@ == type_string(field_type@, field_name@, is_optional, read_only),
{
    let mut out = String::new();
    if read_only {
        out.append("\n\treadonly ");
    } else {
        out.append("\n\t");
    }
    out.append(field_name);
    out.append(": ");
    out.append(field_type);
    if is_optional {
        out.append(" | null");
    }
    assert(out@ =~= type_string(field_type@, field_name@, is_optional, read_only));
    out
}

/// The declaration line of a field, or `None` for a field whose type has no
/// TypeScript counterpart.
pub fn get_field_with_type(field: &Field, read_only: bool) -> (r: Option<String>)
    ensures
        opt_string_text(r) == field_decl(field@, read_only),
{
    match map_type(field.field_type.as_str()) {
        Some(t) => Some(build_type_string(t, field.name.as_str(), field.is_optional, read_only)),
        None => None,
    }
}

/// An optional field is declared with its base type unioned with `null`, a
/// required field with its base type alone.
pub proof fn lemma_optional_is_unioned_with_null(f: FieldView, read_only: bool)
    requires
        is_representable(f),
    ensures
        f.is_optional ==> declaration(f, read_only) == type_string(
            target_type(f.field_type).unwrap(),
            f.name,
            false,
            read_only,
        ) + " | null"@,
        !f.is_optional ==> declaration(f, read_only) == line_head(read_only) + f.name + ": "@
            + target_type(f.field_type).unwrap(),
{
    let base = target_type(f.field_type).unwrap();
    assert(line_head(read_only) + f.name + ": "@ + (base + " | null"@) =~= line_head(read_only)
        + f.name + ": "@ + base + " | null"@);
}

} // verus!
