//! The mapper builder: the class that turns a persistence record of a model
//! into its domain entity.

use crate::entity::declaration_lines;
use crate::fields::{
    declaration, is_representable, lemma_rendered_empty, lemma_rendered_step, map_type, narrows,
    needs_narrowing, rendered, representable_fields,
};
use crate::model::{Field, FieldView, Model, ModelView};
use vstd::prelude::*;
use vstd::string::*;

verus! {

/// The line that copies the field `name` with an explicit narrowing to a
/// plain number.
pub open spec fn narrowed(name: Seq<char>) -> Seq<char> {
    "\n\t\t\t"@ + name + ": Number(data."@ + name + "),"@
}

/// The line that copies the field `name` as it is.
pub open spec fn copied(name: Seq<char>) -> Seq<char> {
    "\n\t\t\t"@ + name + ": data."@ + name + ","@
}

/// The line of a representable field in the object that `toDomain` builds:
/// narrowed for `Decimal` and `BigInt`, copied for every other type.
pub open spec fn conversion(f: FieldView) -> Seq<char> {
    if narrows(f.field_type) {
        narrowed(f.name)
    } else {
        copied(f.name)
    }
}

/// The conversion lines of the representable fields among `fields`, one for
/// each, in field order.
pub open spec fn conversion_lines(fields: Seq<FieldView>) -> Seq<Seq<char>> {
    representable_fields(fields).map_values(|f: FieldView| conversion(f))
}

/// The conversion lines, joined.
pub open spec fn conversions(fields: Seq<FieldView>) -> Seq<char> {
    conversion_lines(fields).flatten()
}

/// The text of the mapper of a model.
pub open spec fn mapper_text(m: ModelView) -> Seq<char> {
    "export class "@ + m.name + "Mapper {\n\tstatic toDomain(data: Prisma"@ + m.name + "): "@
        + m.name + " {\n\t\treturn new "@ + m.name + "({"@ + conversions(m.fields)
        + "\n\t\t})\n\t}\n}"@
}

/// Appends the conversion line of one representable field to `out`.
fn append_conversion(out: &mut String, field: &Field)
    ensures
        final(out)@ == old(out)@ + conversion(field@),
{
    let ghost before = out@;
    let name = field.name.as_str();
    out.append("\n\t\t\t");
    out.append(name);
    if needs_narrowing(field.field_type.as_str()) {
        out.append(": Number(data.");
        out.append(name);
        out.append("),");
    } else {
        out.append(": data.");
        out.append(name);
        out.append(",");
    }
    assert(out@ =~= before + conversion(field@));
}

/// Writes the mapper of `model`: a class with the one static operation
/// `toDomain`, which builds the entity from a persistence record field by
/// field. Fields whose type has no TypeScript counterpart are neither read nor
/// written.
pub fn create_mapper(model: &Model) -> (r: String)
    ensures
        r@ == mapper_text(model@),
{
    let name = model.name.as_str();
    let mut mapper = String::new();
    mapper.append("export class ");
    mapper.append(name);
    mapper.append("Mapper {\n\tstatic toDomain(data: Prisma");
    mapper.append(name);
    mapper.append("): ");
    mapper.append(name);
    mapper.append(" {\n\t\treturn new ");
    mapper.append(name);
    mapper.append("({");

    let ghost head = mapper@;
    let ghost views = model@.fields;
    let ghost render = |f: FieldView| conversion(f);
    proof {
        lemma_rendered_empty(render);
        assert(views.take(0) =~= Seq::<FieldView>::empty());
        assert(head + Seq::<char>::empty() =~= head);
    }
    let mut i: usize = 0;
    while i < model.fields.len()
        invariant
            i <= model.fields.len(),
            views == model@.fields,
            render == (|f: FieldView| conversion(f)),
            mapper@ == head + rendered(views.take(i as int), render),
        decreases model.fields.len() - i,
    {
        proof {
            lemma_rendered_step(views, render, i as int);
        }
        let field = &model.fields[i];
        if map_type(field.field_type.as_str()).is_some() {
            append_conversion(&mut mapper, field);
        }
        assert(mapper@ =~= head + rendered(views.take(i + 1), render));
        i += 1;
    }
    assert(views.take(model.fields.len() as int) =~= views);

    mapper.append("\n\t\t})\n\t}\n}");
    assert(mapper@ =~= mapper_text(model@));
    mapper
}

/// A mapper copies exactly the fields that the entity declares, in the same
/// order: a field without a declared type is neither read nor written.
pub proof fn lemma_mapper_and_entity_cover_the_same_fields(fields: Seq<FieldView>)
    ensures
        conversion_lines(fields).len() == representable_fields(fields).len(),
        conversion_lines(fields).len() == declaration_lines(fields, false).len(),
        forall|i: int|
            0 <= i < representable_fields(fields).len() ==> {
                let f = #[trigger] representable_fields(fields)[i];
                &&& conversion_lines(fields)[i] == conversion(f)
                &&& declaration_lines(fields, false)[i] == declaration(f, false)
            },
{
}

/// Narrowing is applied to `Decimal` and `BigInt` and to no other numeric
/// type, and it shows in the text: a `Decimal` or `BigInt` field is copied
/// through `Number(..)`, a `Float` or `Int` field is copied as it is, and the
/// two lines differ whatever the fields are called.
pub proof fn lemma_narrowing_only_for_decimal_and_bigint(f: FieldView, g: FieldView)
    requires
        f.field_type == "Decimal"@ || f.field_type == "BigInt"@,
        g.field_type == "Float"@ || g.field_type == "Int"@,
    ensures
        is_representable(f),
        is_representable(g),
        conversion(f) == narrowed(f.name),
        conversion(g) == copied(g.name),
        conversion(f) != conversion(g),
{
    reveal_strlit("Decimal");
    reveal_strlit("BigInt");
    reveal_strlit("Float");
    reveal_strlit("Int");
    assert(!narrows(g.field_type)) by {
        if g.field_type == "Float"@ {
            assert(g.field_type.len() == 5);
        } else {
            assert(g.field_type.len() == 3);
        }
    }
    lemma_narrowed_differs_from_copied(f.name, g.name);
}

/// A narrowed line and a copied line are never the same text.
pub proof fn lemma_narrowed_differs_from_copied(a: Seq<char>, b: Seq<char>)
    ensures
        narrowed(a) != copied(b),
{
    reveal_strlit("\n\t\t\t");
    reveal_strlit(": Number(data.");
    reveal_strlit("),");
    reveal_strlit(": data.");
    reveal_strlit(",");
    let n = narrowed(a);
    let c = copied(b);
    if n == c {
        // Equal lengths put `b` four characters ahead of `a`, so where the
        // narrowed line is inside `Number`, the copied line starts `: data.`.
        assert(n.len() == 2 * a.len() + 20);
        assert(c.len() == 2 * b.len() + 12);
        let k = a.len() as int + 8;
        assert(n[k] == ": Number(data."@[4]);
        assert(c[k] == ": data."@[0]);
        assert(false);
    }
}

} // verus!
