//! The entity builder: the interface of a model and the class that implements
//! it, as one text.

use crate::fields::{
    declaration, get_field_with_type, is_representable, lemma_rendered_empty, lemma_rendered_step,
    rendered, representable_fields, target_type, type_string,
};
use crate::model::{field_views, Field, FieldView, Model, ModelView};
use crate::naming::{lowercase_first, lowercase_first_char};
use vstd::prelude::*;
use vstd::string::*;

verus! {

/// The name of the interface of the entity `name`.
pub open spec fn interface_name(name: Seq<char>) -> Seq<char> {
    "I"@ + name
}

/// The declaration lines of the representable fields among `fields`, one for
/// each, in field order: those of the interface, or with `read_only` those of
/// the class.
pub open spec fn declaration_lines(fields: Seq<FieldView>, read_only: bool) -> Seq<Seq<char>> {
    representable_fields(fields).map_values(|f: FieldView| declaration(f, read_only))
}

/// The declaration lines, joined.
pub open spec fn declarations(fields: Seq<FieldView>, read_only: bool) -> Seq<char> {
    declaration_lines(fields, read_only).flatten()
}

/// The interface of the entity: every representable field with its declared
/// type, in field order.
pub open spec fn interface_block(m: ModelView) -> Seq<char> {
    "export interface "@ + interface_name(m.name) + " {"@ + declarations(m.fields, false) + "\n}"@
}

/// The class of the entity: the same fields as read-only properties, and a
/// constructor that copies them from one argument of the interface's type.
pub open spec fn class_block(m: ModelView) -> Seq<char> {
    "export class "@ + m.name + " implements "@ + interface_name(m.name) + " {"@ + declarations(
        m.fields,
        true,
    ) + "\n\n\tconstructor("@ + lowercase_first(m.name) + ": "@ + interface_name(m.name)
        + ") {\n\t\tObject.assign(this, "@ + lowercase_first(m.name) + ")\n\t}\n}"@
}

/// The text of the entity of a model: the interface, an empty line, the class.
pub open spec fn entity_text(m: ModelView) -> Seq<char> {
    interface_block(m) + "\n\n"@ + class_block(m) + "\n"@
}

/// Appends the declaration lines of the representable fields to `out`.
fn append_declarations(out: &mut String, fields: &Vec<Field>, read_only: bool)
    ensures
        final(out)@ == old(out)@ + declarations(field_views(fields@), read_only),
{
    let ghost before = out@;
    let ghost views = field_views(fields@);
    let ghost render = |f: FieldView| declaration(f, read_only);
    proof {
        lemma_rendered_empty(render);
        assert(views.take(0) =~= Seq::<FieldView>::empty());
        assert(before + Seq::<char>::empty() =~= before);
    }
    let mut i: usize = 0;
    while i < fields.len()
        invariant
            i <= fields.len(),
            views == field_views(fields@),
            render == (|f: FieldView| declaration(f, read_only)),
            out@ == before + rendered(views.take(i as int), render),
        decreases fields.len() - i,
    {
        proof {
            lemma_rendered_step(views, render, i as int);
        }
        match get_field_with_type(&fields[i], read_only) {
            Some(line) => {
                out.append(line.as_str());
            },
            None => {},
        }
        assert(out@ =~= before + rendered(views.take(i + 1), render));
        i += 1;
    }
    assert(views.take(fields.len() as int) =~= views);
}

/// Writes the entity of `model`: its interface and the class implementing it.
/// Fields whose type has no TypeScript counterpart appear in neither.
pub fn create_entity(model: &Model) -> (r: String)
    ensures
        r@ == entity_text(model@),
{
    let name = model.name.as_str();
    let mut entity_interface = String::new();
    entity_interface.append("I");
    entity_interface.append(name);
    let param_name = lowercase_first_char(name);

    let mut entity = String::new();
    entity.append("export interface ");
    entity.append(entity_interface.as_str());
    entity.append(" {");
    append_declarations(&mut entity, &model.fields, false);
    entity.append("\n}");
    assert(entity@ =~= interface_block(model@));

    entity.append("\n\n");

    entity.append("export class ");
    entity.append(name);
    entity.append(" implements ");
    entity.append(entity_interface.as_str());
    entity.append(" {");
    append_declarations(&mut entity, &model.fields, true);
    entity.append("\n\n\tconstructor(");
    entity.append(param_name.as_str());
    entity.append(": ");
    entity.append(entity_interface.as_str());
    entity.append(") {\n\t\tObject.assign(this, ");
    entity.append(param_name.as_str());
    entity.append(")\n\t}\n}");
    assert(entity@ =~= interface_block(model@) + "\n\n"@ + class_block(model@));

    entity.append("\n");
    entity
}

/// The interface and the class of an entity declare the same fields: each
/// has one declaration for every representable field of the model and no
/// other, in field order, and the two declarations of a field give it the same
/// name and the same type.
pub proof fn lemma_interface_and_class_declare_the_same_fields(fields: Seq<FieldView>)
    ensures
        declaration_lines(fields, false).len() == representable_fields(fields).len(),
        declaration_lines(fields, true).len() == representable_fields(fields).len(),
        forall|i: int|
            0 <= i < representable_fields(fields).len() ==> {
                let f = #[trigger] representable_fields(fields)[i];
                let base = target_type(f.field_type);
                &&& base is Some
                &&& fields.contains(f)
                &&& declaration_lines(fields, false)[i] == type_string(
                    base.unwrap(),
                    f.name,
                    f.is_optional,
                    false,
                )
                &&& declaration_lines(fields, true)[i] == type_string(
                    base.unwrap(),
                    f.name,
                    f.is_optional,
                    true,
                )
            },
        forall|j: int|
            0 <= j < fields.len() && is_representable(fields[j])
                ==> representable_fields(fields).contains(#[trigger] fields[j]),
{
    let pred = |f: FieldView| is_representable(f);
    let kept = representable_fields(fields);
    assert forall|i: int| 0 <= i < kept.len() implies is_representable(#[trigger] kept[i])
        && fields.contains(kept[i]) by {
        fields.lemma_filter_pred(pred, i);
        assert(kept.contains(kept[i]));
        fields.lemma_filter_contains_rev(pred, kept[i]);
    }
    assert forall|j: int| 0 <= j < fields.len() && is_representable(fields[j]) implies kept.contains(
        #[trigger] fields[j],
    ) by {
        fields.lemma_filter_contains(pred, j);
    }
}

/// A model without a representable field still has a whole entity: an
/// interface and a class that declare nothing.
pub proof fn lemma_entity_without_representable_fields(m: ModelView)
    requires
        forall|j: int| 0 <= j < m.fields.len() ==> !is_representable(#[trigger] m.fields[j]),
    ensures
        declaration_lines(m.fields, false).len() == 0,
        declaration_lines(m.fields, true).len() == 0,
        interface_block(m) == "export interface "@ + interface_name(m.name) + " {"@ + "\n}"@,
        class_block(m) == "export class "@ + m.name + " implements "@ + interface_name(m.name)
            + " {"@ + "\n\n\tconstructor("@ + lowercase_first(m.name) + ": "@ + interface_name(
            m.name,
        ) + ") {\n\t\tObject.assign(this, "@ + lowercase_first(m.name) + ")\n\t}\n}"@,
{
    let pred = |f: FieldView| is_representable(f);
    let kept = representable_fields(m.fields);
    if kept.len() > 0 {
        m.fields.lemma_filter_pred(pred, 0);
        assert(kept.contains(kept[0]));
        m.fields.lemma_filter_contains_rev(pred, kept[0]);
        let j = choose|j: int| 0 <= j < m.fields.len() && m.fields[j] == kept[0];
        assert(!is_representable(m.fields[j]));
    }
    assert(declarations(m.fields, false) =~= Seq::<char>::empty());
    assert(declarations(m.fields, true) =~= Seq::<char>::empty());
    assert(interface_block(m) =~= "export interface "@ + interface_name(m.name) + " {"@ + "\n}"@);
    assert(class_block(m) =~= "export class "@ + m.name + " implements "@ + interface_name(m.name)
        + " {"@ + "\n\n\tconstructor("@ + lowercase_first(m.name) + ": "@ + interface_name(
        m.name,
    ) + ") {\n\t\tObject.assign(this, "@ + lowercase_first(m.name) + ")\n\t}\n}"@);
}

} // verus!
