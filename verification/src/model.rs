//! The data model the generator reads: a model is a name and an ordered list
//! of fields, each with a name, a schema type tag and an optionality flag.

use vstd::prelude::*;

verus! {

/// One attribute of a model.
#[derive(Clone, Debug)]
pub struct Field {
    /// The camel-cased name of the attribute.
    pub name: String,
    /// The type tag as the schema spells it (`Int`, `String`, `DateTime`, the
    /// name of a related model, ...).
    pub field_type: String,
    /// Whether the attribute may be absent.
    pub is_optional: bool,
}

/// One schema entity.
#[derive(Clone, Debug)]
pub struct Model {
    /// The Pascal-cased name of the entity.
    pub name: String,
    /// The attributes, in the order in which they are emitted.
    pub fields: Vec<Field>,
}

/// What a [`Field`] holds, as mathematical values.
pub struct FieldView {
    pub name: Seq<char>,
    pub field_type: Seq<char>,
    pub is_optional: bool,
}

/// What a [`Model`] holds, as mathematical values.
pub struct ModelView {
    pub name: Seq<char>,
    pub fields: Seq<FieldView>,
}

impl View for Field {
    type V = FieldView;

    open spec fn view(&self) -> FieldView {
        FieldView { name: self.name@, field_type: self.field_type@, is_optional: self.is_optional }
    }
}

/// The views of a list of fields, in their order.
pub open spec fn field_views(fields: Seq<Field>) -> Seq<FieldView> {
    fields.map_values(|f: Field| f@)
}

impl View for Model {
    type V = ModelView;

    open spec fn view(&self) -> ModelView {
        ModelView { name: self.name@, fields: field_views(self.fields@) }
    }
}

} // verus!
