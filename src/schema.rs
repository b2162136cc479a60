//! Classifying a field's declared type into the shape that decides how it
//! is resolved.

use vstd::prelude::*;
use crate::model::{strings_view, Shape, ShapeModel};

verus! {

/// What shape classification reads of a declared field type.
pub enum TypeForm {
    /// `impl B1 + .. + Bn`, with the text of each bound.
    ImplTrait(Vec<String>),
    /// A tuple type with `arity` elements, with its text.
    Tuple { arity: usize, text: String },
    /// Any other type, with its text.
    Other(String),
}

/// An `impl` type with bounds is flexible, the empty tuple is a
/// placeholder, and every other type is concrete.
pub open spec fn shape_of_form(form: TypeForm) -> ShapeModel {
    match form {
        TypeForm::ImplTrait(bounds) => ShapeModel::Flexible(strings_view(bounds@)),
        TypeForm::Tuple { arity, text } => if arity == 0 {
            ShapeModel::Placeholder
        } else {
            ShapeModel::Concrete(text@)
        },
        TypeForm::Other(text) => ShapeModel::Concrete(text@),
    }
}

/// Classifies a declared field type.
pub fn classify_shape(form: TypeForm) -> (s: Shape)
    ensures
        s@ == shape_of_form(form),
{
    match form {
        TypeForm::ImplTrait(bounds) => Shape::Flexible(bounds),
        TypeForm::Tuple { arity, text } => if arity == 0 {
            Shape::Placeholder
        } else {
            Shape::Concrete(text)
        },
        TypeForm::Other(text) => Shape::Concrete(text),
    }
}

} // verus!
