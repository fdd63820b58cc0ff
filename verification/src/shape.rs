//! Normalization of the API's inconsistent list shapes.
//!
//! For a field that is conceptually a list, the upstream API returns either
//! an array, a single bare object, or nothing at all.  Every endpoint funnels
//! its response through [`normalize_list`], which turns all three shapes into
//! one canonical `Vec`.

use vstd::prelude::*;

verus! {

/// The three shapes in which the API returns a conceptually list-valued
/// field.
#[derive(Debug, Clone)]
pub enum ListShape<T> {
    /// The field held an array of elements.
    Many(Vec<T>),
    /// The field held a single bare element.
    One(T),
    /// The field was empty or absent.
    Empty,
}

/// The canonical sequence a response shape stands for: an array keeps its
/// elements in their order, a single object becomes a one-element sequence,
/// and an empty or absent field becomes the empty sequence.
pub open spec fn normalized_of<T>(shape: ListShape<T>) -> Seq<T> {
    match shape {
        ListShape::Many(v) => v@,
        ListShape::One(t) => seq![t],
        ListShape::Empty => Seq::empty(),
    }
}

/// Normalizes one response shape into the canonical list.  Whatever the
/// shape, the result is exactly the (possibly empty) sequence the shape
/// stands for, with element order preserved.
pub fn normalize_list<T>(shape: ListShape<T>) -> (r: Vec<T>)
    ensures
        r@ == normalized_of(shape),
{
    match shape {
        ListShape::Many(v) => v,
        ListShape::One(t) => {
            let mut v: Vec<T> = Vec::new();
            v.push(t);
            proof {
                assert(v@ =~= seq![v@[0]]);
            }
            v
        },
        ListShape::Empty => Vec::new(),
    }
}

} // verus!
