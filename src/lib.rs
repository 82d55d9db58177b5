//! A form that collects project metadata field by field and renders it as a
//! README document: the key-driven state machine of the form, the template
//! renderer behind its live preview and final document, and the laws that
//! tie the two together.
use vstd::prelude::*;

pub mod form;
pub mod laws;
pub mod screen;
pub mod template;
pub mod text;

verus! {

} // verus!
