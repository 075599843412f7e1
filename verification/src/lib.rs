//! Definitions that turn into outputs, and constructions that run registered
//! callbacks on an output once it has been defined.

pub mod callback;
pub mod construction;
pub mod effect;
pub mod plan;
pub mod template;

pub use construction::Construction;
pub use template::{Template, TemplateConstruction};
