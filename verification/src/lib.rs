//! Schema inference for annotated type declarations: the table name, the
//! primary key and the per-field column records of one declaration.

pub mod ast;
pub mod attr;
pub mod model;
pub mod naming;
pub mod util;

pub use crate::ast::{Annotatable, Attribute, Generics, Item, ItemKind, MetaItemKind, Ty};
pub use crate::attr::Attr;
pub use crate::model::Model;
pub use crate::naming::{infer_association_name, infer_table_name};
