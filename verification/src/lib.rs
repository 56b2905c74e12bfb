//! Reader for the metadata of Krita documents: the layer and mask tree, the
//! image properties and the author information, parsed from the XML entries
//! of a `.kra` archive.

pub mod attr;
pub mod color;
pub mod composite_op;
pub mod cursor;
pub mod data;
pub mod document;
pub mod error;
pub mod laws;
pub mod layer;
pub mod locate;
pub mod metadata;
pub mod node;
pub mod parse;
pub mod reader;
pub mod text;
pub mod uuid;
pub mod xml;
