//! Typed Dublin Core metadata records classified from generic XML elements.

mod element;
mod metadata;

pub use element::{Element, ElementView, attribute_of, text_eq};
pub use metadata::{
    Direction, Id, Metadata, TitleElement, XmlLang, direction_attribute, direction_of, is_dc_title,
};
