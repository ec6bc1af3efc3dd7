pub mod base;
pub mod consistency;
pub mod defs;
pub mod display;
pub mod parsed;
pub mod table;
pub mod values;

pub use base::{AttrId, AttrKey, AttrKind, AttrMeta, Attribute, Section};
pub use parsed::{
    all_attr_metas, get_meta_by_display_name, get_meta_by_key, iter_attrs, parse_attr_value,
    ParsedAttributeValue,
};
pub use table::{parse_attr, AttrValue};
