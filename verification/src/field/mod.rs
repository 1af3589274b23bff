//! The per-field validators: each turns one field's raw value, as extracted
//! from the document, into a domain-checked type or a typed error.

pub mod category;
pub mod copyright;
pub mod icon;
pub mod id;
pub mod license;
pub mod name;
pub mod pkg_name;
pub mod summary;
