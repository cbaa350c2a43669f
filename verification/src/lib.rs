//! A verified core of a WordprocessingML (Office Open XML) document builder:
//! typed element structures, builder-style construction, and byte-exact
//! XML serialization with schema-mandated attribute and child ordering.

pub mod documents;
pub mod xml_builder;
