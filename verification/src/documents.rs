pub mod build_xml;
pub mod elements;
pub mod history_id;

pub use build_xml::BuildXML;
