//! The table-row property sub-element.
//!
//! In this core it carries no fields, so it always serializes as the bare
//! self-closing property tag.

use vstd::prelude::*;

verus! {

use crate::documents::build_xml::BuildXML;
use crate::xml_builder::{closed_tag_text, XMLBuilder};

/// The property sub-element of a table row.
#[derive(Debug, Clone, PartialEq)]
pub struct TableRowProperty {}

impl TableRowProperty {
    /// A default (empty) table-row property.
    pub fn new() -> (r: TableRowProperty)
        ensures
            r == (TableRowProperty {}),
    {
        TableRowProperty {}
    }
}

impl BuildXML for TableRowProperty {
    open spec fn xml_text(&self) -> Seq<char> {
        closed_tag_text("w:trPr"@, Seq::empty())
    }

    fn build_text(&self) -> (r: String) {
        let b = XMLBuilder::new().table_row_property();
        let r = b.build_string();
        proof {
            assert(r@ =~= self.xml_text());
        }
        r
    }
}

} // verus!
