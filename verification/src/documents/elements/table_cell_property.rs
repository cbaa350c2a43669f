//! The table-cell property sub-element.
//!
//! In this core it carries no fields, so it always serializes as the bare
//! self-closing property tag.

use vstd::prelude::*;

verus! {

use crate::documents::build_xml::BuildXML;
use crate::xml_builder::{closed_tag_text, XMLBuilder};

/// The property sub-element of a table cell.
#[derive(Debug, Clone, PartialEq)]
pub struct TableCellProperty {}

impl TableCellProperty {
    /// A default (empty) table-cell property.
    pub fn new() -> (r: TableCellProperty)
        ensures
            r == (TableCellProperty {}),
    {
        TableCellProperty {}
    }
}

impl BuildXML for TableCellProperty {
    open spec fn xml_text(&self) -> Seq<char> {
        closed_tag_text("w:tcPr"@, Seq::empty())
    }

    fn build_text(&self) -> (r: String) {
        let b = XMLBuilder::new().table_cell_property();
        let r = b.build_string();
        proof {
            assert(r@ =~= self.xml_text());
        }
        r
    }
}

} // verus!
