//! The table-cell composite element.
//!
//! A cell owns its property sub-element and a derived numbering flag. The
//! content children a full system would attach (paragraphs, nested tables)
//! are outside this core; attaching content that carries numbering is what
//! raises the flag.

use vstd::prelude::*;

verus! {

use crate::documents::build_xml::BuildXML;
use crate::documents::elements::table_cell_property::TableCellProperty;
use crate::xml_builder::{close_tag_text, open_tag_text, XMLBuilder};

/// A table cell: its property sub-element and its derived numbering flag.
#[derive(Debug, Clone, PartialEq)]
pub struct TableCell {
    pub property: TableCellProperty,
    pub has_numbering: bool,
}

impl TableCell {
    /// A default cell: empty property, no numbering.
    pub fn new() -> (r: TableCell)
        ensures
            r.property == (TableCellProperty {}),
            !r.has_numbering,
    {
        TableCell { property: TableCellProperty::new(), has_numbering: false }
    }
}

impl BuildXML for TableCell {
    open spec fn xml_text(&self) -> Seq<char> {
        open_tag_text("w:tc"@) + self.property.xml_text() + close_tag_text("w:tc"@)
    }

    fn build_text(&self) -> (r: String) {
        let b = XMLBuilder::new().open_table_cell().add_child(&self.property).close();
        let r = b.build_string();
        proof {
            assert(r@ =~= self.xml_text());
        }
        r
    }
}

} // verus!
