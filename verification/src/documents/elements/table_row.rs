//! The table-row composite element.
//!
//! A row owns an ordered sequence of cells and one property sub-element
//! (defaulted at construction), and computes its derived numbering flag once,
//! at construction, by folding the cells' flags with logical OR. The
//! serialized form puts the property sub-element first, then the cells in
//! their original order — the schema-mandated order, independent of how the
//! row was assembled.

use vstd::prelude::*;

verus! {

use crate::documents::build_xml::{seq_text, BuildXML};
use crate::documents::elements::table_cell::TableCell;
use crate::documents::elements::table_row_property::TableRowProperty;
use crate::documents::history_id::HistoryId;
use crate::xml_builder::{close_tag_text, open_tag_text, XMLBuilder};

/// The fold of the cells' numbering flags: whether any cell carries
/// numbering.
pub open spec fn row_has_numbering(cells: Seq<TableCell>) -> bool {
    exists|i: int| 0 <= i < cells.len() && cells[i].has_numbering
}

/// A table row: its cells, its property sub-element, and its derived
/// numbering flag.
#[derive(Debug, Clone, PartialEq)]
pub struct TableRow {
    pub cells: Vec<TableCell>,
    pub has_numbering: bool,
    pub property: TableRowProperty,
}

impl TableRow {
    /// A row over the given cells, with a default property sub-element and
    /// the numbering flag folded from the cells.
    pub fn new(cells: Vec<TableCell>) -> (r: TableRow)
        ensures
            r.cells@ == cells@,
            r.property == (TableRowProperty {}),
            r.has_numbering == row_has_numbering(cells@),
    {
        let property = TableRowProperty::new();
        let mut has_numbering = false;
        let mut i: usize = 0;
        while i < cells.len()
            invariant
                i <= cells@.len(),
                has_numbering == exists|j: int| 0 <= j < i && cells@[j].has_numbering,
            decreases cells@.len() - i,
        {
            if cells[i].has_numbering {
                has_numbering = true;
            }
            i = i + 1;
        }
        TableRow { property, cells, has_numbering }
    }
}

impl BuildXML for TableRow {
    open spec fn xml_text(&self) -> Seq<char> {
        open_tag_text("w:tr"@) + self.property.xml_text() + seq_text(self.cells@)
            + close_tag_text("w:tr"@)
    }

    fn build_text(&self) -> (r: String) {
        let b = XMLBuilder::new()
            .open_table_row()
            .add_child(&self.property)
            .add_children(&self.cells)
            .close();
        let r = b.build_string();
        proof {
            assert(r@ =~= self.xml_text());
        }
        r
    }
}

impl HistoryId for TableRow {}

/// Where the serialization of cell `k` starts within the row's
/// serialization.
pub open spec fn cell_text_start(r: TableRow, k: int) -> int {
    open_tag_text("w:tr"@).len() + r.property.xml_text().len() + seq_text(
        r.cells@.take(k),
    ).len() as int
}

/// In the serialized row the property sub-element stands directly after the
/// opening tag, and every serialized cell lies wholly after the property
/// sub-element, whatever the cells are.
pub proof fn lemma_property_before_cells(r: &TableRow)
    ensures
        r.xml_text() == open_tag_text("w:tr"@) + r.property.xml_text() + seq_text(r.cells@)
            + close_tag_text("w:tr"@),
        r.xml_text().subrange(
            open_tag_text("w:tr"@).len() as int,
            open_tag_text("w:tr"@).len() + r.property.xml_text().len() as int,
        ) == r.property.xml_text(),
        forall|k: int|
            0 <= k < r.cells@.len() ==> #[trigger] cell_text_start(*r, k) >= open_tag_text(
                "w:tr"@,
            ).len() + r.property.xml_text().len(),
        forall|k: int|
            0 <= k < r.cells@.len() ==> r.xml_text().subrange(
                #[trigger] cell_text_start(*r, k),
                cell_text_start(*r, k) + r.cells@[k].xml_text().len(),
            ) == r.cells@[k].xml_text(),
{
    let open = open_tag_text("w:tr"@);
    let prop = r.property.xml_text();
    assert(r.xml_text().subrange(open.len() as int, open.len() + prop.len() as int) =~= prop);
    assert forall|k: int|
        0 <= k < r.cells@.len() implies r.xml_text().subrange(
        cell_text_start(*r, k),
        cell_text_start(*r, k) + r.cells@[k].xml_text().len(),
    ) == r.cells@[k].xml_text() by {
        crate::documents::build_xml::lemma_seq_text_split(r.cells@, k);
        assert(r.xml_text().subrange(
            cell_text_start(*r, k),
            cell_text_start(*r, k) + r.cells@[k].xml_text().len(),
        ) =~= r.cells@[k].xml_text());
    }
}

/// Fold correctness: one cell with the numbering flag set is enough to set
/// the fold over the whole cell sequence.
pub proof fn lemma_row_numbering_fold(cells: Seq<TableCell>, i: int)
    requires
        0 <= i < cells.len(),
        cells[i].has_numbering,
    ensures
        row_has_numbering(cells),
{
}

} // verus!
