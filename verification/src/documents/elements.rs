pub mod run_fonts;
pub mod table_cell;
pub mod table_cell_property;
pub mod table_row;
pub mod table_row_property;

pub use run_fonts::RunFonts;
pub use table_cell::TableCell;
pub use table_cell_property::TableCellProperty;
pub use table_row::TableRow;
pub use table_row_property::TableRowProperty;
