pub mod errors;
pub mod model;
pub mod strings;
pub mod labels;
pub mod extract;
pub mod format;
pub mod laws;

pub use errors::EntryError;
pub use extract::{entry_schema_from_bundle, entry_schema_from_bundle_with_deps, ExtractOptions};
pub use format::{column_name, write_csv, xlsx_cell_plan, CsvOptions, XlsxOptions};
pub use model::{format_attr_type, AttributeSpec, Bundle, DependencyIndex, EntrySchema, NestedAttrType, Overlay,
    PropValue, RefValue};
