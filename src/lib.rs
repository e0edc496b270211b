//! Filename validation and classification: forbidden characters, extension
//! and base-name extraction, and sorting into file-type families.
pub mod text;
pub mod tables;
pub mod kinds;
pub mod about;
pub mod laws;

pub use about::{classify, file_type_checked, is_image_name, AboutFile};
pub use kinds::{ArchType, DocType, ExecType, FileType, ImgType, PropType};
pub use text::listed;
