pub mod binary_reader;
pub mod bytes;
pub mod draw_plan;
pub mod format;
pub mod laws;
pub mod pmx_loader;
pub mod pmx_types;
pub mod record_laws;
pub mod text;
