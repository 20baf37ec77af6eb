//! Layout, operator and session logic of the Nade editor.

pub mod composition;
pub mod dock;
pub mod layout;
pub mod geometry;
pub mod system;
pub mod layout_laws;
pub mod system_laws;
pub mod values;
pub mod ops;
pub mod operators;
pub mod hashing;
pub mod text;
pub mod names;
pub mod session;
pub mod panel_content;
pub mod status_bar;
pub mod effects;
pub mod project;
pub mod evaluation;
pub mod core_loop;
pub mod browsers;
pub mod resolve;
pub mod encoder;
pub mod pointer_laws;
