pub mod buffer;
pub mod commandmode;
pub mod editor;
pub mod error;
pub mod file;
pub mod insertmode;
pub mod normalmode;
pub mod terminal;
pub mod text;
pub mod utils;
