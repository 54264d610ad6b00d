pub mod app;
pub mod errors;
pub mod keys;
pub mod nodes;
pub mod notification;
pub mod process;
pub mod submenu;
pub mod tab;
pub mod text;
pub mod updates;
