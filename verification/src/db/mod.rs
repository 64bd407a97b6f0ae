pub mod models;
pub mod settings;
pub mod session;
