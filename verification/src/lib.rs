pub mod control;
pub mod mqtt;
pub mod settings;
pub mod state;
pub mod text;
