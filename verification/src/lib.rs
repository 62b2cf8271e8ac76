pub mod json;
pub mod settings;
pub mod system;
pub mod usage;
