//! Plug-in registration data.
pub mod info;
pub mod plugin;
pub mod plugin_type;
pub mod registration_metadata;
