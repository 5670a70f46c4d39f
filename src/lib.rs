//! Command service of the Noteum desktop shell: greeting helpers, a guarded
//! counter, a registry of named commands and a dispatcher over them.

pub mod text;
pub mod greeting;
pub mod counter;
pub mod value;
pub mod registry;
pub mod config;
pub mod notes;
pub mod info;
pub mod dispatch;
