//! Application settings and the two commands over them.
use vstd::prelude::*;

verus! {

/// Settings of the application.
#[derive(Clone, Debug)]
pub struct AppConfig {
    pub theme: String,
    pub auto_save: bool,
    pub font_size: u32,
}

/// Whether `c` holds the default settings: dark theme, auto-save on, size 14.
pub open spec fn is_default_config(c: AppConfig) -> bool {
    c.theme@ == "dark"@ && c.auto_save && c.font_size == 14
}

impl Default for AppConfig {
    fn default() -> (r: AppConfig)
        ensures
            is_default_config(r),
    {
        proof {
            reveal_strlit("dark");
        }
        AppConfig { theme: "dark".to_owned(), auto_save: true, font_size: 14 }
    }
}

/// The settings in effect. Nothing is stored, so these are always the defaults.
pub fn get_app_config() -> (r: AppConfig)
    ensures
        is_default_config(r),
{
    AppConfig::default()
}

/// Accepts new settings. They are not kept: a later `get_app_config` still
/// returns the defaults.
pub fn save_app_config(config: AppConfig) -> (r: Result<(), String>)
    ensures
        r is Ok,
{
    Ok(())
}

} // verus!
