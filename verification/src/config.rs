//! The user's settings: the API key, the Last.fm user name and the colour theme.

use vstd::prelude::*;

verus! {

/// The saved settings of the client.
#[derive(Clone)]
pub struct Config {
    pub api_key: String,
    pub username: String,
    pub theme: String,
}

/// The settings as text.
pub struct ConfigView {
    pub api_key: Seq<char>,
    pub username: Seq<char>,
    pub theme: Seq<char>,
}

impl View for Config {
    type V = ConfigView;

    open spec fn view(&self) -> ConfigView {
        ConfigView { api_key: self.api_key@, username: self.username@, theme: self.theme@ }
    }
}

/// The theme that a settings file without one gets.
pub open spec fn spec_default_theme() -> Seq<char> {
    "catppuccin-mocha"@
}

/// The theme that a settings file without one gets.
pub fn default_theme() -> (s: String)
    ensures
        s@ == spec_default_theme(),
{
    String::from_str("catppuccin-mocha")
}

} // verus!
