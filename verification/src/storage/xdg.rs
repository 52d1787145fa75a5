//! XDG base-directory locations of the application files.

use vstd::prelude::*;
use crate::storage::paths::{join_path, path_join, trim_text, trimmed};

verus! {

/// Whether an environment value counts as set: present and not blank.
pub open spec fn usable(v: Option<Seq<char>>) -> bool {
    v matches Some(s) && trimmed(s).len() > 0
}

/// Config base directory: `XDG_CONFIG_HOME` if set, else `$HOME/.config`,
/// else the current directory.
pub open spec fn config_base(xdg_config_home: Option<Seq<char>>, home: Option<Seq<char>>) -> Seq<char> {
    if usable(xdg_config_home) {
        xdg_config_home.unwrap()
    } else if usable(home) {
        path_join(home.unwrap(), ".config"@)
    } else {
        "."@
    }
}

/// Whether an environment value is present and not blank.
fn is_usable(v: &Option<String>) -> (b: bool)
    ensures
        b == usable(crate::text::opt_view(*v)),
{
    match v {
        Some(s) => trim_text(s.as_str()).unicode_len() > 0,
        None => false,
    }
}

/// The application config directory, given the values of
/// `XDG_CONFIG_HOME` and `HOME`.
pub fn config_dir(xdg_config_home: &Option<String>, home: &Option<String>) -> (r: String)
    ensures
        r@ == path_join(config_base(crate::text::opt_view(*xdg_config_home), crate::text::opt_view(*home)), "scenedeck"@),
{
    let base = if is_usable(xdg_config_home) {
        match xdg_config_home {
            Some(s) => s.clone(),
            None => String::new(),
        }
    } else if is_usable(home) {
        match home {
            Some(h) => join_path(h.as_str(), ".config"),
            None => String::new(),
        }
    } else {
        crate::text::owned(".")
    };
    join_path(base.as_str(), "scenedeck")
}

/// Path to the application settings file, `config.json`.
pub fn config_path(xdg_config_home: &Option<String>, home: &Option<String>) -> (r: String)
    ensures
        r@ == path_join(
            path_join(config_base(crate::text::opt_view(*xdg_config_home), crate::text::opt_view(*home)), "scenedeck"@),
            "config.json"@,
        ),
{
    let dir = config_dir(xdg_config_home, home);
    join_path(dir.as_str(), "config.json")
}

/// Path to the scene registry file, `registry.json`.
pub fn registry_path(xdg_config_home: &Option<String>, home: &Option<String>) -> (r: String)
    ensures
        r@ == path_join(
            path_join(config_base(crate::text::opt_view(*xdg_config_home), crate::text::opt_view(*home)), "scenedeck"@),
            "registry.json"@,
        ),
{
    let dir = config_dir(xdg_config_home, home);
    join_path(dir.as_str(), "registry.json")
}

} // verus!
