//! Where the alias file is looked for when none is named.

use vstd::prelude::*;
use vstd::string::StringExecFns;

use crate::model::optional_text;

verus! {

/// The alias file to load, and whether an empty one is to be written there
/// first where none exists.
#[derive(Clone, Debug, PartialEq, Eq)]
pub struct ConfigLocation {
    pub path: String,
    pub create_if_missing: bool,
}

/// The path of the alias file: the system-wide file for root, else the file
/// under `$XDG_CONFIG_HOME`, else the one under `$HOME/.config`, else
/// `alias.json` in the working directory.
pub open spec fn config_path(
    is_root: bool,
    xdg_config_home: Option<Seq<char>>,
    home: Option<Seq<char>>,
) -> Seq<char> {
    if is_root {
        "/etc/urouter/alias.json"@
    } else if let Some(config_home) = xdg_config_home {
        config_home + "/urouter/alias.json"@
    } else if let Some(home) = home {
        home + "/.config/urouter/alias.json"@
    } else {
        "alias.json"@
    }
}

/// Picks the alias file from whether the process runs as root and from the
/// values of `XDG_CONFIG_HOME` and `HOME`, where they are set. Only the
/// file in the working directory is created when it is missing.
pub fn get_config_file_location(
    is_root: bool,
    xdg_config_home: Option<&str>,
    home: Option<&str>,
) -> (location: ConfigLocation)
    ensures
        location.path@ == config_path(
            is_root,
            optional_text(xdg_config_home),
            optional_text(home),
        ),
        location.create_if_missing == (!is_root && xdg_config_home is None && home is None),
{
    if is_root {
        return ConfigLocation {
            path: "/etc/urouter/alias.json".to_owned(),
            create_if_missing: false,
        };
    }
    if let Some(config_home) = xdg_config_home {
        let mut path = config_home.to_owned();
        path.append("/urouter/alias.json");
        return ConfigLocation { path, create_if_missing: false };
    }
    if let Some(home) = home {
        let mut path = home.to_owned();
        path.append("/.config/urouter/alias.json");
        return ConfigLocation { path, create_if_missing: false };
    }
    ConfigLocation { path: "alias.json".to_owned(), create_if_missing: true }
}

} // verus!
