//! The restore tokens that the desktop portals hand out, kept between runs so
//! that the share dialog is not shown again.
use vstd::prelude::*;

use crate::config::{join_path, join_path_exec, opt_str_view, usable_dir};
use crate::text::chars_of;

verus! {

broadcast use vstd::string::group_string_axioms;

#[derive(Debug, Clone)]
pub struct PortalState {
    pub screencast_restore_token: Option<String>,
    pub remote_desktop_restore_token: Option<String>,
}

impl Default for PortalState {
    fn default() -> (r: Self)
        ensures
            r.screencast_restore_token is None,
            r.remote_desktop_restore_token is None,
    {
        PortalState { screencast_restore_token: None, remote_desktop_restore_token: None }
    }
}

/// Where the portal state file lives, given `XDG_STATE_HOME` and `HOME`.
pub open spec fn state_file_path(xdg_state_home: Option<Seq<char>>, home: Option<Seq<char>>) -> Seq<
    char,
> {
    if usable_dir(xdg_state_home, true) {
        join_path(xdg_state_home->0, "orbiscreen/portal.json"@)
    } else if usable_dir(home, false) {
        join_path(home->0, ".local/state/orbiscreen/portal.json"@)
    } else {
        "orbiscreen-portal.json"@
    }
}

/// The portal state file: under an absolute `XDG_STATE_HOME`, else under
/// `~/.local/state`, else in the working directory.
pub fn portal_state_path(xdg_state_home: Option<&str>, home: Option<&str>) -> (r: String)
    ensures
        r@ == state_file_path(opt_str_view(xdg_state_home), opt_str_view(home)),
{
    let xdg_ok = match xdg_state_home {
        Some(s) => {
            let c = chars_of(s);
            c.len() > 0 && c[0] == '/'
        },
        None => false,
    };
    let home_ok = match home {
        Some(s) => chars_of(s).len() > 0,
        None => false,
    };
    if xdg_ok {
        join_path_exec(xdg_state_home.unwrap(), "orbiscreen/portal.json")
    } else if home_ok {
        join_path_exec(home.unwrap(), ".local/state/orbiscreen/portal.json")
    } else {
        "orbiscreen-portal.json".to_string()
    }
}

/// The state that a load ends with: what was read and parsed, or the default
/// state where the file was missing or unreadable.
pub fn load_portal_state(parsed: Option<PortalState>) -> (r: PortalState)
    ensures
        parsed is Some ==> r == parsed->0,
        parsed is None ==> r.screencast_restore_token is None
            && r.remote_desktop_restore_token is None,
{
    match parsed {
        Some(state) => state,
        None => PortalState::default(),
    }
}

} // verus!
