//! The desktop front ends: the status that the control panel shows, where
//! the autostart entry lives and what it holds, and what the panel's rows
//! say for a daemon state.
use vstd::prelude::*;

use crate::config::opt_str_view;
use crate::text::{decimal_of, push_decimal, string_from};
use crate::wlroots::path_join;
use crate::json::{json_bool_at, json_bool_field, json_str_at, json_str_field, json_u64_at, json_u64_field};

verus! {

broadcast use vstd::string::group_string_axioms;

/// The daemon's status as the panel reads it.
#[derive(Debug, Clone)]
pub struct DaemonStatus {
    pub running: bool,
    pub frames_forwarded: u64,
    pub active_clients: u32,
    pub total_clients: u64,
    pub auth_failures: u64,
    pub usb_devices: u32,
    pub usb_connected_devices: Vec<String>,
    pub usb_aoa_ready: bool,
    pub encoder: String,
    pub capture_backend: String,
    pub display_width: u32,
    pub display_height: u32,
    pub display_fps: u32,
    pub signaling_port: u16,
    pub udp_port: u16,
    pub local_ips: Vec<String>,
    pub session_token: Option<String>,
}

impl DaemonStatus {
    /// The status of a daemon that cannot be reached: stopped, nothing
    /// counted, the default display and ports.
    pub open spec fn is_default(self) -> bool {
        &&& !self.running
        &&& self.local_ips@.len() == 0
        &&& self.others_default()
    }

    /// Every field but `running` and `local_ips` as in the default status.
    pub open spec fn others_default(self) -> bool {
        &&& self.frames_forwarded == 0
        &&& self.active_clients == 0
        &&& self.total_clients == 0
        &&& self.auth_failures == 0
        &&& self.usb_devices == 0
        &&& self.usb_connected_devices@.len() == 0
        &&& !self.usb_aoa_ready
        &&& self.encoder@ == "Unknown"@
        &&& self.capture_backend@ == "Unknown"@
        &&& self.display_width == 1920
        &&& self.display_height == 1080
        &&& self.display_fps == 60
        &&& self.signaling_port == 8788
        &&& self.udp_port == 8789
        &&& self.session_token is None
    }
}

impl Default for DaemonStatus {
    fn default() -> (r: Self)
        ensures
            r.is_default(),
    {
        DaemonStatus {
            running: false,
            frames_forwarded: 0,
            active_clients: 0,
            total_clients: 0,
            auth_failures: 0,
            usb_devices: 0,
            usb_connected_devices: Vec::new(),
            usb_aoa_ready: false,
            encoder: string_from("Unknown"),
            capture_backend: string_from("Unknown"),
            display_width: 1920,
            display_height: 1080,
            display_fps: 60,
            signaling_port: 8788,
            udp_port: 8789,
            local_ips: Vec::new(),
            session_token: None,
        }
    }
}

/// A status read from the daemon, completed with what the panel adds: the
/// UDP port one above the signaling port (saturating), and this host's
/// addresses.
pub fn completed_status(status: DaemonStatus, local_ips: Vec<String>) -> (r: DaemonStatus)
    ensures
        r == (DaemonStatus {
            udp_port: if status.signaling_port < u16::MAX {
                (status.signaling_port + 1) as u16
            } else {
                u16::MAX
            },
            local_ips: local_ips,
            ..status
        }),
{
    let mut s = status;
    s.udp_port = if s.signaling_port < 65535 {
        s.signaling_port + 1
    } else {
        65535
    };
    s.local_ips = local_ips;
    s
}

/// The status when the daemon does not answer on the bus: the default
/// status, with whether its process runs and this host's addresses.
pub fn offline_status(running: bool, local_ips: Vec<String>) -> (r: DaemonStatus)
    ensures
        r.running == running,
        r.local_ips@ == local_ips@,
        r.others_default(),
{
    let mut s = DaemonStatus::default();
    s.running = running;
    s.local_ips = local_ips;
    s
}

/// This host's addresses: the one found, else the loopback address.
pub fn local_ips_or_loopback(found: Option<String>) -> (r: Vec<String>)
    ensures
        r@.len() == 1,
        r@[0]@ == (match found {
            Some(ip) => ip@,
            None => "127.0.0.1"@,
        }),
{
    let mut v: Vec<String> = Vec::new();
    match found {
        Some(ip) => v.push(ip),
        None => v.push(string_from("127.0.0.1")),
    }
    v
}

/// The desktop entry that starts the daemon at login.
pub const AUTOSTART_ENTRY: &'static str = "[Desktop Entry]\nType=Application\nName=Orbiscreen\nExec=orbiscreen start --daemon\nHidden=false\nNoDisplay=false\nX-GNOME-Autostart-enabled=true\n";

/// What to do with the autostart entry.
#[derive(Debug, Clone, Copy, PartialEq, Eq, Structural)]
pub enum AutostartAction {
    /// Create its directory and write [`AUTOSTART_ENTRY`].
    Write,
    Remove,
    Nothing,
}

pub struct DaemonClient;

impl DaemonClient {
    /// The autostart entry: `~/.config/autostart/orbiscreen.desktop`, under
    /// `/tmp` where `HOME` is not set.
    pub fn autostart_file_path(home: Option<&str>) -> (r: String)
        ensures
            r@ == path_join(
                match opt_str_view(home) {
                    Some(h) => h,
                    None => "/tmp"@,
                },
                ".config/autostart/orbiscreen.desktop"@,
            ),
    {
        let base = match home {
            Some(h) => string_from(h),
            None => string_from("/tmp"),
        };
        let rel = string_from(".config/autostart/orbiscreen.desktop");
        crate::kwin::join_path_strings(base.as_str(), rel.as_str())
    }

    /// Autostart is on while its entry exists.
    pub fn is_autostart_enabled(entry_exists: bool) -> (r: bool)
        ensures
            r == entry_exists,
    {
        entry_exists
    }

    /// Turning autostart on writes the entry; turning it off removes an
    /// existing one.
    pub fn set_autostart(enabled: bool, entry_exists: bool) -> (r: AutostartAction)
        ensures
            r == (if enabled {
                AutostartAction::Write
            } else if entry_exists {
                AutostartAction::Remove
            } else {
                AutostartAction::Nothing
            }),
    {
        if enabled {
            AutostartAction::Write
        } else if entry_exists {
            AutostartAction::Remove
        } else {
            AutostartAction::Nothing
        }
    }
}

/// The status that the GTK panel polls: whether a daemon answered, and its
/// counters.
#[derive(Debug, Clone)]
pub struct PanelStatus {
    pub available: bool,
    pub running: bool,
    pub frames_forwarded: u64,
    pub active_clients: u64,
    pub total_clients: u64,
    pub encoder: String,
    pub capture_backend: String,
}

pub open spec fn text_or_mark(o: Option<Seq<char>>) -> Seq<char> {
    match o {
        Some(t) => t,
        None => "?"@,
    }
}

pub open spec fn u64_or_zero(o: Option<u64>) -> u64 {
    match o {
        Some(n) => n,
        None => 0,
    }
}

impl PanelStatus {
    /// Reads the daemon's JSON status: `None` unless it is JSON with a
    /// boolean `running`; missing counters are 0 and missing names `?`.
    pub fn parse(json: &str) -> (r: Option<PanelStatus>)
        ensures
            r is None <==> json_bool_field(json@, "/running"@) is None,
            r matches Some(st) ==> {
                &&& st.available
                &&& Some(st.running) == json_bool_field(json@, "/running"@)
                &&& st.frames_forwarded == u64_or_zero(json_u64_field(json@, "/frames_forwarded"@))
                &&& st.active_clients == u64_or_zero(json_u64_field(json@, "/active_clients"@))
                &&& st.total_clients == u64_or_zero(json_u64_field(json@, "/total_clients"@))
                &&& st.encoder@ == text_or_mark(json_str_field(json@, "/encoder"@))
                &&& st.capture_backend@ == text_or_mark(
                    json_str_field(json@, "/capture_backend"@),
                )
            },
    {
        let running = match json_bool_at(json, "/running") {
            Some(b) => b,
            None => {
                return None;
            },
        };
        let frames_forwarded = match json_u64_at(json, "/frames_forwarded") {
            Some(n) => n,
            None => 0,
        };
        let active_clients = match json_u64_at(json, "/active_clients") {
            Some(n) => n,
            None => 0,
        };
        let total_clients = match json_u64_at(json, "/total_clients") {
            Some(n) => n,
            None => 0,
        };
        let encoder = match json_str_at(json, "/encoder") {
            Some(t) => t,
            None => string_from("?"),
        };
        let capture_backend = match json_str_at(json, "/capture_backend") {
            Some(t) => t,
            None => string_from("?"),
        };
        Some(
            PanelStatus {
                available: true,
                running,
                frames_forwarded,
                active_clients,
                total_clients,
                encoder,
                capture_backend,
            },
        )
    }
}

/// What the panel shows: the three row subtitles, whether the switch can be
/// used, and the state to set it to (none while a start or stop is under
/// way).
#[derive(Debug, Clone)]
pub struct PanelView {
    pub daemon_row: String,
    pub stream_row: String,
    pub transport_row: String,
    pub switch_sensitive: bool,
    pub switch_state: Option<bool>,
}

pub open spec fn spec_panel_rows(st: PanelStatus) -> (Seq<char>, Seq<char>, Seq<char>) {
    if !st.available {
        (
            "Daemon not running — start it with: orbiscreen start (or: systemctl --user start orbiscreen)"@,
            "no daemon on the session bus"@,
            "waiting for the daemon…"@,
        )
    } else if st.running {
        (
            "Running (com.orbiscreen.Daemon) — toggle off to stop the stream gracefully"@,
            "encoder: "@ + st.encoder@ + " · source: "@ + st.capture_backend@
                + " · frames forwarded: "@ + decimal_of(st.frames_forwarded as nat),
            "connected clients: "@ + decimal_of(st.active_clients as nat) + " active / "@
                + decimal_of(st.total_clients as nat) + " total"@,
        )
    } else {
        (
            "Stopped — D-Bus name is owned but the stream is down"@,
            "stream inactive"@,
            "connected clients: 0 (stream down)"@,
        )
    }
}

pub fn panel_view(status: &PanelStatus, busy: bool) -> (r: PanelView)
    ensures
        (r.daemon_row@, r.stream_row@, r.transport_row@) == spec_panel_rows(*status),
        r.switch_sensitive == status.available,
        r.switch_state == (if busy {
            None
        } else if status.available {
            Some(status.running)
        } else {
            Some(false)
        }),
{
    let state = if busy {
        None
    } else if status.available {
        Some(status.running)
    } else {
        Some(false)
    };
    if !status.available {
        return PanelView {
            daemon_row: string_from(
                "Daemon not running — start it with: orbiscreen start (or: systemctl --user start orbiscreen)",
            ),
            stream_row: string_from("no daemon on the session bus"),
            transport_row: string_from("waiting for the daemon…"),
            switch_sensitive: false,
            switch_state: state,
        };
    }
    if status.running {
        let mut stream = string_from("encoder: ");
        stream.append(status.encoder.as_str());
        stream.append(" · source: ");
        stream.append(status.capture_backend.as_str());
        stream.append(" · frames forwarded: ");
        push_decimal(&mut stream, status.frames_forwarded);
        let mut transport = string_from("connected clients: ");
        push_decimal(&mut transport, status.active_clients);
        transport.append(" active / ");
        push_decimal(&mut transport, status.total_clients);
        transport.append(" total");
        PanelView {
            daemon_row: string_from(
                "Running (com.orbiscreen.Daemon) — toggle off to stop the stream gracefully",
            ),
            stream_row: stream,
            transport_row: transport,
            switch_sensitive: true,
            switch_state: state,
        }
    } else {
        PanelView {
            daemon_row: string_from("Stopped — D-Bus name is owned but the stream is down"),
            stream_row: string_from("stream inactive"),
            transport_row: string_from("connected clients: 0 (stream down)"),
            switch_sensitive: true,
            switch_state: state,
        }
    }
}

} // verus!
