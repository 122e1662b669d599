//! Connection settings: the editable staging copy the user types into,
//! the optional record persisted with a project, the conversions between
//! them and the agent's options, and the command-line knobs.
//!
//! Every field is independently optional with documented defaults: host
//! `localhost`, port 1883, role `gui`, id `any`, empty credentials.
//! Applying staged settings always builds a brand-new agent; nothing is
//! mutated in place.

use vstd::prelude::*;

use crate::agent::TetherAgentOptionsBuilder;
use crate::text::opt_view;

verus! {

/// The staging copy of the connection settings, edited in place and
/// applied by building a fresh agent. The `is_editing` and `was_changed`
/// flags are display state: `was_changed` is a dirty flag cleared only on
/// an explicit save.
#[derive(Clone)]
pub struct EditableTetherSettings {
    pub is_editing: bool,
    pub was_changed: bool,
    pub host: String,
    pub port: u16,
    pub username: String,
    pub password: String,
    pub role: String,
    pub id: String,
}

impl Default for EditableTetherSettings {
    /// The documented defaults, with both flags clear.
    fn default() -> (r: EditableTetherSettings)
        ensures
            r.is_editing == false,
            r.was_changed == false,
            r.host@ == "localhost"@,
            r.port == 1883,
            r.username@ == ""@,
            r.password@ == ""@,
            r.role@ == "gui"@,
            r.id@ == "any"@,
    {
        EditableTetherSettings {
            is_editing: false,
            was_changed: false,
            host: String::from_str("localhost"),
            port: 1883,
            username: String::from_str(""),
            password: String::from_str(""),
            role: String::from_str("gui"),
            id: String::from_str("any"),
        }
    }
}

/// The connection settings as persisted inside a project file: every
/// field optional.
#[derive(Clone)]
pub struct TetherSettingsInProject {
    pub host: Option<String>,
    pub port: Option<u16>,
    pub username: Option<String>,
    pub password: Option<String>,
    pub role: Option<String>,
    pub id: Option<String>,
}

impl Default for TetherSettingsInProject {
    /// Nothing persisted: every field falls back at conversion time.
    fn default() -> (r: TetherSettingsInProject)
        ensures
            r.host is None,
            r.port is None,
            r.username is None,
            r.password is None,
            r.role is None,
            r.id is None,
    {
        TetherSettingsInProject {
            host: None,
            port: None,
            username: None,
            password: None,
            role: None,
            id: None,
        }
    }
}

impl TetherSettingsInProject {
    /// Persist the currently edited settings: every field is recorded.
    pub fn from_editable(editable: &EditableTetherSettings) -> (r: TetherSettingsInProject)
        ensures
            opt_view(r.host) == Some(editable.host@),
            r.port == Some(editable.port),
            opt_view(r.username) == Some(editable.username@),
            opt_view(r.password) == Some(editable.password@),
            opt_view(r.role) == Some(editable.role@),
            opt_view(r.id) == Some(editable.id@),
    {
        TetherSettingsInProject {
            host: Some(editable.host.clone()),
            port: Some(editable.port),
            username: Some(editable.username.clone()),
            password: Some(editable.password.clone()),
            role: Some(editable.role.clone()),
            id: Some(editable.id.clone()),
        }
    }
}

impl EditableTetherSettings {
    /// Stage the values of a set of agent options, substituting the
    /// defaults for anything unset; the flags start clear.
    pub fn from_options(options: &TetherAgentOptionsBuilder) -> (r: EditableTetherSettings)
        ensures
            r.is_editing == false,
            r.was_changed == false,
            r.host@ == match opt_view(options.host) {
                Some(h) => h,
                None => "localhost"@,
            },
            r.port == options.port.unwrap_or(1883),
            r.username@ == match opt_view(options.username) {
                Some(u) => u,
                None => ""@,
            },
            r.password@ == match opt_view(options.password) {
                Some(p) => p,
                None => ""@,
            },
            r.role@ == options.role@,
            r.id@ == match opt_view(options.id) {
                Some(i) => i,
                None => "any"@,
            },
    {
        let defaults = EditableTetherSettings::default();
        EditableTetherSettings {
            is_editing: false,
            was_changed: false,
            host: match &options.host {
                Some(h) => h.clone(),
                None => defaults.host,
            },
            port: match options.port {
                Some(p) => p,
                None => defaults.port,
            },
            username: match &options.username {
                Some(u) => u.clone(),
                None => defaults.username,
            },
            password: match &options.password {
                Some(p) => p.clone(),
                None => defaults.password,
            },
            role: options.role.clone(),
            id: match &options.id {
                Some(i) => i.clone(),
                None => defaults.id,
            },
        }
    }

    /// Stage the settings persisted in a project, substituting the
    /// defaults for anything missing; the flags start clear.
    pub fn from_project(project: &TetherSettingsInProject) -> (r: EditableTetherSettings)
        ensures
            r.is_editing == false,
            r.was_changed == false,
            r.host@ == match opt_view(project.host) {
                Some(h) => h,
                None => "localhost"@,
            },
            r.port == project.port.unwrap_or(1883),
            r.username@ == match opt_view(project.username) {
                Some(u) => u,
                None => ""@,
            },
            r.password@ == match opt_view(project.password) {
                Some(p) => p,
                None => ""@,
            },
            r.role@ == match opt_view(project.role) {
                Some(x) => x,
                None => "gui"@,
            },
            r.id@ == match opt_view(project.id) {
                Some(i) => i,
                None => "any"@,
            },
    {
        let defaults = EditableTetherSettings::default();
        EditableTetherSettings {
            is_editing: false,
            was_changed: false,
            host: match &project.host {
                Some(h) => h.clone(),
                None => defaults.host,
            },
            port: match project.port {
                Some(p) => p,
                None => defaults.port,
            },
            username: match &project.username {
                Some(u) => u.clone(),
                None => defaults.username,
            },
            password: match &project.password {
                Some(p) => p.clone(),
                None => defaults.password,
            },
            role: match &project.role {
                Some(x) => x.clone(),
                None => defaults.role,
            },
            id: match &project.id {
                Some(i) => i.clone(),
                None => defaults.id,
            },
        }
    }
}

impl TetherAgentOptionsBuilder {
    /// The agent options a persisted project asks for: the role falls
    /// back to `gui`, everything else stays optional, and the caller
    /// connects explicitly.
    pub fn from_project(project: &TetherSettingsInProject) -> (r: TetherAgentOptionsBuilder)
        ensures
            r.role@ == match opt_view(project.role) {
                Some(x) => x,
                None => "gui"@,
            },
            opt_view(r.id) == opt_view(project.id),
            opt_view(r.host) == opt_view(project.host),
            r.port == project.port,
            opt_view(r.username) == opt_view(project.username),
            opt_view(r.password) == opt_view(project.password),
            r.auto_connect == false,
    {
        TetherAgentOptionsBuilder {
            role: match &project.role {
                Some(x) => x.clone(),
                None => String::from_str("gui"),
            },
            id: match &project.id {
                Some(i) => Some(i.clone()),
                None => None,
            },
            host: match &project.host {
                Some(h) => Some(h.clone()),
                None => None,
            },
            port: project.port,
            username: match &project.username {
                Some(u) => Some(u.clone()),
                None => None,
            },
            password: match &project.password {
                Some(p) => Some(p.clone()),
                None => None,
            },
            auto_connect: false,
        }
    }

    /// The agent options the edited settings ask for: every field is
    /// taken as given, and the caller connects explicitly.
    pub fn from_editable(editable: &EditableTetherSettings) -> (r: TetherAgentOptionsBuilder)
        ensures
            r.role@ == editable.role@,
            opt_view(r.id) == Some(editable.id@),
            opt_view(r.host) == Some(editable.host@),
            r.port == Some(editable.port),
            opt_view(r.username) == Some(editable.username@),
            opt_view(r.password) == Some(editable.password@),
            r.auto_connect == false,
    {
        TetherAgentOptionsBuilder {
            role: editable.role.clone(),
            id: Some(editable.id.clone()),
            host: Some(editable.host.clone()),
            port: Some(editable.port),
            username: Some(editable.username.clone()),
            password: Some(editable.password.clone()),
            auto_connect: false,
        }
    }
}

/// The command-line knobs, with their startup defaults.
pub struct Cli {
    /// JSON file path to load on startup; no panic if not found.
    pub json_load: Option<String>,
    /// Disable the broker connection on startup.
    pub tether_disable: bool,
    /// Subscribe pattern for the traffic monitor.
    pub monitor_topic: String,
    /// Repaint continuously; affects redraw cadence only, never message
    /// semantics.
    pub continuous_mode: bool,
    /// Log verbosity.
    pub log_level: String,
}

impl Default for Cli {
    fn default() -> (r: Cli)
        ensures
            r.json_load is None,
            r.tether_disable == false,
            r.monitor_topic@ == "#"@,
            r.continuous_mode == false,
            r.log_level@ == "info"@,
    {
        Cli {
            json_load: None,
            tether_disable: false,
            monitor_topic: String::from_str("#"),
            continuous_mode: false,
            log_level: String::from_str("info"),
        }
    }
}

} // verus!
