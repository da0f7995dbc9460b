//! Decision logic of the X32 to VOR adapter: persistent settings and the
//! commands that change them, the refresh schedule towards the console, the
//! packet plan towards VOR and the routing of what the console reports.

pub mod listener;
pub mod osc;
pub mod refresh;
pub mod settings;
pub mod text;
pub mod vor;

pub use listener::{route_report, ConsoleEvent, ConsoleReport};
pub use osc::cue_packet;
pub use refresh::{packet_status, x32_target, RefreshAction, RefreshSchedule};
pub use settings::{flag_from_name, AppSettings, SendFlag, SettingsView, VorFlag};
pub use vor::{plan_vor_update, vor_plan, vor_target, vor_update_for, FaderGroup, VorItem};
