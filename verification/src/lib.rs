//! A verified core for a desktop-notification command-line tool.
//!
//! The library parses command-line tokens into a validated notification
//! request, plans the transport-level payload for it, and decides the
//! outcomes of the diagnostic subcommands. Everything here is verified;
//! the binary around it only performs the I/O.

use vstd::prelude::*;

mod args;
mod digits;
mod dispatch;
mod hint;
mod request;
mod server;
mod text;
mod urgency;

pub use args::{parse_command, ArgError, Command};
pub use digits::{parse_u32, u32_to_string};
pub use dispatch::{
    info_report, plan_send, render, InfoReport, NotificationPayload, SendPlan, ServerInfo,
    DEFAULT_APP_NAME,
};
pub use hint::{parse_hint, Hint, HintError, HintKind};
pub use request::{NotificationRequest, PlatformExtension};
pub use server::{ServerAction, ServerEvent, ServerPhase};
pub use text::str_eq;
pub use urgency::{parse_urgency, UrgencyShim};
