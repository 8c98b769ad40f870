//! The command line, as values.
use vstd::prelude::*;

verus! {

/// A whole command line.
pub struct Cli {
    pub command: Command,
}

/// What is asked for.
pub enum Command {
    /// Block until the condition is met, print the event as JSON.
    Wait(WaitArgs),
    /// Register a persistent subscription with a callback, exit immediately.
    On(OnArgs),
    /// List subscriptions.
    List(ListArgs),
    /// Cancel a subscription.
    Cancel {
        /// The subscription's identifier.
        id: String,
    },
    /// Show the daemon's status.
    Status,
    /// Start the daemon (usually started by itself).
    Daemon(DaemonArgs),
}

/// The arguments of `wait`.
pub struct WaitArgs {
    /// The source: github, timer, webhook; ci and issue are short for github ci, github issue.
    pub source: String,
    /// The source's own arguments (`pr 42 merged`, `30m`).
    pub args: Vec<String>,
    /// The time after which the subscription expires (`1h`, `30m`).
    pub timeout: Option<String>,
    /// The GitHub repository (`owner/repo`).
    pub repo: Option<String>,
}

/// The arguments of `on`.
pub struct OnArgs {
    /// The source: github, timer, webhook; ci and issue are short for github ci, github issue.
    pub source: String,
    /// The source's own arguments.
    pub args: Vec<String>,
    /// The command to execute when the event fires.
    pub run: String,
    /// The time after which the subscription expires.
    pub timeout: Option<String>,
    /// The GitHub repository (`owner/repo`).
    pub repo: Option<String>,
}

/// The arguments of `list`.
pub struct ListArgs {
    /// Only subscriptions of this source.
    pub source: Option<String>,
    /// Only subscriptions of this status.
    pub status: Option<String>,
}

/// The arguments of `daemon`.
pub struct DaemonArgs {
    /// Whether to listen for webhooks.
    pub enable_webhooks: bool,
    /// The port to listen on.
    pub webhook_port: u16,
}

} // verus!
