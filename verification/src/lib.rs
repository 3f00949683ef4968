//! Native backend core of a desktop application shell.
//!
//! The shell authenticates a user against a remote HTTP API, keeps the
//! session alive through a cookie-persisting client, and coordinates a
//! two-phase startup: a splashscreen window is swapped for the main window
//! once both the frontend and the backend have signalled readiness.
//!
//! This crate holds the decision logic of that shell: which HTTP statuses
//! count as success and what error message each failure produces, when the
//! startup rendezvous triggers the window handoff, and where a centered
//! window is placed. The surrounding process (the HTTP transport, the
//! window system, the task runtime) performs the actions these functions
//! decide on.

use vstd::prelude::*;

pub mod auth;
pub mod startup;
pub mod text;
pub mod window;

verus! {

/// Builds the greeting returned by the `greet` command.
pub fn greet(name: &str) -> (r: String)
    ensures
        r@ == "Hello, "@ + name@ + "! You've been greeted from Rust!"@,
{
    let mut r = String::from_str("Hello, ");
    r.append(name);
    r.append("! You've been greeted from Rust!");
    r
}

} // verus!
