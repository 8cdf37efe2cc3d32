//! The compositor's open windows, as far as the bar's logic reads them,
//! and the decision behind an application button's click: focus the first
//! open window of that application, or launch it when none is open.
//! Querying the compositor and dispatching the focus command happen
//! outside.
use vstd::prelude::*;

use crate::text::contains_str;
use crate::text::has_substr;
use crate::text::lower_of;
use crate::text::lowercase;

verus! {

/// One open window, reduced to what the bar's decisions read.
#[derive(Debug, Clone, PartialEq)]
pub struct Client {
    /// The window's unique address.
    pub address: String,
    /// The window class or application id.
    pub class: String,
    /// The window title.
    pub title: String,
    /// The identifier of the workspace holding the window.
    pub workspace_id: i64,
}

/// Whether a window belongs to an application: its lower-cased class
/// contains the application name.
pub fn client_matches_app(class: &str, app_name: &str) -> (r: bool)
    ensures
        r == has_substr(lower_of(class@), app_name@),
{
    let low = lowercase(class);
    contains_str(low.as_str(), app_name)
}

/// Index of the first client at or after `i` whose class matches the
/// application, or `cs.len()`.
pub open spec fn first_match(cs: Seq<Client>, app: Seq<char>, i: int) -> int
    decreases cs.len() - i when 0 <= i <= cs.len()
{
    if i >= cs.len() {
        cs.len() as int
    } else if has_substr(lower_of(cs[i].class@), app) {
        i
    } else {
        first_match(cs, app, i + 1)
    }
}

fn first_match_from(clients: &Vec<Client>, app_name: &str, i: usize) -> (r: usize)
    requires
        i <= clients@.len(),
    ensures
        r as int == first_match(clients@, app_name@, i as int),
        i <= r <= clients@.len(),
    decreases clients@.len() - i,
{
    if i == clients.len() {
        i
    } else if client_matches_app(clients[i].class.as_str(), app_name) {
        i
    } else {
        first_match_from(clients, app_name, i + 1)
    }
}

/// What a click on an application button does.
#[derive(Debug, Clone, Copy, PartialEq, Eq, Structural)]
pub enum LaunchDecision {
    /// Focus the open window at this index of the client list.
    Focus(usize),
    /// No window of the application is open: launch its command.
    Launch,
}

/// Decide a click: focus the first open window whose class matches the
/// application, or launch it when none does.
pub fn focus_or_launch(clients: &Vec<Client>, app_name: &str) -> (r: LaunchDecision)
    ensures
        (r is Launch) == (first_match(clients@, app_name@, 0) == clients@.len()),
        r matches LaunchDecision::Focus(i) ==> i as int == first_match(clients@, app_name@, 0),
{
    let m = first_match_from(clients, app_name, 0);
    if m == clients.len() {
        LaunchDecision::Launch
    } else {
        LaunchDecision::Focus(m)
    }
}

/// Whether any open window belongs to the application — what decides if a
/// freshly built button starts out marked as opened.
pub fn has_open_client(clients: &Vec<Client>, app_name: &str) -> (r: bool)
    ensures
        r == (first_match(clients@, app_name@, 0) < clients@.len()),
{
    first_match_from(clients, app_name, 0) < clients.len()
}

} // verus!
