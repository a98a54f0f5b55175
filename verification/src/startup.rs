//! What the shell does with the outcome of a license check: which page it
//! shows, which streaming servers it runs, and when it stops them.

use vstd::prelude::*;

verus! {

/// The name under which the application registers to start with the session.
pub const APP_NAME: &'static str = "VideoPOS";

/// The page that asks for a license key.
pub const SETUP_ROUTE: &'static str = "/setup";

/// The page shown once the license is valid.
pub const HOME_ROUTE: &'static str = "/home";

/// The RTSP streaming server run beside the application.
pub const RTSP_SERVER_PATH: &'static str = "binaries/happytime-onvif-server-x64/happytime-rtsp-server/RtspServer";

/// The ONVIF server run beside the application.
pub const ONVIF_SERVER_PATH: &'static str = "binaries/happytime-onvif-server-x64/OnvifServer";

/// Seconds between two checks of the license while the application runs.
pub const LICENSE_RECHECK_SECS: u64 = 60;

/// The page for a license check's outcome.
pub open spec fn route_for(valid: bool) -> Seq<char> {
    if valid { HOME_ROUTE@ } else { SETUP_ROUTE@ }
}

/// The page to show after the license check at start-up.
pub fn startup_route(valid: bool) -> (r: String)
    ensures
        r@ == route_for(valid),
{
    if valid {
        String::from_str(HOME_ROUTE)
    } else {
        String::from_str(SETUP_ROUTE)
    }
}

/// The script that sends the window to `route`.
pub fn navigation_script(route: &str) -> (r: String)
    ensures
        r@ == "window.location.href = '"@ + route@ + "'"@,
{
    let mut script = String::from_str("window.location.href = '");
    script.append(route);
    script.append("'");
    script
}

/// The streaming servers to start after the license check at start-up: both
/// when the license is valid, none otherwise.
pub fn sidecars_to_start(valid: bool) -> (r: Vec<String>)
    ensures
        valid ==> r@.len() == 2 && r@[0]@ == RTSP_SERVER_PATH@ && r@[1]@ == ONVIF_SERVER_PATH@,
        !valid ==> r@.len() == 0,
{
    let mut paths: Vec<String> = Vec::new();
    if valid {
        paths.push(String::from_str(RTSP_SERVER_PATH));
        paths.push(String::from_str(ONVIF_SERVER_PATH));
    }
    paths
}

/// What the periodic license check does next.
#[derive(Clone, Copy, Debug, PartialEq, Eq, Structural)]
pub enum WatchdogAction {
    /// Wait `LICENSE_RECHECK_SECS` and check again.
    KeepWatching,
    /// Stop the streaming servers and end the periodic check.
    StopSidecars,
}

/// The periodic check's decision on a license check's outcome: a license
/// that is no longer valid stops the streaming servers for good.
pub fn watchdog_step(valid: bool) -> (r: WatchdogAction)
    ensures
        r == (if valid { WatchdogAction::KeepWatching } else { WatchdogAction::StopSidecars }),
{
    if valid {
        WatchdogAction::KeepWatching
    } else {
        WatchdogAction::StopSidecars
    }
}

} // verus!
