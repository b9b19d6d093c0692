//! The per-user service definition (a systemd --user unit on Linux, a
//! launchd LaunchAgent on macOS) that runs the dashboard at login: the
//! shipped templates name the default install paths, and installing points
//! them at the binary actually running and sets the port it listens on.

use vstd::prelude::*;
use crate::text::{decimal, push_decimal, replace_all, replaced};

verus! {

/// The binary path the shipped templates name.
pub const TEMPLATE_BINARY_PATH: &'static str = "/usr/local/bin/tetron-webui";

/// The log path the shipped LaunchAgent template names.
pub const TEMPLATE_LOG_PATH: &'static str = "/tmp/tetron-webui.log";

/// The line that opens the unit's `[Service]` section.
pub const UNIT_SERVICE_SECTION: &'static str = "[Service]\n";

/// The end of the LaunchAgent's top-level dictionary.
pub const PLIST_END: &'static str = "</dict>\n</plist>";

/// The unit line that sets the dashboard's port in the service's environment.
pub open spec fn unit_port_line(port: u16) -> Seq<char> {
    "Environment=TETRON_WEBUI_PORT="@ + decimal(port as nat) + "\n"@
}

/// The LaunchAgent entry that sets the dashboard's port in the service's
/// environment.
pub open spec fn plist_port_entry(port: u16) -> Seq<char> {
    "\t<key>EnvironmentVariables</key>\n\t<dict>\n\t\t<key>TETRON_WEBUI_PORT</key>\n\t\t<string>"@
        + decimal(port as nat) + "</string>\n\t</dict>\n"@
}

/// The systemd unit to write: the template with every mention of the
/// default binary path replaced by the running binary `exe`, and the line
/// setting `TETRON_WEBUI_PORT` to `port` added at the start of the
/// `[Service]` section, so that the service listens on that port and
/// consumers of the same variable find it.
pub fn unit_file(template: &str, exe: &str, port: u16) -> (r: String)
    ensures
        r@ == replaced(
            replaced(template@, TEMPLATE_BINARY_PATH@, exe@),
            UNIT_SERVICE_SECTION@,
            UNIT_SERVICE_SECTION@ + unit_port_line(port),
        ),
{
    let with_exe = replace_all(template, TEMPLATE_BINARY_PATH, exe);
    let mut section = String::from_str(UNIT_SERVICE_SECTION);
    section.append("Environment=TETRON_WEBUI_PORT=");
    push_decimal(&mut section, port as u64);
    section.append("\n");
    assert(section@ =~= UNIT_SERVICE_SECTION@ + unit_port_line(port));
    replace_all(with_exe.as_str(), UNIT_SERVICE_SECTION, section.as_str())
}

/// The LaunchAgent to write: the template pointed at the running binary
/// `exe`, then at the user's log file `log`, with the environment entry
/// setting `TETRON_WEBUI_PORT` to `port` added as the last entry of its
/// top-level dictionary.
pub fn plist_file(template: &str, exe: &str, log: &str, port: u16) -> (r: String)
    ensures
        r@ == replaced(
            replaced(replaced(template@, TEMPLATE_BINARY_PATH@, exe@), TEMPLATE_LOG_PATH@, log@),
            PLIST_END@,
            plist_port_entry(port) + PLIST_END@,
        ),
{
    let with_exe = replace_all(template, TEMPLATE_BINARY_PATH, exe);
    let with_log = replace_all(with_exe.as_str(), TEMPLATE_LOG_PATH, log);
    let mut entry = String::from_str("\t<key>EnvironmentVariables</key>\n\t<dict>\n\t\t<key>TETRON_WEBUI_PORT</key>\n\t\t<string>");
    push_decimal(&mut entry, port as u64);
    entry.append("</string>\n\t</dict>\n");
    entry.append(PLIST_END);
    assert(entry@ =~= plist_port_entry(port) + PLIST_END@);
    replace_all(with_log.as_str(), PLIST_END, entry.as_str())
}

/// The local address the installed service is waited on and reported at.
pub fn local_address(port: u16) -> (r: String)
    ensures
        r@ == "127.0.0.1:"@ + decimal(port as nat),
{
    let mut r = String::from_str("127.0.0.1:");
    push_decimal(&mut r, port as u64);
    r
}

/// How long install waits for the dashboard to answer before it gives up.
pub const READY_TIMEOUT_MILLIS: u64 = 10000;

/// How long install waits between two attempts to reach the dashboard.
pub const READY_RETRY_MILLIS: u64 = 250;

/// What the readiness wait at install does next.
#[derive(PartialEq, Eq, Structural, Debug)]
pub enum WaitStep {
    /// The dashboard answered: install succeeded.
    Ready,
    /// The time is up without an answer: install fails.
    GiveUp,
    /// Try again after this many milliseconds.
    RetryAfterMillis(u64),
}

/// One round of the readiness wait, after an attempt to connect: done where
/// it connected; else given up once `elapsed_millis` since the wait began
/// reached `timeout_millis`; else another attempt after the retry pause.
pub fn readiness_step(connected: bool, elapsed_millis: u64, timeout_millis: u64) -> (r: WaitStep)
    ensures
        connected ==> r == WaitStep::Ready,
        !connected && elapsed_millis >= timeout_millis ==> r == WaitStep::GiveUp,
        !connected && elapsed_millis < timeout_millis ==> r == WaitStep::RetryAfterMillis(READY_RETRY_MILLIS),
{
    if connected {
        WaitStep::Ready
    } else if elapsed_millis >= timeout_millis {
        WaitStep::GiveUp
    } else {
        WaitStep::RetryAfterMillis(READY_RETRY_MILLIS)
    }
}

/// The report of an install whose service answered at `address`.
pub fn install_succeeded(address: &str) -> (r: String)
    ensures
        r@ == "tetron-webui service installed and running on http://"@ + address@,
{
    let mut m = String::from_str("tetron-webui service installed and running on http://");
    m.append(address);
    m
}

/// The error of an install whose service never answered at `address`.
pub fn install_unreachable(address: &str) -> (r: String)
    ensures
        r@ == "service was installed but tetron-webui never became reachable on http://"@ + address@
            + ".\nCheck the service logs (journalctl --user -u tetron-webui on Linux, or the log path in the plist on macOS)."@,
{
    let mut m = String::from_str("service was installed but tetron-webui never became reachable on http://");
    m.append(address);
    m.append(
        ".\nCheck the service logs (journalctl --user -u tetron-webui on Linux, or the log path in the plist on macOS).",
    );
    m
}

} // verus!
