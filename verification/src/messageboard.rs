//! Live management of `tetron-messageboard` boards (one per network),
//! through the installed binary's own CLI.

use vstd::prelude::*;
use crate::command::{strings, texts, CliCall};

verus! {

/// Where the message-board binary is installed.
pub const BINARY: &'static str = "/usr/local/bin/tetron-messageboard";

/// The name the board binary's errors are reported under.
pub const TOOL: &'static str = "tetron-messageboard";

/// One board hosted on this node, as the binary's `list --json` reports it.
#[derive(Debug)]
pub struct Board {
    pub network: String,
    pub port: u16,
    pub token: String,
    pub active: bool,
    pub legacy: bool,
}

/// Calls `Path::exists` on `path`. What it finds depends on the disk; nothing
/// is promised.
#[verifier::external_body]
fn path_exists(path: &str) -> (r: bool) {
    std::path::Path::new(path).exists()
}

/// The path whose existence tells whether the board binary is on this host.
pub fn binary_location() -> (r: &'static str)
    ensures
        r@ == "/usr/local/bin/tetron-messageboard"@,
{
    BINARY
}

/// Whether the board binary has been placed on this host (distinct from a
/// board running): whether the path `binary_location` gives exists. What is
/// found there depends on the disk, so the result is not stated.
pub fn binary_present() -> bool {
    path_exists(binary_location())
}

/// `call` runs the board binary with exactly the arguments `args`.
pub open spec fn runs(call: CliCall, args: Seq<Seq<char>>) -> bool {
    call.program@ == BINARY@ && texts(call.args@) == args
}

fn call(parts: &[&str]) -> (r: CliCall)
    ensures
        r.program@ == BINARY@,
        r.args@.len() == parts@.len(),
        forall|i: int| 0 <= i < parts@.len() ==> #[trigger] r.args@[i]@ == parts@[i]@,
{
    CliCall { program: BINARY, args: strings(parts) }
}

/// The query listing this node's boards.
pub fn list() -> (r: CliCall)
    ensures
        runs(r, seq!["list"@, "--json"@]),
{
    let r = call(&["list", "--json"]);
    assert(texts(r.args@) =~= seq!["list"@, "--json"@]);
    r
}

/// The command starting the board of the network `network`.
pub fn start(network: &str) -> (r: CliCall)
    ensures
        runs(r, seq!["install"@, "--network"@, network@]),
{
    let r = call(&["install", "--network", network]);
    assert(texts(r.args@) =~= seq!["install"@, "--network"@, network@]);
    r
}

/// The command stopping the board of the network `network`.
pub fn stop(network: &str) -> (r: CliCall)
    ensures
        runs(r, seq!["uninstall"@, "--network"@, network@]),
{
    let r = call(&["uninstall", "--network", network]);
    assert(texts(r.args@) =~= seq!["uninstall"@, "--network"@, network@]);
    r
}

/// The command restarting every board of this node.
pub fn restart_all() -> (r: CliCall)
    ensures
        runs(r, seq!["restart-all"@]),
{
    let r = call(&["restart-all"]);
    assert(texts(r.args@) =~= seq!["restart-all"@]);
    r
}

} // verus!
