//! Live configuration of the `tetron-sync-receiver` add-on, through the
//! installed binary's own CLI (with `--json` for reads).

use vstd::prelude::*;
use crate::command::{strings, texts, CliCall};
use crate::text::{decimal, push_decimal};

verus! {

/// Where the sync receiver binary is installed.
pub const BINARY: &'static str = "/usr/local/bin/tetron-sync-receiver";

/// The name the receiver's errors are reported under.
pub const TOOL: &'static str = "tetron-sync-receiver";

/// The receiver's state, as its `receiver status` command reports it.
#[derive(Debug)]
pub struct ReceiverStatus {
    pub active: bool,
    pub port: u16,
    pub module_count: usize,
    pub allow_count: usize,
}

/// One shared directory (rsync module) of the receiver.
#[derive(Debug)]
pub struct Module {
    pub name: String,
    pub path: String,
}

/// `call` runs the receiver binary with exactly the arguments `args`.
pub open spec fn runs(call: CliCall, args: Seq<Seq<char>>) -> bool {
    call.program@ == BINARY@ && texts(call.args@) == args
}

fn call(parts: &[&str]) -> (r: CliCall)
    ensures
        r.program@ == BINARY@,
        r.args@.len() == parts@.len(),
        forall|i: int| 0 <= i < parts@.len() ==> #[trigger] r.args@[i]@ == parts@[i]@,
{
    CliCall { program: BINARY, args: strings(parts) }
}

/// The receiver's status query.
pub fn status() -> (r: CliCall)
    ensures
        runs(r, seq!["--json"@, "receiver"@, "status"@]),
{
    let r = call(&["--json", "receiver", "status"]);
    assert(texts(r.args@) =~= seq!["--json"@, "receiver"@, "status"@]);
    r
}

/// The query listing the receiver's modules.
pub fn list_modules() -> (r: CliCall)
    ensures
        runs(r, seq!["--json"@, "module"@, "list"@]),
{
    let r = call(&["--json", "module", "list"]);
    assert(texts(r.args@) =~= seq!["--json"@, "module"@, "list"@]);
    r
}

/// The command adding (or replacing) the module `name` at `path`.
pub fn add_module(name: &str, path: &str) -> (r: CliCall)
    ensures
        runs(r, seq!["module"@, "add"@, name@, path@]),
{
    let r = call(&["module", "add", name, path]);
    assert(texts(r.args@) =~= seq!["module"@, "add"@, name@, path@]);
    r
}

/// The command removing the module `name`.
pub fn remove_module(name: &str) -> (r: CliCall)
    ensures
        runs(r, seq!["module"@, "remove"@, name@]),
{
    let r = call(&["module", "remove", name]);
    assert(texts(r.args@) =~= seq!["module"@, "remove"@, name@]);
    r
}

/// The query listing the allowed addresses.
pub fn list_allow() -> (r: CliCall)
    ensures
        runs(r, seq!["--json"@, "allow"@, "list"@]),
{
    let r = call(&["--json", "allow", "list"]);
    assert(texts(r.args@) =~= seq!["--json"@, "allow"@, "list"@]);
    r
}

/// The command allowing the address `ip`.
pub fn add_allow_ip(ip: &str) -> (r: CliCall)
    ensures
        runs(r, seq!["allow"@, "add"@, ip@]),
{
    let r = call(&["allow", "add", ip]);
    assert(texts(r.args@) =~= seq!["allow"@, "add"@, ip@]);
    r
}

/// The command allowing the mesh peer named `hostname`.
pub fn add_allow_peer(hostname: &str) -> (r: CliCall)
    ensures
        runs(r, seq!["allow"@, "add-peer"@, hostname@]),
{
    let r = call(&["allow", "add-peer", hostname]);
    assert(texts(r.args@) =~= seq!["allow"@, "add-peer"@, hostname@]);
    r
}

/// The command removing the allowed address `ip`.
pub fn remove_allow(ip: &str) -> (r: CliCall)
    ensures
        runs(r, seq!["allow"@, "remove"@, ip@]),
{
    let r = call(&["allow", "remove", ip]);
    assert(texts(r.args@) =~= seq!["allow"@, "remove"@, ip@]);
    r
}

/// The command starting the receiver's service.
pub fn enable() -> (r: CliCall)
    ensures
        runs(r, seq!["receiver"@, "enable"@]),
{
    let r = call(&["receiver", "enable"]);
    assert(texts(r.args@) =~= seq!["receiver"@, "enable"@]);
    r
}

/// The command stopping the receiver's service.
pub fn disable() -> (r: CliCall)
    ensures
        runs(r, seq!["receiver"@, "disable"@]),
{
    let r = call(&["receiver", "disable"]);
    assert(texts(r.args@) =~= seq!["receiver"@, "disable"@]);
    r
}

/// The command setting the receiver's port (the receiver restarts its
/// service if it is active); the port is passed in decimal.
pub fn set_port(port: u16) -> (r: CliCall)
    ensures
        runs(r, seq!["receiver"@, "port"@, decimal(port as nat)]),
{
    let mut p = String::new();
    push_decimal(&mut p, port as u64);
    let mut args = strings(&["receiver", "port"]);
    args.push(p);
    let r = CliCall { program: BINARY, args };
    assert(texts(r.args@) =~= seq!["receiver"@, "port"@, decimal(port as nat)]);
    r
}

} // verus!
