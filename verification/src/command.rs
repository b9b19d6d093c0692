//! Invocations of the add-on binaries' own command-line interfaces, and how
//! their outcome is read. The add-ons' CLIs are the single source of truth
//! for their configuration; this library only decides what to run and what
//! its answer means.

use vstd::prelude::*;
use crate::text::{str_concat, lossy_string, trim_string, trimmed, utf8_lossy};

verus! {

/// A command to run: a program and its arguments.
#[derive(Debug)]
pub struct CliCall {
    pub program: &'static str,
    pub args: Vec<String>,
}

/// The characters of each string of a list.
pub open spec fn texts(v: Seq<String>) -> Seq<Seq<char>> {
    v.map_values(|s: String| s@)
}

/// What running a command gave: whether it exited successfully, and what it
/// wrote to its standard output and standard error.
#[derive(Debug)]
pub struct CommandOutput {
    pub success: bool,
    pub stdout: Vec<u8>,
    pub stderr: Vec<u8>,
}

/// What a run of the tool `tool` comes to: its standard output where it
/// succeeded; where it could not be started, that failure named; where it
/// exited unsuccessfully, its standard error read as text and trimmed.
pub open spec fn run_result(tool: Seq<char>, run: Result<CommandOutput, String>) -> Result<Seq<u8>, Seq<char>> {
    match run {
        Err(e) => Err("failed to run "@ + tool + ": "@ + e@),
        Ok(o) => if o.success {
            Ok(o.stdout@)
        } else {
            Err(trimmed(utf8_lossy(o.stderr@)))
        },
    }
}

/// Reads the outcome of running the tool `tool` (see `run_result`).
pub fn command_outcome(tool: &str, run: Result<CommandOutput, String>) -> (r: Result<Vec<u8>, String>)
    ensures
        match run_result(tool@, run) {
            Ok(out) => r matches Ok(v) && v@ == out,
            Err(m) => r matches Err(e) && e@ == m,
        },
{
    match run {
        Err(e) => {
            let mut m = String::from_str("failed to run ");
            m.append(tool);
            m.append(": ");
            m.append(e.as_str());
            Err(m)
        },
        Ok(o) => {
            if o.success {
                Ok(o.stdout)
            } else {
                let text = lossy_string(o.stderr.as_slice());
                Err(trim_string(text.as_str()))
            }
        },
    }
}

/// A list of strings made from the given string slices.
pub fn strings(parts: &[&str]) -> (r: Vec<String>)
    ensures
        r@.len() == parts@.len(),
        forall|i: int| 0 <= i < parts@.len() ==> #[trigger] r@[i]@ == parts@[i]@,
{
    let mut r: Vec<String> = Vec::new();
    let mut i: usize = 0;
    while i < parts.len()
        invariant
            i <= parts@.len(),
            r@.len() == i,
            forall|j: int| 0 <= j < i ==> #[trigger] r@[j]@ == parts@[j]@,
        decreases parts@.len() - i,
    {
        r.push(String::from_str(parts[i]));
        i = i + 1;
    }
    r
}

} // verus!
