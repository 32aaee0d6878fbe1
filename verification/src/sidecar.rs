//! The macOS overlay helper that Yap runs beside the core: when to launch
//! it, and the events it reports, one JSON object per line.
use vstd::prelude::*;

use crate::text::{chars_of, join_all, joined_all, opt_chars};

verus! {

/// What the `event` field of a line holds where the line is a JSON value
/// whose `event` field is a string (what `serde_json` reads from it).
pub uninterp spec fn json_event(line: Seq<char>) -> Option<Seq<char>>;

/// `serde_json::from_str` of a line, then its `event` field where that is
/// a string: a function of the line alone.
#[verifier::external_body]
fn parse_event(line: &str) -> (r: Option<String>)
    ensures
        opt_chars(r) == json_event(line@),
{
    match serde_json::from_str::<serde_json::Value>(line) {
        Ok(v) => v["event"].as_str().map(|s| s.to_string()),
        Err(_) => None,
    }
}

/// The event a line of the helper's output reports: none for an empty line
/// or one that is not a JSON object with a string `event`.
pub fn sidecar_event(line: &str) -> (r: Option<String>)
    ensures
        line@.len() == 0 ==> r is None,
        line@.len() > 0 ==> opt_chars(r) == json_event(line@),
{
    let v = chars_of(line);
    if v.len() == 0 {
        return None;
    }
    parse_event(line)
}

/// What starting the overlay helper comes to.
#[derive(Clone, PartialEq, Eq, Debug)]
pub enum SpawnDecision {
    /// It is running already: nothing to do.
    AlreadyRunning,
    /// No helper binary was found: nothing to launch.
    BinaryNotFound,
    /// Launch this binary.
    Launch(String),
}

/// Whether and what to launch for the overlay: `running` tells whether the
/// helper's input is open, `binary` is the helper binary found, if any.
pub fn spawn_for_core(running: bool, binary: Option<String>) -> (r: SpawnDecision)
    ensures
        running ==> r == SpawnDecision::AlreadyRunning,
        !running && binary is None ==> r == SpawnDecision::BinaryNotFound,
        !running && binary is Some ==> r == SpawnDecision::Launch(binary->Some_0),
{
    if running {
        return SpawnDecision::AlreadyRunning;
    }
    match binary {
        None => SpawnDecision::BinaryNotFound,
        Some(b) => SpawnDecision::Launch(b),
    }
}

/// Stops sending to the overlay: its input is dropped, which lets the
/// helper end its read loop and exit.
pub fn stop<T>(input: &mut Option<T>)
    ensures
        (*final(input)) is None,
{
    *input = None;
}

/// The overlay helper binary built for this machine's architecture.
pub open spec fn overlay_binary_name(aarch64: bool) -> Seq<char> {
    if aarch64 {
        "yap-overlay-aarch64-apple-darwin"@
    } else {
        "yap-overlay-x86_64-apple-darwin"@
    }
}

/// The places the overlay helper binary is looked for, in order: the debug
/// and release builds of the Swift package under `manifest_dir`, the
/// architecture's bundled binary under `manifest_dir/binaries`, and, where
/// the running executable's directory `exe_parent` is known, `yap-overlay`
/// and the architecture's binary beside it.
pub fn sidecar_candidates(manifest_dir: &str, exe_parent: Option<String>, aarch64: bool) -> (r: Vec<
    String,
>)
    ensures
        r@.len() == if exe_parent is Some {
            5int
        } else {
            3int
        },
        joined_all(
            manifest_dir@,
            seq!["sidecar-overlay"@, ".build"@, "debug"@, "yap-overlay"@],
            r@[0]@,
        ),
        joined_all(
            manifest_dir@,
            seq!["sidecar-overlay"@, ".build"@, "release"@, "yap-overlay"@],
            r@[1]@,
        ),
        joined_all(manifest_dir@, seq!["binaries"@, overlay_binary_name(aarch64)], r@[2]@),
        exe_parent matches Some(p) ==> joined_all(p@, seq!["yap-overlay"@], r@[3]@) && joined_all(
            p@,
            seq![overlay_binary_name(aarch64)],
            r@[4]@,
        ),
{
    let arch = if aarch64 {
        "yap-overlay-aarch64-apple-darwin"
    } else {
        "yap-overlay-x86_64-apple-darwin"
    };
    let mut r: Vec<String> = Vec::new();
    let debug = vec!["sidecar-overlay", ".build", "debug", "yap-overlay"];
    assert(debug@.map_values(|p: &str| p@) =~= seq![
        "sidecar-overlay"@,
        ".build"@,
        "debug"@,
        "yap-overlay"@,
    ]);
    r.push(join_all(manifest_dir, &debug));
    let release = vec!["sidecar-overlay", ".build", "release", "yap-overlay"];
    assert(release@.map_values(|p: &str| p@) =~= seq![
        "sidecar-overlay"@,
        ".build"@,
        "release"@,
        "yap-overlay"@,
    ]);
    r.push(join_all(manifest_dir, &release));
    let bundled = vec!["binaries", arch];
    assert(bundled@.map_values(|p: &str| p@) =~= seq!["binaries"@, overlay_binary_name(aarch64)]);
    r.push(join_all(manifest_dir, &bundled));
    match &exe_parent {
        Some(p) => {
            let beside = vec!["yap-overlay"];
            assert(beside@.map_values(|q: &str| q@) =~= seq!["yap-overlay"@]);
            r.push(join_all(p.as_str(), &beside));
            let arch_beside = vec![arch];
            assert(arch_beside@.map_values(|q: &str| q@) =~= seq![overlay_binary_name(aarch64)]);
            r.push(join_all(p.as_str(), &arch_beside));
        },
        None => {},
    }
    r
}

} // verus!
