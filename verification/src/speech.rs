//! On-device speech recognition through the macOS SpeechAnalyzer helper.
use vstd::prelude::*;

use crate::text::{join_all, joined_all, owned, trim, trim_str};

verus! {

/// What the SpeechAnalyzer helper left behind: whether it exited
/// successfully, its exit status as text, and what it wrote.
#[derive(Clone, Debug)]
pub struct HelperOutput {
    pub success: bool,
    pub status: String,
    pub stdout: String,
    pub stderr: String,
}

/// The transcript or the error a run of the helper gives: the trimmed
/// output on success, else its trimmed error output, or, where that is
/// empty, the exit status.
pub open spec fn helper_outcome_spec(o: HelperOutput) -> Result<Seq<char>, Seq<char>> {
    if o.success {
        Ok(trim(o.stdout@))
    } else if trim(o.stderr@).len() > 0 {
        Err(trim(o.stderr@))
    } else {
        Err("SpeechAnalyzer helper failed with status "@ + o.status@)
    }
}

pub open spec fn text_result(r: Result<String, String>) -> Result<Seq<char>, Seq<char>> {
    match r {
        Ok(p) => Ok(p@),
        Err(e) => Err(e@),
    }
}

/// The transcript or the error a run of the helper gives.
pub fn helper_outcome(output: HelperOutput) -> (r: Result<String, String>)
    ensures
        text_result(r) == helper_outcome_spec(output),
{
    let stderr = trim_str(output.stderr.as_str());
    let stdout = trim_str(output.stdout.as_str());
    if output.success {
        return Ok(stdout);
    }
    let ev = crate::text::chars_of(stderr.as_str());
    if ev.len() == 0 {
        Err(crate::text::concat2("SpeechAnalyzer helper failed with status ", output.status.as_str()))
    } else {
        Err(stderr)
    }
}

/// The refusal on platforms without on-device recognition.
pub open spec fn unavailable_message() -> Seq<char> {
    "On-device speech recognition is only available on macOS 26 or newer"@
}

/// The refusal where the helper binary is missing.
pub open spec fn helper_missing_message() -> Seq<char> {
    "SpeechAnalyzer helper not found. Rebuild the macOS sidecar with `pnpm run electron:build-sidecar`."@
}

/// Transcribes a recording on the device. `on_macos` tells whether the
/// platform has the recognizer, `helper` is the helper binary found, and
/// `run` runs it on the recording (failing where it cannot be started).
pub fn transcribe<R: FnOnce(String) -> Result<HelperOutput, String>>(
    on_macos: bool,
    helper: Option<String>,
    run: R,
) -> (r: Result<String, String>)
    requires
        forall|h: String| run.requires((h,)),
    ensures
        !on_macos ==> (r matches Err(e) && e@ == unavailable_message()),
        on_macos && helper is None ==> (r matches Err(e) && e@ == helper_missing_message()),
        on_macos && helper is Some ==> exists|res: Result<HelperOutput, String>|
            #![trigger run.ensures((helper->Some_0,), res)]
            run.ensures((helper->Some_0,), res) && match res {
                Err(e) => r matches Err(m) && m@ == "failed to run SpeechAnalyzer helper: "@ + e@,
                Ok(o) => text_result(r) == helper_outcome_spec(o),
            },
{
    if !on_macos {
        return Err(owned("On-device speech recognition is only available on macOS 26 or newer"));
    }
    let h = match helper {
        None => {
            return Err(
                owned(
                    "SpeechAnalyzer helper not found. Rebuild the macOS sidecar with `pnpm run electron:build-sidecar`.",
                ),
            );
        },
        Some(h) => h,
    };
    let ghost hv = h;
    let res = run(h);
    let ghost rv = res;
    assert(run.ensures((hv,), rv));
    match res {
        Err(e) => Err(crate::text::concat2("failed to run SpeechAnalyzer helper: ", e.as_str())),
        Ok(o) => helper_outcome(o),
    }
}

/// The SpeechAnalyzer helper binary built for this machine's architecture.
pub open spec fn speech_helper_name(aarch64: bool) -> Seq<char> {
    if aarch64 {
        "yap-speech-aarch64-apple-darwin"@
    } else {
        "yap-speech-x86_64-apple-darwin"@
    }
}

/// The places the SpeechAnalyzer helper is looked for, in order: beside the
/// running executable in `exe_dir`, then, where the directory two levels
/// above it (`native_core_dir`) is known, under its `binaries`.
pub fn speech_helper_candidates(exe_dir: &str, native_core_dir: Option<String>, aarch64: bool) -> (r:
    Vec<String>)
    ensures
        r@.len() == if native_core_dir is Some {
            2int
        } else {
            1int
        },
        joined_all(exe_dir@, seq![speech_helper_name(aarch64)], r@[0]@),
        native_core_dir matches Some(d) ==> joined_all(
            d@,
            seq!["binaries"@, speech_helper_name(aarch64)],
            r@[1]@,
        ),
{
    let name = if aarch64 {
        "yap-speech-aarch64-apple-darwin"
    } else {
        "yap-speech-x86_64-apple-darwin"
    };
    let mut r: Vec<String> = Vec::new();
    let beside = vec![name];
    assert(beside@.map_values(|p: &str| p@) =~= seq![speech_helper_name(aarch64)]);
    r.push(join_all(exe_dir, &beside));
    match &native_core_dir {
        Some(d) => {
            let bundled = vec!["binaries", name];
            assert(bundled@.map_values(|p: &str| p@) =~= seq!["binaries"@, speech_helper_name(aarch64)]);
            r.push(join_all(d.as_str(), &bundled));
        },
        None => {},
    }
    r
}

} // verus!
