//! The build step: the toolchain command line, and the scan of its
//! line-delimited JSON event stream for the artifact and the diagnostics.
use vstd::prelude::*;
use crate::json::{json_text_at, string_at};

verus! {

/// The arguments given to `cargo` to build the script at `manifest`.
pub open spec fn cargo_args_spec(manifest: Seq<char>, release: bool, verbose: bool) -> Seq<
    Seq<char>,
> {
    let base = seq![
        "+nightly"@,
        "-Zscript"@,
        "build"@,
        "--manifest-path"@,
        manifest,
        "--message-format=json"@,
    ];
    let quiet = if verbose {
        base
    } else {
        base.push("--quiet"@)
    };
    if release {
        quiet.push("--release"@)
    } else {
        quiet
    }
}

/// Arguments for `cargo` that build the script at `manifest` in script mode,
/// with JSON messages on standard output; quiet unless `verbose`, optimised
/// when `release`.
pub fn cargo_args(manifest: &str, release: bool, verbose: bool) -> (r: Vec<String>)
    ensures
        r@.map_values(|s: String| s@) == cargo_args_spec(manifest@, release, verbose),
{
    let mut args: Vec<String> = Vec::new();
    args.push(String::from_str("+nightly"));
    args.push(String::from_str("-Zscript"));
    args.push(String::from_str("build"));
    args.push(String::from_str("--manifest-path"));
    args.push(String::from_str(manifest));
    args.push(String::from_str("--message-format=json"));
    if !verbose {
        args.push(String::from_str("--quiet"));
    }
    if release {
        args.push(String::from_str("--release"));
    }
    proof {
        assert(args@.map_values(|s: String| s@) =~= cargo_args_spec(manifest@, release, verbose));
    }
    args
}

/// What one line of the build output means here.
#[derive(Debug)]
pub enum BuildEvent {
    /// An executable was produced at this path.
    Artifact(String),
    /// Rendered compiler message text.
    Diagnostic(String),
    /// Anything else, including lines that are not JSON.
    Other,
}

/// The mathematical content of a build event.
pub enum EventModel {
    Artifact(Seq<char>),
    Diagnostic(Seq<char>),
    Other,
}

impl View for BuildEvent {
    type V = EventModel;

    open spec fn view(&self) -> EventModel {
        match self {
            BuildEvent::Artifact(p) => EventModel::Artifact(p@),
            BuildEvent::Diagnostic(t) => EventModel::Diagnostic(t@),
            BuildEvent::Other => EventModel::Other,
        }
    }
}

/// The event a record stands for, given its `reason`, its `executable` and
/// its `message.rendered` string fields (`None` where absent or not a string).
pub open spec fn event_of(
    reason: Option<Seq<char>>,
    executable: Option<Seq<char>>,
    rendered: Option<Seq<char>>,
) -> EventModel {
    if reason == Some("compiler-artifact"@) && executable is Some {
        EventModel::Artifact(executable.unwrap())
    } else if reason == Some("compiler-message"@) && rendered is Some {
        EventModel::Diagnostic(rendered.unwrap())
    } else {
        EventModel::Other
    }
}

/// The text an optional string holds.
pub open spec fn text_of(o: Option<String>) -> Option<Seq<char>> {
    match o {
        Some(s) => Some(s@),
        None => None,
    }
}

/// The event that a line of the build output stands for.
pub open spec fn event_of_line(line: Seq<char>) -> EventModel {
    event_of(
        json_text_at(line, "/reason"@),
        json_text_at(line, "/executable"@),
        json_text_at(line, "/message/rendered"@),
    )
}

/// Classifies a record from its `reason`, `executable` and
/// `message.rendered` string fields.
pub fn classify_fields(
    reason: Option<String>,
    executable: Option<String>,
    rendered: Option<String>,
) -> (r: BuildEvent)
    ensures
        r@ == event_of(
            text_of(reason),
            text_of(executable),
            text_of(rendered),
        ),
{
    match reason {
        Some(kind) => {
            let artifact_kind = String::from_str("compiler-artifact");
            let message_kind = String::from_str("compiler-message");
            proof {
                reveal_strlit("compiler-artifact");
                reveal_strlit("compiler-message");
                assert("compiler-message"@[9] != "compiler-artifact"@[9]);
            }
            if kind == artifact_kind {
                match executable {
                    Some(p) => BuildEvent::Artifact(p),
                    None => BuildEvent::Other,
                }
            } else if kind == message_kind {
                match rendered {
                    Some(t) => BuildEvent::Diagnostic(t),
                    None => BuildEvent::Other,
                }
            } else {
                BuildEvent::Other
            }
        },
        None => BuildEvent::Other,
    }
}

/// Classifies one line of the build output. Lines that are not JSON, or are
/// records of another kind, are `Other`.
pub fn classify_line(line: &str) -> (r: BuildEvent)
    ensures
        r@ == event_of_line(line@),
{
    let reason = string_at(line, "/reason");
    let executable = string_at(line, "/executable");
    let rendered = string_at(line, "/message/rendered");
    proof {
        reveal_strlit("/reason");
        reveal_strlit("/executable");
        reveal_strlit("/message/rendered");
    }
    classify_fields(reason, executable, rendered)
}

/// The last artifact among `events`, if any.
pub open spec fn last_artifact(events: Seq<EventModel>) -> Option<Seq<char>>
    decreases events.len(),
{
    if events.len() == 0 {
        None
    } else {
        match events.last() {
            EventModel::Artifact(p) => Some(p),
            _ => last_artifact(events.drop_last()),
        }
    }
}

/// The diagnostics among `events`, in order.
pub open spec fn diagnostics_of(events: Seq<EventModel>) -> Seq<Seq<char>>
    decreases events.len(),
{
    if events.len() == 0 {
        Seq::empty()
    } else {
        match events.last() {
            EventModel::Diagnostic(t) => diagnostics_of(events.drop_last()).push(t),
            _ => diagnostics_of(events.drop_last()),
        }
    }
}

/// What has been gathered from the build output so far.
pub struct BuildScan {
    /// The most recent artifact path seen.
    pub artifact: Option<String>,
    /// Every diagnostic seen, in order.
    pub diagnostics: Vec<String>,
}

/// The mathematical content of a scan.
pub struct ScanModel {
    pub artifact: Option<Seq<char>>,
    pub diagnostics: Seq<Seq<char>>,
}

/// What a scan holds after the events `events`.
pub open spec fn scan_of(events: Seq<EventModel>) -> ScanModel {
    ScanModel { artifact: last_artifact(events), diagnostics: diagnostics_of(events) }
}

impl View for BuildScan {
    type V = ScanModel;

    open spec fn view(&self) -> ScanModel {
        ScanModel {
            artifact: text_of(self.artifact),
            diagnostics: self.diagnostics@.map_values(|s: String| s@),
        }
    }
}

/// Why a build did not give an executable.
#[derive(Debug)]
pub enum BuildFailure {
    /// The toolchain exited unsuccessfully (`code` is `None` when it was
    /// killed by a signal); its diagnostics and standard error are kept.
    Failed { code: Option<i32>, diagnostics: Vec<String>, stderr: String },
    /// The toolchain exited successfully but reported no executable.
    NoArtifact,
}

impl BuildScan {
    pub fn new() -> (r: BuildScan)
        ensures
            r@ == scan_of(Seq::empty()),
    {
        let r = BuildScan { artifact: None, diagnostics: Vec::new() };
        assert(r@.diagnostics =~= scan_of(Seq::empty()).diagnostics);
        r
    }

    /// Takes one event into account: an artifact replaces the one seen
    /// before, a diagnostic is appended, anything else changes nothing.
    pub fn observe(&mut self, event: BuildEvent)
        ensures
            forall|events: Seq<EventModel>|
                old(self)@ == scan_of(events) ==> final(self)@ == scan_of(events.push(event@)),
    {
        match event {
            BuildEvent::Artifact(p) => {
                self.artifact = Some(p);
            },
            BuildEvent::Diagnostic(t) => {
                self.diagnostics.push(t);
            },
            BuildEvent::Other => {},
        }
        assert forall|events: Seq<EventModel>|
            old(self)@ == scan_of(events) implies final(self)@ == scan_of(events.push(event@)) by {
            let pushed = events.push(event@);
            assert(pushed.drop_last() =~= events);
            assert(final(self)@.diagnostics =~= scan_of(pushed).diagnostics);
        }
    }

    /// Takes one line of the build output into account.
    pub fn observe_line(&mut self, line: &str)
        ensures
            forall|events: Seq<EventModel>|
                old(self)@ == scan_of(events) ==> final(self)@ == scan_of(
                    events.push(event_of_line(line@)),
                ),
    {
        let event = classify_line(line);
        self.observe(event);
    }

    /// The outcome of the build once the toolchain has exited with `code`:
    /// on failure its diagnostics and `stderr`; on success the last artifact
    /// seen, and an error of its own when there was none.
    pub fn finish(self, code: Option<i32>, stderr: String) -> (r: Result<String, BuildFailure>)
        ensures
            code != Some(0i32) ==> (r matches Err(BuildFailure::Failed { code: c, diagnostics, stderr: e })
                && c == code && diagnostics@.map_values(|s: String| s@) == self@.diagnostics
                && e@ == stderr@),
            code == Some(0i32) && self@.artifact is None ==> r matches Err(BuildFailure::NoArtifact),
            code == Some(0i32) && self@.artifact is Some ==> (r matches Ok(p) && Some(p@)
                == self@.artifact),
    {
        let success = match code {
            Some(c) => c == 0,
            None => false,
        };
        if !success {
            Err(BuildFailure::Failed { code, diagnostics: self.diagnostics, stderr })
        } else {
            match self.artifact {
                Some(p) => Ok(p),
                None => Err(BuildFailure::NoArtifact),
            }
        }
    }
}

/// The scan of a whole build output.
pub fn scan_output(lines: &Vec<String>) -> (r: BuildScan)
    ensures
        r@ == scan_of(lines@.map_values(|l: String| event_of_line(l@))),
{
    let mut scan = BuildScan::new();
    let ghost events = lines@.map_values(|l: String| event_of_line(l@));
    let mut i: usize = 0;
    while i < lines.len()
        invariant
            i <= lines@.len(),
            events == lines@.map_values(|l: String| event_of_line(l@)),
            scan@ == scan_of(events.take(i as int)),
        decreases lines@.len() - i,
    {
        scan.observe_line(lines[i].as_str());
        proof {
            assert(events.take(i as int).push(event_of_line(lines@[i as int]@)) =~= events.take(
                i as int + 1,
            ));
        }
        i = i + 1;
    }
    proof {
        assert(events.take(i as int) =~= events);
    }
    scan
}

} // verus!
