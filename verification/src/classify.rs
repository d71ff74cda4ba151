//! Classification of worker output.  Each stdout line is tested against a
//! fixed, ordered table of substring patterns to derive progress, error and
//! success signals; stderr is run through a multi-line traceback aggregator.
//! Classification augments raw visibility: every line is also logged and
//! forwarded verbatim by the caller.

use vstd::prelude::*;
use crate::text::{
    contains_seq, contains_str, starts_with_seq, starts_with, ends_with_seq, ends_with,
};

verus! {

/// A fatal line mentions the worker's error tag but not the known-benign
/// compiler subsystem that logs spurious errors.
pub open spec fn spec_fatal(l: Seq<char>) -> bool {
    contains_seq(l, "[ERROR]"@) && !contains_seq(l, "triton"@)
}

/// A clock-desync line, a special-cased fatal variant.
pub open spec fn spec_clock_desync(l: Seq<char>) -> bool {
    contains_seq(l, "local time must be within"@) || contains_seq(l, "TIME SYNC ERROR"@)
}

/// The worker finished loading its model blocks.
pub open spec fn spec_success(l: Seq<char>) -> bool {
    contains_seq(l, "✓✓✓ MODEL LOADED SUCCESSFULLY ✓✓✓"@) || (contains_seq(l, "Loaded"@) && contains_seq(
        l,
        "block"@,
    ))
}

/// The worker is reaching the distributed network.
pub open spec fn spec_connecting(l: Seq<char>) -> bool {
    contains_seq(l, "Connecting to"@) || contains_seq(l, "DHT"@)
}

/// The worker announced its blocks to the network.
pub open spec fn spec_announcing(l: Seq<char>) -> bool {
    contains_seq(l, "Announced that blocks"@) && contains_seq(l, "joining"@)
}

/// The worker is loading or measuring model blocks.
pub open spec fn spec_loading(l: Seq<char>) -> bool {
    contains_seq(l, "Loading"@) || contains_seq(l, "Measuring"@)
}

/// The structured signals derived from one stdout line.
pub struct LineSignals {
    pub connecting: bool,
    pub loading: bool,
    pub announcing: bool,
    pub fatal: bool,
    pub clock_desync: bool,
    pub success: bool,
}

/// Test one stdout line against the whole pattern table.
pub fn classify_line(line: &str) -> (s: LineSignals)
    ensures
        s.connecting == spec_connecting(line@),
        s.loading == spec_loading(line@),
        s.announcing == spec_announcing(line@),
        s.fatal == spec_fatal(line@),
        s.clock_desync == spec_clock_desync(line@),
        s.success == spec_success(line@),
{
    LineSignals {
        connecting: contains_str(line, "Connecting to") || contains_str(line, "DHT"),
        loading: contains_str(line, "Loading") || contains_str(line, "Measuring"),
        announcing: contains_str(line, "Announced that blocks") && contains_str(line, "joining"),
        fatal: contains_str(line, "[ERROR]") && !contains_str(line, "triton"),
        clock_desync: contains_str(line, "local time must be within") || contains_str(
            line,
            "TIME SYNC ERROR",
        ),
        success: contains_str(line, "✓✓✓ MODEL LOADED SUCCESSFULLY ✓✓✓") || (contains_str(line, "Loaded")
            && contains_str(line, "block")),
    }
}

/// The progress stages a line can announce, in the order they are emitted.
#[derive(PartialEq, Eq, Structural, Clone, Copy, Debug)]
pub enum ProgressStage {
    Connecting,
    Loading,
    Announcing,
}

/// The stages announced by a line with the given signals, in emission order.
pub open spec fn spec_progress_stages(s: LineSignals) -> Seq<ProgressStage> {
    (if s.connecting {
        seq![ProgressStage::Connecting]
    } else {
        Seq::empty()
    }) + (if s.loading {
        seq![ProgressStage::Loading]
    } else {
        Seq::empty()
    }) + (if s.announcing {
        seq![ProgressStage::Announcing]
    } else {
        Seq::empty()
    })
}

/// List the progress events owed for one line, in emission order.
pub fn progress_stages(s: &LineSignals) -> (r: Vec<ProgressStage>)
    ensures
        r@ =~= spec_progress_stages(*s),
{
    let mut r: Vec<ProgressStage> = Vec::new();
    if s.connecting {
        r.push(ProgressStage::Connecting);
    }
    if s.loading {
        r.push(ProgressStage::Loading);
    }
    if s.announcing {
        r.push(ProgressStage::Announcing);
    }
    r
}

/// The event-bus token for a progress stage.
pub fn stage_token(st: ProgressStage) -> (r: String)
    ensures
        st == ProgressStage::Connecting ==> r@ == "connecting"@,
        st == ProgressStage::Loading ==> r@ == "loading"@,
        st == ProgressStage::Announcing ==> r@ == "announcing"@,
{
    match st {
        ProgressStage::Connecting => String::from_str("connecting"),
        ProgressStage::Loading => String::from_str("loading"),
        ProgressStage::Announcing => String::from_str("announcing"),
    }
}

/// The human message paired with a progress stage.
pub fn stage_message(st: ProgressStage) -> (r: String)
    ensures
        st == ProgressStage::Connecting ==> r@ == "Connecting to Petals network..."@,
        st == ProgressStage::Loading ==> r@ == "Loading model blocks..."@,
        st == ProgressStage::Announcing ==> r@ == "Announcing availability to network..."@,
{
    match st {
        ProgressStage::Connecting => String::from_str("Connecting to Petals network..."),
        ProgressStage::Loading => String::from_str("Loading model blocks..."),
        ProgressStage::Announcing => String::from_str("Announcing availability to network..."),
    }
}

/// Which error event one line owes: the clock-desync remediation takes
/// precedence over the generic fatal path.
#[derive(PartialEq, Eq, Structural, Clone, Copy, Debug)]
pub enum ErrorSignal {
    ClockDesync,
    Fatal,
}

/// Decide the error event for a classified line.
pub fn error_signal(s: &LineSignals) -> (r: Option<ErrorSignal>)
    ensures
        r == (if s.clock_desync {
            Some(ErrorSignal::ClockDesync)
        } else if s.fatal {
            Some(ErrorSignal::Fatal)
        } else {
            Option::<ErrorSignal>::None
        }),
{
    if s.clock_desync {
        Some(ErrorSignal::ClockDesync)
    } else if s.fatal {
        Some(ErrorSignal::Fatal)
    } else {
        None
    }
}

/// The dedicated remediation message for a clock-desync error.
pub fn clock_desync_message() -> (r: String)
    ensures
        r@
            == "TIME SYNC ERROR: Your system clock is out of sync. Please restart the app and try again."@,
{
    String::from_str(
        "TIME SYNC ERROR: Your system clock is out of sync. Please restart the app and try again.",
    )
}

/// The message paired with a worker success signal.
pub fn success_message() -> (r: String)
    ensures
        r@ == "Model loaded successfully"@,
{
    String::from_str("Model loaded successfully")
}

/// The marker that opens an interpreter traceback on stderr.
pub open spec fn spec_trace_begin(l: Seq<char>) -> bool {
    contains_seq(l, "Traceback (most recent call last):"@)
}

/// An unindented exception line that closes a traceback.
pub open spec fn spec_trace_end(l: Seq<char>) -> bool {
    !starts_with_seq(l, "  "@) && !starts_with_seq(l, "\t"@) && (contains_seq(l, "Error:"@)
        || contains_seq(l, "Exception:"@) || contains_seq(l, "Error "@) || ends_with_seq(
        l,
        "Error"@,
    ))
}

/// A single-line import failure outside a traceback.
pub open spec fn spec_import_error(l: Seq<char>) -> bool {
    contains_seq(l, "ImportError"@) || contains_seq(l, "ModuleNotFoundError"@)
}

/// A single-line authentication failure outside a traceback.
pub open spec fn spec_auth_error(l: Seq<char>) -> bool {
    contains_seq(l, "401"@) || contains_seq(l, "Unauthorized"@)
}

/// The structured error events one stderr line can owe.
pub struct StderrOutcome {
    /// A completed traceback, whole, oldest line first.
    pub traceback: Option<Vec<String>>,
    pub import_error: bool,
    pub auth_error: bool,
}

/// Aggregates multi-line tracebacks from the worker's stderr: it buffers
/// lines from a trace-begin marker until an unindented exception line, then
/// hands the whole buffer out as one structured error.
pub struct TracebackAggregator {
    pub in_traceback: bool,
    pub buffer: Vec<String>,
}

impl TracebackAggregator {
    pub fn new() -> (r: TracebackAggregator)
        ensures
            !r.in_traceback,
            r.buffer@.len() == 0,
    {
        TracebackAggregator { in_traceback: false, buffer: Vec::new() }
    }

    /// Feed one stderr line through the aggregator.
    pub fn push_line(&mut self, line: &String) -> (r: StderrOutcome)
        ensures
            spec_trace_begin(line@) ==> final(self).in_traceback && final(self).buffer.deep_view()
                =~= seq![line@] && r.traceback is None,
            (!spec_trace_begin(line@) && old(self).in_traceback && spec_trace_end(line@)) ==> (
            !final(self).in_traceback && final(self).buffer@.len() == 0 && (r.traceback matches Some(
                t,
            ) && t.deep_view() =~= old(self).buffer.deep_view().push(line@))),
            (!spec_trace_begin(line@) && old(self).in_traceback && !spec_trace_end(line@)) ==> (
            final(self).in_traceback && final(self).buffer.deep_view() =~= old(
                self,
            ).buffer.deep_view().push(line@) && r.traceback is None),
            (!spec_trace_begin(line@) && !old(self).in_traceback) ==> (*final(self) == *old(self)
                && r.traceback is None),
            r.import_error == (!final(self).in_traceback && spec_import_error(line@)),
            r.auth_error == (!final(self).in_traceback && !spec_import_error(line@)
                && spec_auth_error(line@)),
    {
        let mut completed: Option<Vec<String>> = None;
        if contains_str(line.as_str(), "Traceback (most recent call last):") {
            self.in_traceback = true;
            self.buffer = Vec::new();
            self.buffer.push(line.clone());
        } else if self.in_traceback {
            self.buffer.push(line.clone());
            let l = line.as_str();
            if !starts_with(l, "  ") && !starts_with(l, "\t") && (contains_str(l, "Error:")
                || contains_str(l, "Exception:") || contains_str(l, "Error ") || ends_with(
                l,
                "Error",
            )) {
                let mut done: Vec<String> = Vec::new();
                core::mem::swap(&mut done, &mut self.buffer);
                completed = Some(done);
                self.in_traceback = false;
            }
        }
        let import_error = !self.in_traceback && (contains_str(line.as_str(), "ImportError")
            || contains_str(line.as_str(), "ModuleNotFoundError"));
        let auth_error = !self.in_traceback && !import_error && (contains_str(line.as_str(), "401")
            || contains_str(line.as_str(), "Unauthorized"));
        StderrOutcome { traceback: completed, import_error, auth_error }
    }

    /// At stream end, hand out a best-effort partial traceback, if one was
    /// still being buffered.  The caller emits it as an incomplete error.
    pub fn finish(&mut self) -> (r: Option<Vec<String>>)
        ensures
            old(self).buffer@.len() > 0 ==> (r matches Some(t) && t.deep_view() =~= old(
                self,
            ).buffer.deep_view()),
            old(self).buffer@.len() == 0 ==> r is None,
            final(self).buffer@.len() == 0,
            !final(self).in_traceback,
    {
        self.in_traceback = false;
        if self.buffer.len() > 0 {
            let mut done: Vec<String> = Vec::new();
            core::mem::swap(&mut done, &mut self.buffer);
            Some(done)
        } else {
            None
        }
    }
}

/// The lines of `v` joined with newlines.
pub open spec fn joined_lines(v: Seq<Seq<char>>) -> Seq<char>
    decreases v.len(),
{
    if v.len() == 0 {
        Seq::empty()
    } else if v.len() == 1 {
        v[0]
    } else {
        joined_lines(v.drop_last()) + seq!['\n'] + v.last()
    }
}

/// Join buffered traceback lines into the single text block that is
/// emitted as one error event.
pub fn join_lines(v: &Vec<String>) -> (r: String)
    ensures
        r@ == joined_lines(v.deep_view()),
{
    let mut out = String::new();
    let mut i: usize = 0;
    while i < v.len()
        invariant
            i <= v@.len(),
            out@ == joined_lines(v.deep_view().subrange(0, i as int)),
        decreases v@.len() - i,
    {
        if i > 0 {
            out.append("\n");
            proof {
                reveal_strlit("\n");
                assert(("\n")@ =~= seq!['\n']);
            }
        }
        out.append(v[i].as_str());
        proof {
            let pre = v.deep_view().subrange(0, i + 1);
            assert(pre.drop_last() =~= v.deep_view().subrange(0, i as int));
            assert(pre.last() == v.deep_view()[i as int]);
        }
        i += 1;
    }
    assert(v.deep_view().subrange(0, v.deep_view().len() as int) =~= v.deep_view());
    out
}

/// The error event carrying a completed traceback.
pub fn traceback_error_message(full: &String) -> (r: String)
    ensures
        r@ == "Python Error on macOS:\n\n"@ + full@
            + "\n\nPlease check if all dependencies are installed correctly."@,
{
    let mut out = String::from_str("Python Error on macOS:\n\n");
    out.append(full.as_str());
    out.append("\n\nPlease check if all dependencies are installed correctly.");
    out
}

/// The error event carrying a partial traceback flushed at stream end.
pub fn incomplete_error_message(full: &String) -> (r: String)
    ensures
        r@ == "Incomplete Error on macOS:\n\n"@ + full@
            + "\n\nThe process may have terminated unexpectedly."@,
{
    let mut out = String::from_str("Incomplete Error on macOS:\n\n");
    out.append(full.as_str());
    out.append("\n\nThe process may have terminated unexpectedly.");
    out
}

/// The remediation message for a recognized import failure.
pub fn import_error_message(line: &String) -> (r: String)
    ensures
        r@ == "Import Error on macOS: "@ + line@
            + "\n\nMissing Python dependencies. Please ensure peft and accelerate are installed:\npip install peft accelerate"@,
{
    let mut out = String::from_str("Import Error on macOS: ");
    out.append(line.as_str());
    out.append(
        "\n\nMissing Python dependencies. Please ensure peft and accelerate are installed:\npip install peft accelerate",
    );
    out
}

/// The remediation message for a recognized authentication failure.
pub fn auth_error_message(line: &String) -> (r: String)
    ensures
        r@ == "Authentication Error: "@ + line@
            + ". This may be due to system time being out of sync. Try restarting the app or manually syncing time in System Preferences > Date & Time."@,
{
    let mut out = String::from_str("Authentication Error: ");
    out.append(line.as_str());
    out.append(
        ". This may be due to system time being out of sync. Try restarting the app or manually syncing time in System Preferences > Date & Time.",
    );
    out
}

/// The tag under which a stderr line enters the shared log buffer.
pub fn stderr_log_line(line: &String) -> (r: String)
    ensures
        r@ == "[STDERR] "@ + line@,
{
    let mut out = String::from_str("[STDERR] ");
    out.append(line.as_str());
    out
}

} // verus!
