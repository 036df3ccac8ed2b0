use vstd::prelude::*;

verus! {

/// An external program and its arguments, to be run as one process.
#[derive(Debug)]
pub struct CommandLine {
    pub program: String,
    pub args: Vec<String>,
}

/// What a finished process reported.
#[derive(Debug)]
pub struct ProcessOutput {
    pub success: bool,
    pub stdout: Vec<u8>,
    pub stderr: Vec<u8>,
}

/// How an attempt to run a command ended.
#[derive(Debug)]
pub enum ProcessOutcome {
    /// The process ran to its end.
    Finished(ProcessOutput),
    /// The process could not be started; the reason.
    SpawnFailed(String),
    /// The process did not end within its time limit and was abandoned.
    TimedOut,
}

/// The arguments of a command line as character sequences.
pub open spec fn arg_views(args: Seq<String>) -> Seq<Seq<char>> {
    args.map_values(|a: String| a@)
}

/// The command ran and exited with success.
pub open spec fn exited_ok(o: ProcessOutcome) -> bool {
    match o {
        ProcessOutcome::Finished(out) => out.success,
        _ => false,
    }
}

/// The text that explains a failed run: the error stream of a process that
/// exited with failure, or the reason it could not be started.
pub open spec fn failure_text(o: ProcessOutcome) -> Seq<char> {
    match o {
        ProcessOutcome::Finished(out) => utf8_lossy(out.stderr@),
        ProcessOutcome::SpawnFailed(reason) => reason@,
        ProcessOutcome::TimedOut => Seq::empty(),
    }
}

/// The text that `String::from_utf8_lossy` makes of some bytes.
pub uninterp spec fn utf8_lossy(b: Seq<u8>) -> Seq<char>;

/// Relies on `String::from_utf8_lossy`: decodes the bytes, putting U+FFFD in place
/// of each invalid sequence; the result depends on the bytes alone.
#[verifier::external_body]
pub(crate) fn lossy_text(b: &[u8]) -> (r: String)
    ensures
        r@ == utf8_lossy(b@),
{
    String::from_utf8_lossy(b).into_owned()
}

/// The explanation of a run that did not succeed, or None after a successful exit.
/// A timed-out run is not covered: callers report it on its own.
pub(crate) fn failure_of(o: &ProcessOutcome) -> (r: Option<String>)
    requires
        !(o is TimedOut),
    ensures
        match r {
            Some(t) => !exited_ok(*o) && t@ == failure_text(*o),
            None => exited_ok(*o),
        },
{
    match o {
        ProcessOutcome::Finished(out) => {
            if out.success {
                None
            } else {
                Some(lossy_text(out.stderr.as_slice()))
            }
        },
        ProcessOutcome::SpawnFailed(reason) => Some(reason.clone()),
        ProcessOutcome::TimedOut => None,
    }
}

} // verus!
