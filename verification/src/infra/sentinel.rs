//! The sentinel file: as long as it exists, the engine runs.
use vstd::prelude::*;

use crate::text::owned;

verus! {

/// How often the file is looked for, in seconds.
pub const CHECK_INTERVAL_SECS: u64 = 5;

/// The name of the file.
pub const SENTINEL_FILENAME: &'static str = "sentinel";

/// The directory of the file.
pub const BYEDPI_DIR: &'static str = "ByeDPI";

/// What the file holds.
pub const SENTINEL_CONTENT: &'static str = "running";

/// The sentinel, as far as it decides.
#[derive(Debug)]
pub struct Sentinel {
    path: String,
    running: bool,
    check_interval_secs: u64,
}

/// What stopping asks for.
#[derive(Debug, Clone, Copy, PartialEq, Eq, Structural)]
pub enum StopStep {
    /// Nothing: it had stopped.
    Nothing,
    /// The file is removed.
    RemoveFile,
    /// There is no file to remove.
    NoFile,
}

/// The contents of a path's parts.
pub open spec fn parts_of(v: Seq<String>) -> Seq<Seq<char>> {
    crate::text::views(v)
}

/// The parts of the path of the file: under the machine's data where there is
/// such a place, else under the user's, else in the working directory.
pub fn determine_path(program_data: Option<&str>, app_data: Option<&str>) -> (r: Vec<String>)
    ensures
        parts_of(r@) == (match (program_data, app_data) {
            (Some(p), _) => seq![p@, BYEDPI_DIR@, SENTINEL_FILENAME@],
            (None, Some(a)) => seq![a@, BYEDPI_DIR@, SENTINEL_FILENAME@],
            (None, None) => seq![SENTINEL_FILENAME@],
        }),
{
    let mut r: Vec<String> = Vec::new();
    match program_data {
        Some(p) => {
            r.push(owned(p));
            r.push(owned(BYEDPI_DIR));
        },
        None => {
            if let Some(a) = app_data {
                r.push(owned(a));
                r.push(owned(BYEDPI_DIR));
            }
        },
    }
    r.push(owned(SENTINEL_FILENAME));
    assert(parts_of(r@) =~= (match (program_data, app_data) {
        (Some(p), _) => seq![p@, BYEDPI_DIR@, SENTINEL_FILENAME@],
        (None, Some(a)) => seq![a@, BYEDPI_DIR@, SENTINEL_FILENAME@],
        (None, None) => seq![SENTINEL_FILENAME@],
    }));
    r
}

impl Sentinel {
    /// Where the file is.
    pub closed spec fn location(&self) -> Seq<char> {
        self.path@
    }

    /// Whether the engine runs.
    pub closed spec fn runs(&self) -> bool {
        self.running
    }

    /// How often the file is looked for, in seconds.
    pub closed spec fn interval(&self) -> u64 {
        self.check_interval_secs
    }

    /// The sentinel of a running engine.
    pub fn with_path(path: String) -> (r: Sentinel)
        ensures
            r.location() == path@,
            r.runs(),
            r.interval() == CHECK_INTERVAL_SECS,
    {
        Sentinel { path, running: true, check_interval_secs: CHECK_INTERVAL_SECS }
    }

    /// Where the file is.
    pub fn path(&self) -> (r: &str)
        ensures
            r@ == self.location(),
    {
        self.path.as_str()
    }

    /// How often the file is looked for, in seconds.
    pub fn check_interval_secs(&self) -> (r: u64)
        ensures
            r == self.interval(),
    {
        self.check_interval_secs
    }

    /// Whether the engine runs.
    pub fn is_running(&self) -> (r: bool)
        ensures
            r == self.runs(),
    {
        self.running
    }

    /// Looks for the file: where it is gone, the engine stops. Says whether to
    /// look again.
    pub fn monitor_step(&mut self, file_exists: bool) -> (r: bool)
        ensures
            final(self).runs() == (old(self).runs() && file_exists),
            r == final(self).runs(),
            final(self).location() == old(self).location(),
            final(self).interval() == old(self).interval(),
    {
        if self.running && !file_exists {
            self.running = false;
        }
        self.running
    }

    /// Stops the engine, and says what becomes of the file. Stopping twice
    /// does no more than stopping once.
    pub fn stop(&mut self, file_exists: bool) -> (r: StopStep)
        ensures
            !final(self).runs(),
            final(self).location() == old(self).location(),
            final(self).interval() == old(self).interval(),
            r == (if !old(self).runs() {
                StopStep::Nothing
            } else if file_exists {
                StopStep::RemoveFile
            } else {
                StopStep::NoFile
            }),
    {
        if !self.running {
            return StopStep::Nothing;
        }
        self.running = false;
        if file_exists {
            StopStep::RemoveFile
        } else {
            StopStep::NoFile
        }
    }

    /// Stops the engine and leaves the file.
    pub fn stop_soft(&mut self)
        ensures
            !final(self).runs(),
            final(self).location() == old(self).location(),
            final(self).interval() == old(self).interval(),
    {
        self.running = false;
    }
}

/// Whether an engine that looked for the file some times runs: only as long as
/// the file was there each time.
pub open spec fn runs_after(running: bool, seen: Seq<bool>) -> bool
    decreases seen.len(),
{
    if seen.len() == 0 {
        running
    } else {
        runs_after(running, seen.drop_last()) && seen.last()
    }
}

/// Once the file was gone, the engine never runs again, whether or not the
/// file comes back.
pub proof fn removal_is_final(running: bool, seen: Seq<bool>, i: int)
    requires
        0 <= i < seen.len(),
        !seen[i],
    ensures
        !runs_after(running, seen),
    decreases seen.len(),
{
    if i < seen.len() - 1 {
        removal_is_final(running, seen.drop_last(), i);
    }
}

/// An engine runs exactly where it ran at first and the file was there each time.
pub proof fn engines_run_while_the_file_is_there(running: bool, seen: Seq<bool>)
    ensures
        runs_after(running, seen) <==> running && forall|i: int|
            0 <= i < seen.len() ==> #[trigger] seen[i],
    decreases seen.len(),
{
    if seen.len() > 0 {
        let t = seen.drop_last();
        engines_run_while_the_file_is_there(running, t);
        if forall|i: int| 0 <= i < t.len() ==> #[trigger] t[i] {
            assert forall|i: int| 0 <= i < seen.len() - 1 implies #[trigger] seen[i] by {
                assert(t[i]);
            }
        }
        if forall|i: int| 0 <= i < seen.len() ==> #[trigger] seen[i] {
            assert forall|i: int| 0 <= i < t.len() implies #[trigger] t[i] by {
                assert(seen[i]);
            }
        }
    }
}

} // verus!
