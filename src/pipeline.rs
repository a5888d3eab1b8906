//! The install pipeline as a state machine: the caller performs each stage's
//! work and reports back; the pipeline decides the next stage, the overall
//! progress and the failure message.

use vstd::prelude::*;
use vstd::string::*;
use crate::progress::{scale_into_slot, slot_ppm, FULL};


verus! {

/// The stages of an install, in the order they run.
#[derive(Clone, Copy, PartialEq, Eq, Structural, Debug)]
pub enum Stage {
    FetchConfig,
    AllocateInstanceDir,
    DownloadPackage,
    ExtractPackage,
    WriteBootstrap,
    PatchConfig,
    ResolveIconMeta,
    DownloadIcon,
    ConvertIcon,
    PersistConfig,
    CreateShortcut,
    LaunchExternal,
    Done,
}

/// The stage that follows `s`; `Done` is final.
pub open spec fn next_stage(s: Stage) -> Stage {
    match s {
        Stage::FetchConfig => Stage::AllocateInstanceDir,
        Stage::AllocateInstanceDir => Stage::DownloadPackage,
        Stage::DownloadPackage => Stage::ExtractPackage,
        Stage::ExtractPackage => Stage::WriteBootstrap,
        Stage::WriteBootstrap => Stage::PatchConfig,
        Stage::PatchConfig => Stage::ResolveIconMeta,
        Stage::ResolveIconMeta => Stage::DownloadIcon,
        Stage::DownloadIcon => Stage::ConvertIcon,
        Stage::ConvertIcon => Stage::PersistConfig,
        Stage::PersistConfig => Stage::CreateShortcut,
        Stage::CreateShortcut => Stage::LaunchExternal,
        Stage::LaunchExternal => Stage::Done,
        Stage::Done => Stage::Done,
    }
}

/// The progress slot of a stage that streams its own progress: the package
/// download takes the first third, extraction the second, the icon download
/// the last.
pub open spec fn stream_slot(s: Stage) -> Option<nat> {
    match s {
        Stage::DownloadPackage => Some(0),
        Stage::ExtractPackage => Some(1),
        Stage::DownloadIcon => Some(2),
        _ => None,
    }
}

/// The words that name stage `s` in a failure message.
pub open spec fn failure_prefix(s: Stage) -> Seq<char> {
    match s {
        Stage::FetchConfig => "Failed to get modpack config"@,
        Stage::AllocateInstanceDir => "Failed to find a unique instance directory name"@,
        Stage::DownloadPackage => "Error downloading modpack"@,
        Stage::ExtractPackage => "Error extracting modpack"@,
        Stage::WriteBootstrap => "Failed to write packwiz bootstrap jar"@,
        Stage::PatchConfig => "Failed to load instance config"@,
        Stage::ResolveIconMeta => "Failed to get file extension from logo URL"@,
        Stage::DownloadIcon => "Error downloading modpack icon"@,
        Stage::ConvertIcon => "Failed to convert icon image"@,
        Stage::PersistConfig => "Failed to save instance config"@,
        Stage::CreateShortcut => "Failed to create shortcut"@,
        Stage::LaunchExternal => "Failed to launch Prism Launcher"@,
        Stage::Done => "Install already finished"@,
    }
}

fn failure_prefix_str(s: Stage) -> (r: &'static str)
    ensures
        r@ == failure_prefix(s),
{
    match s {
        Stage::FetchConfig => "Failed to get modpack config",
        Stage::AllocateInstanceDir => "Failed to find a unique instance directory name",
        Stage::DownloadPackage => "Error downloading modpack",
        Stage::ExtractPackage => "Error extracting modpack",
        Stage::WriteBootstrap => "Failed to write packwiz bootstrap jar",
        Stage::PatchConfig => "Failed to load instance config",
        Stage::ResolveIconMeta => "Failed to get file extension from logo URL",
        Stage::DownloadIcon => "Error downloading modpack icon",
        Stage::ConvertIcon => "Failed to convert icon image",
        Stage::PersistConfig => "Failed to save instance config",
        Stage::CreateShortcut => "Failed to create shortcut",
        Stage::LaunchExternal => "Failed to launch Prism Launcher",
        Stage::Done => "Install already finished",
    }
}

/// The message of the first event of a run.
pub open spec fn start_message() -> Seq<char> {
    "Importing instance"@
}

/// The message of the last event of a successful run.
pub open spec fn done_message() -> Seq<char> {
    "Done"@
}

/// One progress report: overall progress in parts per million, and a message.
pub struct ProgressEvent {
    pub ppm: u32,
    pub message: String,
}

/// Every element is at most every later one.
pub open spec fn non_decreasing(h: Seq<nat>) -> bool {
    forall|i: int, j: int| 0 <= i <= j < h.len() ==> h[i] <= h[j]
}

/// What a pipeline is, seen from outside.
pub struct PipelineState {
    pub stage: Stage,
    pub failed: bool,
    /// The overall progress of every event emitted so far, in order.
    pub history: Seq<nat>,
}

/// A run of the install pipeline.
pub struct InstallPipeline {
    stage: Stage,
    failed: bool,
    last: u32,
    history: Ghost<Seq<nat>>,
}

impl View for InstallPipeline {
    type V = PipelineState;

    closed spec fn view(&self) -> PipelineState {
        PipelineState { stage: self.stage, failed: self.failed, history: self.history@ }
    }
}

impl InstallPipeline {
    /// Events have been emitted, in non-decreasing order, and a finished run
    /// ends at `FULL`.
    pub closed spec fn wf(&self) -> bool {
        &&& self.history@.len() > 0
        &&& self.history@.last() == self.last as nat
        &&& self.last <= FULL
        &&& non_decreasing(self.history@)
        &&& (self.stage == Stage::Done ==> self.last == FULL)
    }

    /// Starts a run at `FetchConfig`, with its first event: no progress yet.
    pub fn new() -> (r: (InstallPipeline, ProgressEvent))
        ensures
            r.0.wf(),
            r.0@.stage == Stage::FetchConfig,
            !r.0@.failed,
            r.0@.history == seq![0nat],
            r.1.ppm == 0,
            r.1.message@ == start_message(),
    {
        let ghost first = seq![0nat];
        let p = InstallPipeline {
            stage: Stage::FetchConfig,
            failed: false,
            last: 0,
            history: Ghost(first),
        };
        (p, ProgressEvent { ppm: 0, message: String::from_str("Importing instance") })
    }

    pub fn stage(&self) -> (r: Stage)
        ensures
            r == self@.stage,
    {
        self.stage
    }

    pub fn is_failed(&self) -> (r: bool)
        ensures
            r == self@.failed,
    {
        self.failed
    }

    /// The overall progress of the latest event.
    pub fn last_ppm(&self) -> (r: u32)
        requires
            self.wf(),
        ensures
            r == self@.history.last(),
    {
        self.last
    }

    /// Reports progress `local` (parts per million of the current stage's own
    /// work) of a streaming stage. The event carries that progress remapped
    /// into the stage's third of the overall range, and never less than the
    /// previous event.
    pub fn report(&mut self, local: u32, message: String) -> (r: ProgressEvent)
        requires
            old(self).wf(),
            !old(self)@.failed,
            stream_slot(old(self)@.stage) is Some,
            local <= FULL,
        ensures
            final(self).wf(),
            final(self)@.stage == old(self)@.stage,
            !final(self)@.failed,
            r.ppm as nat == if slot_ppm(stream_slot(old(self)@.stage)->0, local as nat)
                < old(self)@.history.last() {
                old(self)@.history.last()
            } else {
                slot_ppm(stream_slot(old(self)@.stage)->0, local as nat)
            },
            r.message == message,
            final(self)@.history == old(self)@.history.push(r.ppm as nat),
    {
        let slot: u32 = match self.stage {
            Stage::DownloadPackage => 0,
            Stage::ExtractPackage => 1,
            _ => 2,
        };
        let scaled = scale_into_slot(slot, local);
        let ppm = if scaled < self.last { self.last } else { scaled };
        proof {
            let h = self.history@;
            let h2 = h.push(ppm as nat);
            assert forall|i: int, j: int| 0 <= i <= j < h2.len() implies h2[i] <= h2[j] by {
                if j == h.len() {
                    if i < j {
                        assert(h[i] <= h[h.len() - 1]);
                    }
                } else {
                    assert(h[i] <= h[j]);
                }
            }
        }
        self.last = ppm;
        self.history = Ghost(self.history@.push(ppm as nat));
        ProgressEvent { ppm, message }
    }

    /// Records that the current stage finished its work and moves to the next.
    /// Finishing the last stage emits the final event at `FULL`.
    pub fn complete_stage(&mut self) -> (r: Option<ProgressEvent>)
        requires
            old(self).wf(),
            !old(self)@.failed,
            old(self)@.stage != Stage::Done,
        ensures
            final(self).wf(),
            final(self)@.stage == next_stage(old(self)@.stage),
            !final(self)@.failed,
            next_stage(old(self)@.stage) == Stage::Done ==> {
                &&& r is Some
                &&& r->0.ppm == FULL
                &&& r->0.message@ == done_message()
                &&& final(self)@.history == old(self)@.history.push(FULL as nat)
            },
            next_stage(old(self)@.stage) != Stage::Done ==> {
                &&& r is None
                &&& final(self)@.history == old(self)@.history
            },
    {
        let next = match self.stage {
            Stage::FetchConfig => Stage::AllocateInstanceDir,
            Stage::AllocateInstanceDir => Stage::DownloadPackage,
            Stage::DownloadPackage => Stage::ExtractPackage,
            Stage::ExtractPackage => Stage::WriteBootstrap,
            Stage::WriteBootstrap => Stage::PatchConfig,
            Stage::PatchConfig => Stage::ResolveIconMeta,
            Stage::ResolveIconMeta => Stage::DownloadIcon,
            Stage::DownloadIcon => Stage::ConvertIcon,
            Stage::ConvertIcon => Stage::PersistConfig,
            Stage::PersistConfig => Stage::CreateShortcut,
            Stage::CreateShortcut => Stage::LaunchExternal,
            _ => Stage::Done,
        };
        if next == Stage::Done {
            proof {
                let h = self.history@;
                let h2 = h.push(FULL as nat);
                assert forall|i: int, j: int| 0 <= i <= j < h2.len() implies h2[i] <= h2[j] by {
                    if j < h.len() {
                        assert(h[i] <= h[j]);
                    } else if i < j {
                        assert(h[i] <= h[h.len() - 1]);
                    }
                }
            }
            self.stage = next;
            self.last = FULL;
            self.history = Ghost(self.history@.push(FULL as nat));
            Some(ProgressEvent { ppm: FULL, message: String::from_str("Done") })
        } else {
            self.stage = next;
            None
        }
    }

    /// Ends the run at the current stage. The message names the stage and
    /// then gives `detail`.
    pub fn fail(&mut self, detail: &str) -> (r: String)
        requires
            old(self).wf(),
            !old(self)@.failed,
        ensures
            final(self).wf(),
            final(self)@.failed,
            final(self)@.stage == old(self)@.stage,
            final(self)@.history == old(self)@.history,
            r@ == failure_prefix(old(self)@.stage) + ": "@ + detail@,
    {
        self.failed = true;
        let mut msg = String::from_str(failure_prefix_str(self.stage));
        msg.append(": ");
        msg.append(detail);
        msg
    }
}

/// Over any run, successful or not, the emitted progress never decreases;
/// a run that reached `Done` has emitted exactly `FULL` last.
pub proof fn lemma_progress_monotone(p: &InstallPipeline)
    requires
        p.wf(),
    ensures
        non_decreasing(p@.history),
        p@.history.len() > 0,
        p@.stage == Stage::Done ==> p@.history.last() == FULL as nat,
{
}

} // verus!
