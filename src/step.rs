use vstd::prelude::*;

use crate::cache::keys_unique;

verus! {

/// A file-strategy cache location: a namespace and a path inside it.
#[derive(Clone, Debug)]
pub struct CacheLocation(pub String, pub String);

/// What the executor needs to know about one target file.
#[derive(Clone, Debug)]
pub struct FileMeta {
    pub filename: String,
    pub cache: Option<CacheLocation>,
    pub size: Option<u64>,
    /// Pairs of hash algorithm name and expected hex digest.
    pub hashes: Vec<(String, String)>,
}

/// One instruction of an addon's pipeline.
#[derive(Clone, Debug)]
pub enum Step {
    CacheCheck(FileMeta),
    Download { url: String, metadata: FileMeta },
    RemoveFile(FileMeta),
}

/// Two descriptions of a file that agree field by field.
pub open spec fn same_meta(a: FileMeta, b: FileMeta) -> bool {
    &&& a.filename == b.filename
    &&& a.cache == b.cache
    &&& a.size == b.size
    &&& a.hashes@ == b.hashes@
}

impl CacheLocation {
    pub fn duplicate(&self) -> (r: CacheLocation)
        ensures
            r == *self,
    {
        CacheLocation(self.0.clone(), self.1.clone())
    }
}

impl FileMeta {
    /// Each hash algorithm is listed once.
    pub open spec fn well_formed(&self) -> bool {
        keys_unique(self.hashes@)
    }

    /// A description that names only the file.
    pub fn filename(filename: String) -> (r: FileMeta)
        ensures
            r.filename == filename,
            r.cache is None,
            r.size is None,
            r.hashes@.len() == 0,
            r.well_formed(),
    {
        FileMeta { filename, cache: None, size: None, hashes: Vec::new() }
    }

    /// A field-by-field copy.
    pub fn duplicate(&self) -> (r: FileMeta)
        ensures
            same_meta(r, *self),
            self.well_formed() ==> r.well_formed(),
    {
        let cache = match &self.cache {
            Some(loc) => Some(loc.duplicate()),
            None => None,
        };
        let mut hashes: Vec<(String, String)> = Vec::new();
        let mut i: usize = 0;
        while i < self.hashes.len()
            invariant
                i <= self.hashes@.len(),
                hashes@ == self.hashes@.take(i as int),
            decreases self.hashes@.len() - i,
        {
            let (algo, digest) = (self.hashes[i].0.clone(), self.hashes[i].1.clone());
            hashes.push((algo, digest));
            proof {
                assert(self.hashes@.take(i as int + 1) == self.hashes@.take(i as int).push(
                    self.hashes@[i as int],
                ));
            }
            i = i + 1;
        }
        proof {
            assert(self.hashes@.take(i as int) == self.hashes@);
        }
        FileMeta { filename: self.filename.clone(), cache, size: self.size, hashes }
    }
}

/// What the caller measured of fetched bytes: their length and the digests
/// it computed, as pairs of algorithm name and hex digest.
#[derive(Clone, Debug)]
pub struct FetchReport {
    pub size: u64,
    pub digests: Vec<(String, String)>,
}

/// The report holds the declared digest for the given algorithm.
pub open spec fn has_digest(report: FetchReport, algo: String, digest: String) -> bool {
    exists|j: int|
        0 <= j < report.digests@.len() && (#[trigger] report.digests@[j]).0@ == algo@
            && report.digests@[j].1@ == digest@
}

/// The fetched bytes agree with the declared size, if any, and with every declared digest.
pub open spec fn verified(meta: FileMeta, report: FetchReport) -> bool {
    &&& (meta.size matches Some(n) ==> report.size == n)
    &&& forall|i: int|
        0 <= i < meta.hashes@.len() ==> has_digest(
            report,
            #[trigger] meta.hashes@[i].0,
            meta.hashes@[i].1,
        )
}

/// Whether the report holds `digest` for `algo`.
fn report_has(report: &FetchReport, algo: &String, digest: &String) -> (r: bool)
    ensures
        r == has_digest(*report, *algo, *digest),
{
    let mut j: usize = 0;
    while j < report.digests.len()
        invariant
            j <= report.digests@.len(),
            forall|k: int|
                0 <= k < j ==> !((#[trigger] report.digests@[k]).0@ == algo@
                    && report.digests@[k].1@ == digest@),
        decreases report.digests@.len() - j,
    {
        if report.digests[j].0 == *algo && report.digests[j].1 == *digest {
            return true;
        }
        j = j + 1;
    }
    false
}

/// Checks fetched bytes, as the caller measured them, against a file's description.
pub fn verify_download(meta: &FileMeta, report: &FetchReport) -> (r: bool)
    ensures
        r == verified(*meta, *report),
{
    if let Some(n) = meta.size {
        if report.size != n {
            return false;
        }
    }
    let mut i: usize = 0;
    while i < meta.hashes.len()
        invariant
            i <= meta.hashes@.len(),
            meta.size matches Some(n) ==> report.size == n,
            forall|k: int|
                0 <= k < i ==> has_digest(*report, #[trigger] meta.hashes@[k].0, meta.hashes@[k].1),
        decreases meta.hashes@.len() - i,
    {
        if !report_has(report, &meta.hashes[i].0, &meta.hashes[i].1) {
            return false;
        }
        i = i + 1;
    }
    true
}

/// Why a pipeline failed.
#[derive(Clone, Copy, Debug, PartialEq, Eq, Structural)]
pub enum StepError {
    /// Fetched bytes disagree with the declared size or a declared digest.
    IntegrityMismatch,
    /// The network fetch failed.
    Transport,
    /// Writing, moving or removing a file failed.
    Storage,
}

/// Where an addon's pipeline stands.
#[derive(Clone, Copy, Debug, PartialEq, Eq, Structural)]
pub enum Phase {
    /// Working on the step at the current position.
    Running,
    /// The download at the current position was fetched into a temporary
    /// place and verified; it waits to be moved into its final place.
    Committing,
    /// A cache check found the file present: later steps are skipped.
    Satisfied,
    Installed,
    Removed,
    /// Every step ran without reaching another terminal phase.
    Finished,
    Failed(StepError),
}

/// What the caller reports after carrying out an action.
#[derive(Clone, Debug)]
pub enum Event {
    /// Whether the cache check found the file present.
    CacheAnswer(bool),
    /// The bytes were fetched into a temporary place and measured.
    Fetched(FetchReport),
    /// The verified file was moved into place and its cache record written.
    Committed,
    /// The file is gone, or was never there.
    Removed,
    /// The action failed.
    Error(StepError),
}

/// What the caller should do next; each names the position of its step.
#[derive(Clone, Copy, Debug, PartialEq, Eq, Structural)]
pub enum Action {
    /// Ask the cache whether the step's file is already present.
    CheckCache(usize),
    /// Fetch the step's url into a temporary place and measure it.
    Fetch(usize),
    /// Move the fetched file into place and write its cache record.
    Commit(usize),
    /// Delete the step's file if it is there.
    Remove(usize),
    /// Nothing is left to do.
    Stop,
}

/// The run of one addon's steps, in order.
#[derive(Clone, Copy, Debug, PartialEq, Eq, Structural)]
pub struct Executor {
    pub position: usize,
    pub phase: Phase,
}

/// The phase ends the pipeline.
pub open spec fn is_terminal(phase: Phase) -> bool {
    !(phase is Running) && !(phase is Committing)
}

/// The executor is consistent with its steps.
pub open spec fn well_formed(ex: Executor, steps: Seq<Step>) -> bool {
    &&& ex.position <= steps.len()
    &&& !is_terminal(ex.phase) ==> ex.position < steps.len()
    &&& ex.phase is Committing ==> steps[ex.position as int] is Download
}

/// The action that the executor asks for.
pub open spec fn action_of(ex: Executor, steps: Seq<Step>) -> Action {
    match ex.phase {
        Phase::Running => match steps[ex.position as int] {
            Step::CacheCheck(_) => Action::CheckCache(ex.position),
            Step::Download { .. } => Action::Fetch(ex.position),
            Step::RemoveFile(_) => Action::Remove(ex.position),
        },
        Phase::Committing => Action::Commit(ex.position),
        _ => Action::Stop,
    }
}

/// Moving on past the step at the current position.
pub open spec fn moved_on(ex: Executor, steps: Seq<Step>) -> Executor {
    if ex.position + 1 < steps.len() {
        Executor { position: (ex.position + 1) as usize, phase: Phase::Running }
    } else {
        Executor { position: (ex.position + 1) as usize, phase: Phase::Finished }
    }
}

/// The executor after the caller reports `event`; an event that does not
/// answer the pending action changes nothing.
pub open spec fn advanced(ex: Executor, steps: Seq<Step>, event: Event) -> Executor {
    match ex.phase {
        Phase::Running => match (steps[ex.position as int], event) {
            (Step::CacheCheck(_), Event::CacheAnswer(true)) => Executor {
                phase: Phase::Satisfied,
                ..ex
            },
            (Step::CacheCheck(_), Event::CacheAnswer(false)) => moved_on(ex, steps),
            (Step::Download { metadata, .. }, Event::Fetched(report)) => if verified(
                metadata,
                report,
            ) {
                Executor { phase: Phase::Committing, ..ex }
            } else {
                Executor { phase: Phase::Failed(StepError::IntegrityMismatch), ..ex }
            },
            (Step::RemoveFile(_), Event::Removed) => Executor { phase: Phase::Removed, ..ex },
            (_, Event::Error(e)) => Executor { phase: Phase::Failed(e), ..ex },
            _ => ex,
        },
        Phase::Committing => match event {
            Event::Committed => Executor { phase: Phase::Installed, ..ex },
            Event::Error(e) => Executor { phase: Phase::Failed(e), ..ex },
            _ => ex,
        },
        _ => ex,
    }
}

impl Executor {
    /// A run that starts at the first step.
    pub fn new(steps: &Vec<Step>) -> (r: Executor)
        ensures
            well_formed(r, steps@),
            r.position == 0,
            steps@.len() > 0 ==> r.phase == Phase::Running,
            steps@.len() == 0 ==> r.phase == Phase::Finished,
    {
        if steps.len() > 0 {
            Executor { position: 0, phase: Phase::Running }
        } else {
            Executor { position: 0, phase: Phase::Finished }
        }
    }

    /// The run has ended.
    pub fn is_done(&self) -> (r: bool)
        ensures
            r == is_terminal(self.phase),
    {
        !matches!(self.phase, Phase::Running | Phase::Committing)
    }

    /// What the caller should do next.
    pub fn next_action(&self, steps: &Vec<Step>) -> (r: Action)
        requires
            well_formed(*self, steps@),
        ensures
            r == action_of(*self, steps@),
    {
        match self.phase {
            Phase::Running => match &steps[self.position] {
                Step::CacheCheck(_) => Action::CheckCache(self.position),
                Step::Download { .. } => Action::Fetch(self.position),
                Step::RemoveFile(_) => Action::Remove(self.position),
            },
            Phase::Committing => Action::Commit(self.position),
            _ => Action::Stop,
        }
    }

    fn move_on(&mut self, steps: &Vec<Step>)
        requires
            well_formed(*old(self), steps@),
            !is_terminal(old(self).phase),
        ensures
            *final(self) == moved_on(*old(self), steps@),
    {
        let n = steps.len();
        let next = self.position + 1;
        if next < n {
            *self = Executor { position: next, phase: Phase::Running };
        } else {
            *self = Executor { position: next, phase: Phase::Finished };
        }
    }

    /// Takes in what the caller reports after carrying out the pending action.
    pub fn advance(&mut self, steps: &Vec<Step>, event: Event)
        requires
            well_formed(*old(self), steps@),
        ensures
            well_formed(*final(self), steps@),
            *final(self) == advanced(*old(self), steps@, event),
    {
        match self.phase {
            Phase::Running => {
                match (&steps[self.position], &event) {
                    (Step::CacheCheck(_), Event::CacheAnswer(present)) => {
                        if *present {
                            self.phase = Phase::Satisfied;
                        } else {
                            self.move_on(steps);
                        }
                    },
                    (Step::Download { metadata, .. }, Event::Fetched(report)) => {
                        if verify_download(metadata, report) {
                            self.phase = Phase::Committing;
                        } else {
                            self.phase = Phase::Failed(StepError::IntegrityMismatch);
                        }
                    },
                    (Step::RemoveFile(_), Event::Removed) => {
                        self.phase = Phase::Removed;
                    },
                    (_, Event::Error(e)) => {
                        self.phase = Phase::Failed(*e);
                    },
                    _ => {},
                }
            },
            Phase::Committing => match event {
                Event::Committed => {
                    self.phase = Phase::Installed;
                },
                Event::Error(e) => {
                    self.phase = Phase::Failed(e);
                },
                _ => {},
            },
            _ => {},
        }
    }
}

/// Once a run has ended, no report changes it and it asks for nothing more.
pub proof fn lemma_terminal_is_stable(ex: Executor, steps: Seq<Step>, event: Event)
    requires
        is_terminal(ex.phase),
    ensures
        advanced(ex, steps, event) == ex,
        action_of(ex, steps) == Action::Stop,
{
}

/// When the cache check of a `[CacheCheck, Download]` pipeline finds the file
/// present, the run ends and the download is never asked for, whatever is
/// reported afterwards.
pub proof fn lemma_cache_hit_skips_download(steps: Seq<Step>, events: Seq<Event>)
    requires
        steps.len() == 2,
        steps[0] is CacheCheck,
        steps[1] is Download,
    ensures
        action_of(Executor { position: 0, phase: Phase::Running }, steps) == Action::CheckCache(0),
        ({
            let hit = advanced(
                Executor { position: 0, phase: Phase::Running },
                steps,
                Event::CacheAnswer(true),
            );
            &&& hit.phase == Phase::Satisfied
            &&& run_events(hit, steps, events) == hit
            &&& action_of(run_events(hit, steps, events), steps) == Action::Stop
        }),
{
    let hit = advanced(
        Executor { position: 0, phase: Phase::Running },
        steps,
        Event::CacheAnswer(true),
    );
    lemma_run_from_terminal(hit, steps, events);
}

/// The executor after each of `events` in turn.
pub open spec fn run_events(ex: Executor, steps: Seq<Step>, events: Seq<Event>) -> Executor
    decreases events.len(),
{
    if events.len() == 0 {
        ex
    } else {
        run_events(advanced(ex, steps, events[0]), steps, events.skip(1))
    }
}

/// A run that has ended stays where it is, whatever is reported.
pub proof fn lemma_run_from_terminal(ex: Executor, steps: Seq<Step>, events: Seq<Event>)
    requires
        is_terminal(ex.phase),
    ensures
        run_events(ex, steps, events) == ex,
    decreases events.len(),
{
    if events.len() > 0 {
        lemma_run_from_terminal(ex, steps, events.skip(1));
    }
}

/// A download whose fetched bytes miss a declared digest fails with an
/// integrity error, is never moved into its final place, and the run ends.
pub proof fn lemma_hash_mismatch_rejected(
    ex: Executor,
    steps: Seq<Step>,
    report: FetchReport,
    events: Seq<Event>,
    i: int,
)
    requires
        well_formed(ex, steps),
        ex.phase == Phase::Running,
        steps[ex.position as int] is Download,
        0 <= i < steps[ex.position as int]->Download_metadata.hashes@.len(),
        !has_digest(
            report,
            steps[ex.position as int]->Download_metadata.hashes@[i].0,
            steps[ex.position as int]->Download_metadata.hashes@[i].1,
        ),
    ensures
        ({
            let after = advanced(ex, steps, Event::Fetched(report));
            &&& after.phase == Phase::Failed(StepError::IntegrityMismatch)
            &&& run_events(after, steps, events) == after
            &&& forall|k: usize| action_of(run_events(after, steps, events), steps) != Action::Commit(k)
        }),
{
    let after = advanced(ex, steps, Event::Fetched(report));
    lemma_run_from_terminal(after, steps, events);
}

} // verus!
