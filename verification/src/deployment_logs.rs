//! Deployment logs: one file per phase, at most one pump writing a
//! deployment's log at a time, and a run log that rotates at a byte cap.

use vstd::prelude::*;

use crate::text::same_text;

verus! {

/// The phase a log belongs to.
#[derive(Clone, Copy, PartialEq, Eq, Debug, Structural)]
pub enum LogKind {
    Clone,
    Install,
    Build,
    Run,
}

/// The file each phase logs to.
pub open spec fn log_file_spec(kind: LogKind) -> Seq<char> {
    match kind {
        LogKind::Clone => "clone.log"@,
        LogKind::Install => "install.log"@,
        LogKind::Build => "build.log"@,
        LogKind::Run => "run.log"@,
    }
}

impl LogKind {
    /// The file this phase logs to.
    pub fn file_name(self) -> (r: &'static str)
        ensures
            r@ == log_file_spec(self),
    {
        match self {
            LogKind::Clone => "clone.log",
            LogKind::Install => "install.log",
            LogKind::Build => "build.log",
            LogKind::Run => "run.log",
        }
    }
}

/// How many chunks a live-tail channel buffers.
pub const LOG_BROADCAST_CAPACITY: usize = 256;

/// Byte cap, not a line count - cheaper to check than scanning for lines.
pub const RUN_LOG_ROTATE_BYTES: u64 = 1_048_576;

/// Name of the rotated run log.
pub const ROTATED_RUN_LOG: &'static str = "run.log.1";

/// The files a phase's backlog is read from, oldest first: the rotated run
/// log before the current one; a missing file reads as empty.
pub fn backlog_files(kind: LogKind) -> (r: Vec<&'static str>)
    ensures
        kind == LogKind::Run ==> r@.len() == 2 && r@[0]@ == ROTATED_RUN_LOG@ && r@[1]@
            == log_file_spec(kind),
        kind != LogKind::Run ==> r@.len() == 1 && r@[0]@ == log_file_spec(kind),
{
    let mut files: Vec<&'static str> = Vec::new();
    if kind == LogKind::Run {
        files.push(ROTATED_RUN_LOG);
    }
    files.push(kind.file_name());
    files
}

/// How far along a deployment a phase comes: clone, then install, then
/// build, then run.
pub open spec fn phase_rank(kind: LogKind) -> int {
    match kind {
        LogKind::Clone => 0,
        LogKind::Install => 1,
        LogKind::Build => 2,
        LogKind::Run => 3,
    }
}

/// The furthest-progressed phase among those whose log is on disk.
pub open spec fn terminal_phase_spec(present: Seq<LogKind>) -> Option<LogKind> {
    if present.contains(LogKind::Run) {
        Some(LogKind::Run)
    } else if present.contains(LogKind::Build) {
        Some(LogKind::Build)
    } else if present.contains(LogKind::Install) {
        Some(LogKind::Install)
    } else if present.contains(LogKind::Clone) {
        Some(LogKind::Clone)
    } else {
        None
    }
}

/// Whether `kind` is among `present`.
fn has_kind(present: &[LogKind], kind: LogKind) -> (r: bool)
    ensures
        r == present@.contains(kind),
{
    let mut i: usize = 0;
    while i < present.len()
        invariant
            0 <= i <= present@.len(),
            forall|j: int| 0 <= j < i ==> present@[j] != kind,
        decreases present@.len() - i,
    {
        if present[i] == kind {
            return true;
        }
        i = i + 1;
    }
    false
}

/// The phase shown when no pump is active is the furthest along of those
/// with a log on disk: one that is present, with no present phase after
/// it; nothing is shown only when no log is there.
pub proof fn lemma_terminal_phase_is_furthest(present: Seq<LogKind>)
    ensures
        terminal_phase_spec(present) is None <==> present.len() == 0,
        terminal_phase_spec(present) matches Some(k) ==> present.contains(k) && forall|i: int|
            0 <= i < present.len() ==> phase_rank(#[trigger] present[i]) <= phase_rank(k),
{
    if present.len() > 0 {
        assert(present.contains(present[0]));
    }
}

/// Furthest-progressed phase with a file on disk - used when nothing's
/// actively pumping right now. Takes the phases whose log file exists.
pub fn resolve_terminal_phase(present: &[LogKind]) -> (r: Option<LogKind>)
    ensures
        r == terminal_phase_spec(present@),
        r is None <==> present@.len() == 0,
        r matches Some(k) ==> present@.contains(k) && forall|i: int|
            0 <= i < present@.len() ==> phase_rank(#[trigger] present@[i]) <= phase_rank(k),
{
    proof {
        lemma_terminal_phase_is_furthest(present@);
    }
    if has_kind(present, LogKind::Run) {
        Some(LogKind::Run)
    } else if has_kind(present, LogKind::Build) {
        Some(LogKind::Build)
    } else if has_kind(present, LogKind::Install) {
        Some(LogKind::Install)
    } else if has_kind(present, LogKind::Clone) {
        Some(LogKind::Clone)
    } else {
        None
    }
}


/// The phase whose log a snapshot shows: the one actively pumping, else
/// the furthest-progressed one on disk; with neither, there is nothing to
/// show yet.
pub fn log_phase(active: Option<LogKind>, present: &[LogKind]) -> (r: Result<LogKind, String>)
    ensures
        active matches Some(k) ==> r == Ok::<LogKind, String>(k),
        active is None && terminal_phase_spec(present@) is Some ==> r == Ok::<LogKind, String>(
            terminal_phase_spec(present@)->0,
        ),
        active is None && terminal_phase_spec(present@) is None ==> (r matches Err(m) && m@
            == "no logs recorded for this deployment yet"@),
{
    match active {
        Some(k) => Ok(k),
        None => match resolve_terminal_phase(present) {
            Some(k) => Ok(k),
            None => Err("no logs recorded for this deployment yet".to_owned()),
        },
    }
}


/// How a logs request is answered: which phase, whether the reply keeps
/// streaming live output after the backlog, and its content type.
#[derive(Debug, PartialEq, Eq)]
pub struct LogsPlan {
    pub kind: LogKind,
    pub live: bool,
    pub content_type: &'static str,
}

/// Serves the requested phase if given, else whichever phase is active or
/// furthest along (with nothing on disk either, the deployment has no
/// output to show). `follow` only live-tails when a pump is actively
/// producing that phase; otherwise it is the same as not following.
pub fn logs_plan(
    requested: Option<LogKind>,
    active: Option<LogKind>,
    present: &[LogKind],
    follow: bool,
    deployment_id: &str,
) -> (r: crate::error::AppResult<LogsPlan>)
    ensures
        requested is None && active is None && terminal_phase_spec(present@) is None ==> (r matches Err(
            crate::error::AppError::NoContainer(m),
        ) && m@ == deployment_id@),
        r matches Ok(p) ==> {
            &&& (requested matches Some(k) ==> p.kind == k)
            &&& (requested is None && active is Some ==> p.kind == active->0)
            &&& (requested is None && active is None ==> Some(p.kind) == terminal_phase_spec(present@))
            &&& p.live == (follow && active == Some(p.kind))
            &&& (follow ==> p.content_type@ == "text/event-stream"@)
            &&& (!follow ==> p.content_type@ == "text/plain; charset=utf-8"@)
        },
        requested is Some || active is Some || terminal_phase_spec(present@) is Some ==> r is Ok,
{
    let kind = match requested {
        Some(k) => k,
        None => match active {
            Some(k) => k,
            None => match resolve_terminal_phase(present) {
                Some(k) => k,
                None => return Err(crate::error::AppError::NoContainer(deployment_id.to_owned())),
            },
        },
    };
    let live = follow && match active {
        Some(a) => a == kind,
        None => false,
    };
    let content_type = if follow {
        "text/event-stream"
    } else {
        "text/plain; charset=utf-8"
    };
    Ok(LogsPlan { kind, live, content_type })
}

// ---------------------------------------------------------------------
// The pump's file state
// ---------------------------------------------------------------------

/// What a pump knows of its log file: whether one is open, and how many
/// bytes it has written to it since it was opened.
#[derive(Clone, Copy, Debug, PartialEq, Eq)]
pub struct PumpFile {
    pub open: bool,
    pub bytes_written: u64,
}

/// A chunk is about to be written: the run log is rotated first once it
/// holds `RUN_LOG_ROTATE_BYTES` or more.
pub open spec fn rotation_due_spec(kind: LogKind, file: PumpFile) -> bool {
    file.open && kind == LogKind::Run && file.bytes_written >= RUN_LOG_ROTATE_BYTES
}

/// Whether to rotate the run log before the next chunk.
pub fn rotation_due(kind: LogKind, file: PumpFile) -> (r: bool)
    ensures
        r == rotation_due_spec(kind, file),
{
    file.open && kind == LogKind::Run && file.bytes_written >= RUN_LOG_ROTATE_BYTES
}

/// After a rotation: the reopened file (if reopening worked) is empty.
pub fn after_rotation(reopened: bool) -> (r: PumpFile)
    ensures
        r == (PumpFile { open: reopened, bytes_written: 0 }),
{
    PumpFile { open: reopened, bytes_written: 0 }
}

/// After writing a chunk of `chunk_len` bytes: a successful write to an
/// open file counts; a failed write only drops persistence for that chunk.
pub open spec fn after_write_spec(file: PumpFile, chunk_len: u64, written: bool) -> PumpFile {
    if file.open && written {
        PumpFile { open: true, bytes_written: (file.bytes_written + chunk_len) as u64 }
    } else {
        file
    }
}

/// The file state after a chunk write attempt.
pub fn after_write(file: PumpFile, chunk_len: u64, written: bool) -> (r: PumpFile)
    requires
        file.bytes_written + chunk_len <= u64::MAX,
    ensures
        r == after_write_spec(file, chunk_len, written),
{
    if file.open && written {
        PumpFile { open: true, bytes_written: file.bytes_written + chunk_len }
    } else {
        file
    }
}

/// One chunk through the pump: rotate if due (reopening as `reopened`
/// says), then write.
pub open spec fn chunk_step(
    kind: LogKind,
    file: PumpFile,
    chunk_len: u64,
    reopened: bool,
    written: bool,
) -> PumpFile {
    let before = if rotation_due_spec(kind, file) {
        PumpFile { open: reopened, bytes_written: 0 }
    } else {
        file
    };
    after_write_spec(before, chunk_len, written)
}

/// The run log never grows past the cap by more than one chunk: if every
/// chunk is at most `max_chunk` bytes and the file holds less than
/// `RUN_LOG_ROTATE_BYTES + max_chunk`, it still does after the next chunk,
/// whatever the file system does.
pub proof fn lemma_run_log_stays_bounded(
    file: PumpFile,
    chunk_len: u64,
    max_chunk: u64,
    reopened: bool,
    written: bool,
)
    requires
        chunk_len <= max_chunk,
        file.bytes_written < RUN_LOG_ROTATE_BYTES + max_chunk,
        RUN_LOG_ROTATE_BYTES + max_chunk <= u64::MAX,
    ensures
        chunk_step(LogKind::Run, file, chunk_len, reopened, written).bytes_written
            < RUN_LOG_ROTATE_BYTES + max_chunk,
        rotation_due_spec(LogKind::Run, file) ==> chunk_step(
            LogKind::Run,
            file,
            chunk_len,
            reopened,
            written,
        ).bytes_written <= chunk_len,
{
}

/// Only the run log ever rotates.
pub proof fn lemma_only_run_rotates(kind: LogKind, file: PumpFile)
    ensures
        kind != LogKind::Run ==> !rotation_due_spec(kind, file),
{
}

// ---------------------------------------------------------------------
// The registry of active pumps
// ---------------------------------------------------------------------

/// One active pump: the deployment it writes for, its phase, and the
/// handle live-tail subscribers attach to.
pub struct ActivePump<T> {
    pub deployment_id: String,
    pub kind: LogKind,
    pub handle: T,
}

/// Deployments with an active log pump - lets the HTTP handler offer live
/// tail, and ensures only one pump writes to a deployment's log at a time.
pub struct LogRegistry<T> {
    pumps: Vec<ActivePump<T>>,
}

/// No deployment has two pumps.
pub open spec fn pumps_distinct<T>(pumps: Seq<ActivePump<T>>) -> bool {
    forall|i: int, j: int|
        0 <= i < pumps.len() && 0 <= j < pumps.len() && i != j ==> #[trigger] pumps[i].deployment_id@
            != #[trigger] pumps[j].deployment_id@
}

/// Some pump writes for `id`.
pub open spec fn pumps_have<T>(pumps: Seq<ActivePump<T>>, id: Seq<char>) -> bool {
    exists|i: int| 0 <= i < pumps.len() && #[trigger] pumps[i].deployment_id@ == id
}

/// The phase and handle of a pump.
pub open spec fn pump_entry<T>(pump: ActivePump<T>) -> (LogKind, T) {
    (pump.kind, pump.handle)
}

/// The deployments with a pump, each with the phase it pumps and its
/// handle.
pub open spec fn pumps_map<T>(pumps: Seq<ActivePump<T>>) -> Map<Seq<char>, (LogKind, T)> {
    Map::new(
        |id: Seq<char>| pumps_have(pumps, id),
        |id: Seq<char>|
            pump_entry(
                pumps[choose|i: int| 0 <= i < pumps.len() && #[trigger] pumps[i].deployment_id@ == id],
            ),
    )
}

/// With distinct ids, the map gives each pump's own phase and handle.
proof fn lemma_pumps_map_at<T>(pumps: Seq<ActivePump<T>>, i: int)
    requires
        pumps_distinct(pumps),
        0 <= i < pumps.len(),
    ensures
        pumps_map(pumps).contains_key(pumps[i].deployment_id@),
        pumps_map(pumps)[pumps[i].deployment_id@] == pump_entry(pumps[i]),
{
    let id = pumps[i].deployment_id@;
    assert(pumps_have(pumps, id));
    let j = choose|j: int| 0 <= j < pumps.len() && #[trigger] pumps[j].deployment_id@ == id;
    assert(j == i);
}

impl<T> View for LogRegistry<T> {
    type V = Map<Seq<char>, (LogKind, T)>;

    closed spec fn view(&self) -> Map<Seq<char>, (LogKind, T)> {
        pumps_map(self.pumps@)
    }
}

impl<T> LogRegistry<T> {
    #[verifier::type_invariant]
    closed spec fn distinct_ids(self) -> bool {
        pumps_distinct(self.pumps@)
    }

    /// No active pumps.
    pub fn new() -> (r: Self)
        ensures
            r@ == Map::<Seq<char>, (LogKind, T)>::empty(),
    {
        let r = LogRegistry { pumps: Vec::new() };
        assert(r@ =~= Map::<Seq<char>, (LogKind, T)>::empty());
        r
    }

    /// Position of the pump for `id`, if any.
    fn position(&self, id: &str) -> (r: Option<usize>)
        ensures
            r matches Some(i) ==> i < self.pumps@.len() && self.pumps@[i as int].deployment_id@
                == id@,
            r is None ==> !pumps_have(self.pumps@, id@),
    {
        let mut i: usize = 0;
        while i < self.pumps.len()
            invariant
                0 <= i <= self.pumps@.len(),
                forall|j: int| 0 <= j < i ==> self.pumps@[j].deployment_id@ != id@,
            decreases self.pumps@.len() - i,
        {
            if same_text(self.pumps[i].deployment_id.as_str(), id) {
                return Some(i);
            }
            i = i + 1;
        }
        None
    }

    /// The phase and handle of the pump for `deployment_id`, if one is
    /// active.
    pub fn active(&self, deployment_id: &str) -> (r: Option<(LogKind, &T)>)
        ensures
            r matches Some(p) ==> self@.contains_key(deployment_id@) && self@[deployment_id@]
                == (p.0, *p.1),
            r is None ==> !self@.contains_key(deployment_id@),
    {
        proof {
            use_type_invariant(self);
        }
        match self.position(deployment_id) {
            Some(i) => {
                proof {
                    lemma_pumps_map_at(self.pumps@, i as int);
                }
                Some((self.pumps[i].kind, &self.pumps[i].handle))
            },
            None => None,
        }
    }

    /// Registers a pump for `deployment_id` with `handle`, unless one is
    /// already registered - callers treat `false` as "don't start a second
    /// one," not an error.
    pub fn try_register(&mut self, deployment_id: &str, kind: LogKind, handle: T) -> (r: bool)
        ensures
            r == !old(self)@.contains_key(deployment_id@),
            r ==> final(self)@ == old(self)@.insert(deployment_id@, (kind, handle)),
            !r ==> final(self)@ == old(self)@,
    {
        proof {
            use_type_invariant(&*self);
        }
        match self.position(deployment_id) {
            Some(_) => false,
            None => {
                let ghost before = self.pumps@;
                let id = deployment_id.to_owned();
                let mut pumps: Vec<ActivePump<T>> = Vec::new();
                std::mem::swap(&mut pumps, &mut self.pumps);
                pumps.push(ActivePump { deployment_id: id, kind, handle });
                proof {
                    let after = pumps@;
                    assert(pumps_distinct(after));
                    let m = old(self)@.insert(deployment_id@, (kind, handle));
                    assert forall|k: Seq<char>| #[trigger] pumps_have(after, k) == m.contains_key(k) by {
                        if pumps_have(after, k) {
                            let j = choose|j: int| 0 <= j < after.len() && #[trigger] after[j].deployment_id@ == k;
                            if j < before.len() {
                                assert(before[j].deployment_id@ == k);
                                assert(pumps_have(before, k));
                            }
                        }
                        if pumps_have(before, k) {
                            let j = choose|j: int| 0 <= j < before.len() && #[trigger] before[j].deployment_id@ == k;
                            assert(after[j].deployment_id@ == k);
                        }
                        if k == deployment_id@ {
                            assert(after[before.len() as int].deployment_id@ == k);
                        }
                    }
                    assert forall|k: Seq<char>| #[trigger] m.contains_key(k) implies pumps_map(after)[k] == m[k] by {
                        if k == deployment_id@ {
                            lemma_pumps_map_at(after, before.len() as int);
                        } else {
                            let j = choose|j: int| 0 <= j < before.len() && #[trigger] before[j].deployment_id@ == k;
                            lemma_pumps_map_at(before, j);
                            assert(after[j] == before[j]);
                            lemma_pumps_map_at(after, j);
                        }
                    }
                    assert(pumps_map(after) =~= m);
                }
                self.pumps = pumps;
                true
            },
        }
    }

    /// Drops the pump for `deployment_id`, if any.
    pub fn deregister(&mut self, deployment_id: &str)
        ensures
            final(self)@ == old(self)@.remove(deployment_id@),
    {
        proof {
            use_type_invariant(&*self);
        }
        match self.position(deployment_id) {
            None => {
                assert(self@ =~= old(self)@.remove(deployment_id@));
            },
            Some(i) => {
                let ghost before = self.pumps@;
                let mut pumps: Vec<ActivePump<T>> = Vec::new();
                std::mem::swap(&mut pumps, &mut self.pumps);
                let _ = pumps.remove(i);
                proof {
                    let after = pumps@;
                    assert(after =~= before.remove(i as int));
                    assert forall|a: int, b: int|
                        0 <= a < after.len() && 0 <= b < after.len() && a != b implies #[trigger] after[a].deployment_id@
                            != #[trigger] after[b].deployment_id@ by {
                        let a0 = if a < i { a } else { a + 1 };
                        let b0 = if b < i { b } else { b + 1 };
                        assert(after[a] == before[a0]);
                        assert(after[b] == before[b0]);
                    }
                    let m = old(self)@.remove(deployment_id@);
                    assert forall|k: Seq<char>| #[trigger] pumps_have(after, k) == m.contains_key(k) by {
                        if pumps_have(after, k) {
                            let j = choose|j: int| 0 <= j < after.len() && #[trigger] after[j].deployment_id@ == k;
                            let j0 = if j < i { j } else { j + 1 };
                            assert(before[j0].deployment_id@ == k);
                            assert(pumps_have(before, k));
                            assert(j0 != i);
                        }
                        if m.contains_key(k) {
                            let j = choose|j: int| 0 <= j < before.len() && #[trigger] before[j].deployment_id@ == k;
                            assert(j != i);
                            let j1 = if j < i { j } else { j - 1 };
                            assert(after[j1].deployment_id@ == k);
                        }
                    }
                    assert forall|k: Seq<char>| #[trigger] m.contains_key(k) implies pumps_map(after)[k] == m[k] by {
                        let j = choose|j: int| 0 <= j < before.len() && #[trigger] before[j].deployment_id@ == k;
                        assert(j != i);
                        let j1 = if j < i { j } else { j - 1 };
                        lemma_pumps_map_at(before, j);
                        lemma_pumps_map_at(after, j1);
                    }
                    assert(pumps_map(after) =~= m);
                }
                self.pumps = pumps;
            },
        }
    }
}

/// Registering what the registry would then hold: whether it took, and the
/// deployments with a pump afterwards.
pub open spec fn register_spec<T>(
    pumps: Map<Seq<char>, (LogKind, T)>,
    id: Seq<char>,
    pump: (LogKind, T),
) -> (bool, Map<Seq<char>, (LogKind, T)>) {
    if pumps.contains_key(id) {
        (false, pumps)
    } else {
        (true, pumps.insert(id, pump))
    }
}

/// A second pump for a deployment is refused while the first is active,
/// and the first keeps its phase and handle; once the first deregisters, a new pump
/// for the deployment is accepted.
pub proof fn lemma_one_pump_per_deployment<T>(
    pumps: Map<Seq<char>, (LogKind, T)>,
    id: Seq<char>,
    first: (LogKind, T),
    second: (LogKind, T),
)
    ensures
        !pumps.contains_key(id) ==> register_spec(pumps, id, first).0,
        !register_spec(register_spec(pumps, id, first).1, id, second).0,
        register_spec(register_spec(pumps, id, first).1, id, second).1[id] == register_spec(
            pumps,
            id,
            first,
        ).1[id],
        register_spec(register_spec(pumps, id, first).1.remove(id), id, second).0,
{
}

} // verus!
