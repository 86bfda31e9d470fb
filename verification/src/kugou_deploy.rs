//! Deployment of the KuGou enhancement: the byte patch that opens the embedded
//! browser's DevTools port in `libcef.dll`, its fingerprint check, and the helper's
//! command line.

use vstd::prelude::*;
use crate::error::AppError;
use crate::kugou::{is_newest, newest_kept};
use crate::text::{eq_ignore_ascii_case, eq_ignore_ascii_case_chars, starts_with_chars, chars_of, concat_chars, join3, same_text, slice_chars, string_of, trim, trim_chars};

verus! {

/// Which single job the elevated helper does.
#[derive(Debug, Clone, Copy, PartialEq, Eq)]
pub enum HelperMode {
    Patch,
    Restore,
}

/// The helper's argument for a mode.
pub open spec fn spec_mode_arg(m: HelperMode) -> Seq<char> {
    match m {
        HelperMode::Patch => seq!['p', 'a', 't', 'c', 'h'],
        HelperMode::Restore => seq!['r', 'e', 's', 't', 'o', 'r', 'e'],
    }
}

/// The mode an argument selects: `restore` restores, anything else patches (older
/// command lines had no argument).
pub open spec fn spec_mode_from_arg(arg: Seq<char>) -> HelperMode {
    if arg == seq!['r', 'e', 's', 't', 'o', 'r', 'e'] {
        HelperMode::Restore
    } else {
        HelperMode::Patch
    }
}

impl HelperMode {
    /// The first argument passed to the elevated process.
    pub fn as_arg(self) -> (r: String)
        ensures
            r@ == spec_mode_arg(self),
    {
        let mut v: Vec<char> = Vec::new();
        match self {
            HelperMode::Patch => {
                v.push('p');
                v.push('a');
                v.push('t');
                v.push('c');
                v.push('h');
            },
            HelperMode::Restore => {
                v.push('r');
                v.push('e');
                v.push('s');
                v.push('t');
                v.push('o');
                v.push('r');
                v.push('e');
            },
        }
        proof {
            assert(v@ =~= spec_mode_arg(self));
        }
        string_of(&v)
    }

    /// The mode named by the helper's argument.
    pub fn from_arg(arg: &str) -> (r: HelperMode)
        ensures
            r == spec_mode_from_arg(arg@),
    {
        let restore = HelperMode::Restore.as_arg();
        if same_text(arg, restore.as_str()) {
            HelperMode::Restore
        } else {
            HelperMode::Patch
        }
    }

    /// The action's name in messages to the user.
    pub fn label(self) -> (r: String)
        ensures
            r@ == (match self {
                HelperMode::Patch => "打补丁"@,
                HelperMode::Restore => "还原"@,
            }),
    {
        match self {
            HelperMode::Patch => "打补丁".to_owned(),
            HelperMode::Restore => "还原".to_owned(),
        }
    }
}

/// The helper's argument reads back as the same mode.
pub proof fn law_mode_arg_roundtrip(m: HelperMode)
    ensures
        spec_mode_from_arg(spec_mode_arg(m)) == m,
{
    match m {
        HelperMode::Patch => {
            assert(seq!['p', 'a', 't', 'c', 'h'] != seq!['r', 'e', 's', 't', 'o', 'r', 'e']) by {
                assert(seq!['p', 'a', 't', 'c', 'h'].len() != seq!['r', 'e', 's', 't', 'o', 'r', 'e'].len());
            }
        },
        HelperMode::Restore => {},
    }
}

} // verus!

verus! {

/// One patch site: file offset, original bytes and patched bytes (together a version
/// fingerprint).
#[derive(Debug, Clone)]
pub struct Site {
    pub offset: u64,
    pub orig: Vec<u8>,
    pub data: Vec<u8>,
}

/// The patch table for CEF 89.20.0 (KuGou 20.1.51): offsets.
pub open spec fn site_offsets() -> Seq<u64> {
    seq![0x58C63EBu64, 0x58C6415u64, 0x58C6420u64, 0x58C6428u64, 0x4BC180Eu64, 0x4BEDE41u64, 0x4BEDE4Cu64, 0x4BEDEB5u64, 0x4BEDED0u64]
}

/// The patch table: original bytes at each site.
pub open spec fn site_orig() -> Seq<Seq<u8>> {
    seq![
        seq![0xC7u8, 0x06u8, 0xAAu8, 0xAAu8, 0xAAu8, 0xAAu8],
        seq![0xE8u8, 0x96u8, 0xA9u8, 0xE9u8, 0xFCu8],
        seq![0x0Fu8, 0x87u8, 0x96u8, 0x01u8, 0x00u8, 0x00u8],
        seq![0x0Fu8, 0x84u8, 0x8Eu8, 0x01u8, 0x00u8, 0x00u8],
        seq![0x8Bu8, 0x95u8, 0x7Cu8, 0x01u8, 0x00u8, 0x00u8],
        seq![0x0Fu8, 0x84u8, 0x70u8, 0x01u8, 0x00u8, 0x00u8],
        seq![0x41u8, 0xC7u8, 0x07u8, 0xAAu8, 0xAAu8, 0xAAu8, 0xAAu8],
        seq![0xE8u8, 0xF6u8, 0x2Eu8, 0xB7u8, 0xFDu8],
        seq![0x0Fu8, 0x44u8, 0xDAu8],
    ]
}

/// The patch table: patched bytes at each site (the port sentinel becomes 12233, the
/// checks and parse calls become NOPs).
pub open spec fn site_data() -> Seq<Seq<u8>> {
    seq![
        seq![0xC7u8, 0x06u8, 0xC9u8, 0x2Fu8, 0x00u8, 0x00u8],
        seq![0x90u8, 0x90u8, 0x90u8, 0x90u8, 0x90u8],
        seq![0x90u8, 0x90u8, 0x90u8, 0x90u8, 0x90u8, 0x90u8],
        seq![0x90u8, 0x90u8, 0x90u8, 0x90u8, 0x90u8, 0x90u8],
        seq![0xBAu8, 0xC9u8, 0x2Fu8, 0x00u8, 0x00u8, 0x90u8],
        seq![0x90u8, 0x90u8, 0x90u8, 0x90u8, 0x90u8, 0x90u8],
        seq![0x41u8, 0xC7u8, 0x07u8, 0xC9u8, 0x2Fu8, 0x00u8, 0x00u8],
        seq![0x90u8, 0x90u8, 0x90u8, 0x90u8, 0x90u8],
        seq![0x90u8, 0x90u8, 0x90u8],
    ]
}

/// The sites of `t` match the table.
pub open spec fn is_site_table(t: Seq<Site>) -> bool {
    &&& t.len() == 9
    &&& forall|k: int|
        0 <= k < 9 ==> (#[trigger] t[k]).offset == site_offsets()[k] && t[k].orig@ == site_orig()[k]
            && t[k].data@ == site_data()[k]
}

/// The table is a usable fingerprint: nine sites, each with original and patched bytes
/// of equal length that differ, at distinct offsets.
pub open spec fn table_sane(t: Seq<Site>) -> bool {
    &&& t.len() == 9
    &&& forall|k: int| 0 <= k < t.len() ==> (#[trigger] t[k]).orig@.len() == t[k].data@.len()
    &&& forall|k: int| 0 <= k < t.len() ==> (#[trigger] t[k]).orig@ != t[k].data@
    &&& forall|i: int, j: int| 0 <= i < j < t.len() ==> (#[trigger] t[i]).offset != (#[trigger] t[j]).offset
}

fn site(offset: u64, orig: &[u8], data: &[u8]) -> (r: Site)
    ensures
        r.offset == offset,
        r.orig@ == orig@,
        r.data@ == data@,
{
    let mut o: Vec<u8> = Vec::new();
    let mut i: usize = 0;
    while i < orig.len()
        invariant
            i <= orig.len(),
            o@ == orig@.take(i as int),
        decreases orig.len() - i,
    {
        o.push(orig[i]);
        i += 1;
        proof {
            assert(o@ =~= orig@.take(i as int));
        }
    }
    let mut d: Vec<u8> = Vec::new();
    let mut j: usize = 0;
    while j < data.len()
        invariant
            j <= data.len(),
            d@ == data@.take(j as int),
        decreases data.len() - j,
    {
        d.push(data[j]);
        j += 1;
        proof {
            assert(d@ =~= data@.take(j as int));
        }
    }
    proof {
        assert(o@ =~= orig@);
        assert(d@ =~= data@);
    }
    Site { offset, orig: o, data: d }
}

/// The patch table.
pub fn sites() -> (r: Vec<Site>)
    ensures
        is_site_table(r@),
        table_sane(r@),
{
    let mut t: Vec<Site> = Vec::new();
    t.push(site(0x58C63EB, &[0xC7, 0x06, 0xAA, 0xAA, 0xAA, 0xAA], &[0xC7, 0x06, 0xC9, 0x2F, 0x00, 0x00]));
    t.push(site(0x58C6415, &[0xE8, 0x96, 0xA9, 0xE9, 0xFC], &[0x90, 0x90, 0x90, 0x90, 0x90]));
    t.push(site(0x58C6420, &[0x0F, 0x87, 0x96, 0x01, 0x00, 0x00], &[0x90, 0x90, 0x90, 0x90, 0x90, 0x90]));
    t.push(site(0x58C6428, &[0x0F, 0x84, 0x8E, 0x01, 0x00, 0x00], &[0x90, 0x90, 0x90, 0x90, 0x90, 0x90]));
    t.push(site(0x4BC180E, &[0x8B, 0x95, 0x7C, 0x01, 0x00, 0x00], &[0xBA, 0xC9, 0x2F, 0x00, 0x00, 0x90]));
    t.push(site(0x4BEDE41, &[0x0F, 0x84, 0x70, 0x01, 0x00, 0x00], &[0x90, 0x90, 0x90, 0x90, 0x90, 0x90]));
    t.push(site(0x4BEDE4C, &[0x41, 0xC7, 0x07, 0xAA, 0xAA, 0xAA, 0xAA], &[0x41, 0xC7, 0x07, 0xC9, 0x2F, 0x00, 0x00]));
    t.push(site(0x4BEDEB5, &[0xE8, 0xF6, 0x2E, 0xB7, 0xFD], &[0x90, 0x90, 0x90, 0x90, 0x90]));
    t.push(site(0x4BEDED0, &[0x0F, 0x44, 0xDA], &[0x90, 0x90, 0x90]));
    proof {
        assert forall|k: int| 0 <= k < 9 implies (#[trigger] t@[k]).offset == site_offsets()[k]
            && t@[k].orig@ == site_orig()[k] && t@[k].data@ == site_data()[k] by {
            assert(t@[k].orig@ =~= site_orig()[k]);
            assert(t@[k].data@ =~= site_data()[k]);
        }
        assert forall|k: int| 0 <= k < t.len() implies (#[trigger] t@[k]).orig@ != t@[k].data@ by {
            assert(t@[k].orig@[0] != t@[k].data@[0] || t@[k].orig@[2] != t@[k].data@[2] || t@[k].orig@[3] != t@[k].data@[3]);
        }
    }
    t
}

} // verus!

verus! {

/// Patch state of `libcef.dll`.
#[derive(Debug, Clone, Copy, PartialEq, Eq)]
pub enum PatchState {
    /// No `libcef.dll` found.
    Missing,
    /// Found, but some site holds bytes of neither form: another CEF build, do not
    /// write.
    Unsupported,
    /// Recognized, not (fully) patched.
    Pending,
    /// Every site holds the patched bytes.
    Patched,
}

/// Classification of the bytes read at the nine sites (in table order): any site with
/// neither the original nor the patched bytes makes the file unsupported; all patched
/// means patched; otherwise pending (partly patched counts as pending).
pub open spec fn spec_classify(read: Seq<Seq<u8>>) -> PatchState {
    if exists|k: int| 0 <= k < 9 && #[trigger] read[k] != site_data()[k] && read[k] != site_orig()[k] {
        PatchState::Unsupported
    } else if forall|k: int| 0 <= k < 9 ==> #[trigger] read[k] == site_data()[k] {
        PatchState::Patched
    } else {
        PatchState::Pending
    }
}

fn same_bytes(a: &[u8], b: &[u8]) -> (r: bool)
    ensures
        r == (a@ == b@),
{
    if a.len() != b.len() {
        return false;
    }
    let mut i: usize = 0;
    while i < a.len()
        invariant
            i <= a.len() == b.len(),
            forall|k: int| 0 <= k < i ==> a@[k] == b@[k],
        decreases a.len() - i,
    {
        if a[i] != b[i] {
            return false;
        }
        i += 1;
    }
    proof {
        assert(a@ =~= b@);
    }
    true
}

/// Classifies `libcef.dll` from the bytes read at the sites of `table` (in order).
pub fn classify_sites(table: &Vec<Site>, read: &Vec<Vec<u8>>) -> (r: PatchState)
    requires
        is_site_table(table@),
        read.len() == 9,
    ensures
        r == spec_classify(read@.map_values(|b: Vec<u8>| b@)),
{
    let ghost rv = read@.map_values(|b: Vec<u8>| b@);
    let mut all_data = true;
    let mut k: usize = 0;
    while k < 9
        invariant
            k <= 9,
            read.len() == 9,
            is_site_table(table@),
            rv == read@.map_values(|b: Vec<u8>| b@),
            forall|m: int| 0 <= m < k ==> !(rv[m] != site_data()[m] && rv[m] != site_orig()[m]),
            all_data <==> forall|m: int| 0 <= m < k ==> rv[m] == site_data()[m],
        decreases 9 - k,
    {
        proof {
            assert(rv[k as int] == read@[k as int]@);
            assert(table@[k as int].data@ == site_data()[k as int]);
        }
        if !same_bytes(&read[k], &table[k].data) {
            all_data = false;
            if !same_bytes(&read[k], &table[k].orig) {
                return PatchState::Unsupported;
            }
        }
        k += 1;
    }
    if all_data {
        PatchState::Patched
    } else {
        PatchState::Pending
    }
}

/// The enhancement's overall state.
#[derive(Debug, Clone, Copy, PartialEq, Eq)]
pub struct EnhanceStatus {
    pub patch: PatchState,
    /// The DevTools port answers (patch active, KuGou running).
    pub cdp: bool,
    pub kugou_running: bool,
    /// Patched, but KuGou still runs the old DLL: it needs a restart.
    pub needs_restart: bool,
}

/// The overall state from the patch state, whether DevTools answers and whether
/// KuGou runs: a restart is needed exactly when it runs, patched, without DevTools.
pub fn status(patch: PatchState, cdp: bool, kugou_running: bool) -> (r: EnhanceStatus)
    ensures
        r.patch == patch,
        r.cdp == cdp,
        r.kugou_running == kugou_running,
        r.needs_restart == (kugou_running && !cdp && patch == PatchState::Patched),
{
    let patched = match patch {
        PatchState::Patched => true,
        _ => false,
    };
    EnhanceStatus { patch, cdp, kugou_running, needs_restart: kugou_running && !cdp && patched }
}

/// The command-line switch that runs the elevated helper.
pub open spec fn helper_flag() -> Seq<char> {
    "--kugou-patch-helper"@
}

/// The helper's parameters: the switch, the mode, and the quoted paths of
/// `libcef.dll` and the control directory.
pub open spec fn spec_helper_params(mode: HelperMode, libcef: Seq<char>, control: Seq<char>) -> Seq<char> {
    helper_flag() + seq![' '] + spec_mode_arg(mode) + seq![' ', '"'] + libcef + seq!['"', ' ', '"']
        + control + seq!['"']
}

/// Builds the elevated helper's parameter string.
pub fn helper_params(mode: HelperMode, libcef: &str, control: &str) -> (r: String)
    ensures
        r@ == spec_helper_params(mode, libcef@, control@),
{
    let mut a = chars_of("--kugou-patch-helper");
    a.push(' ');
    let mut b = concat_chars(&a, &chars_of(mode.as_arg().as_str()));
    b.push(' ');
    b.push('"');
    let mut c = concat_chars(&b, &chars_of(libcef));
    c.push('"');
    c.push(' ');
    c.push('"');
    let mut d = concat_chars(&c, &chars_of(control));
    d.push('"');
    proof {
        assert(d@ =~= spec_helper_params(mode, libcef@, control@));
    }
    string_of(&d)
}

/// The backup next to `libcef.dll`: its path with `.topisland.bak` appended.
pub fn backup_path(libcef: &str) -> (r: String)
    ensures
        r@ == libcef@ + ".topisland.bak"@,
{
    string_of(&concat_chars(&chars_of(libcef), &chars_of(".topisland.bak")))
}

} // verus!

verus! {

/// Grace period before releasing the helper when the unlock probe cannot tell (the
/// elevated helper decides then).
pub const UNLOCK_GRACE_MS: u64 = 500;

/// Why installing or removing the enhancement failed.
#[derive(Debug)]
pub enum DeployFailure {
    /// No KuGou installation (or no `libcef.dll` in it).
    NotInstalled,
    /// KuGou is not running and the registry does not name its version directory, so the
    /// directory would be a guess.
    VersionUnknown,
    /// The DLL's fingerprint is not the known one.
    UnsupportedDll,
    /// KuGou did not exit.
    NotStopped,
    /// `libcef.dll` stayed locked.
    StillLocked,
    /// The helper reported this result instead of `ok`.
    Helper(String),
    /// A step's own error.
    Io(AppError),
}

/// How a deployment ended.
#[derive(Debug)]
pub enum DeployOutcome {
    /// DevTools already answers: nothing to do.
    AlreadyActive,
    /// Nothing to restore (no installation, or no backup).
    NothingToRestore,
    /// The helper did its job.
    Done,
    Failed(DeployFailure),
}

/// Where a deployment is.
#[derive(Debug, Clone, Copy, PartialEq, Eq, Structural)]
pub enum DeployStage {
    Start,
    Locating,
    CheckingBackup,
    ProbingRunning,
    ProbingRegistry,
    Classifying,
    MakingDir,
    Launching,
    Stopping,
    Unlocking,
    Pausing,
    RelaunchingAfterLock,
    Collecting,
    CleaningUp,
    Relaunching,
    Finished,
}

/// A deployment in progress (installing the patch, or restoring the backup): the
/// helper's job, the stage, whether KuGou was running when it started, whether the DLL
/// passed its check (patch: a known fingerprint; restore: a backup exists), and the
/// outcome decided before cleaning up.
#[derive(Debug)]
pub struct DeployFlow {
    pub mode: HelperMode,
    pub stage: DeployStage,
    pub was_running: bool,
    pub checked: bool,
    pub pending: Option<DeployOutcome>,
}

/// What a deployment step reports.
#[derive(Debug)]
pub enum DeployEvent {
    /// Whether DevTools answers.
    Cdp(bool),
    /// Whether `libcef.dll` was found.
    Located(bool),
    /// Whether its backup exists.
    Backup(bool),
    /// Whether KuGou runs.
    Running(bool),
    /// Whether the registry names KuGou's version directory.
    Registry(bool),
    /// The DLL's classification (or the error reading it).
    Classified(Result<PatchState, AppError>),
    /// The control directory was made (or not).
    DirMade(Result<(), AppError>),
    /// The elevated helper started and reported ready (or not).
    Launched(Result<(), AppError>),
    /// Whether KuGou exited.
    Stopped(bool),
    /// Whether the DLL is unlocked (`None`: cannot tell without elevation).
    Unlocked(Option<bool>),
    /// The grace period ended.
    Paused,
    /// The helper's result text (or the error releasing it).
    Collected(Result<String, AppError>),
    /// The control directory was removed.
    CleanedUp,
    /// KuGou was started again.
    Relaunched,
}

/// What a deployment does next.
#[derive(Debug)]
pub enum DeployAction {
    ProbeCdp,
    Locate,
    CheckBackup,
    ProbeRunning,
    ProbeRegistry,
    Classify,
    MakeControlDir,
    /// Start the elevated helper for the job (the one elevation prompt) and wait for it.
    Launch(HelperMode),
    StopKugou,
    WaitUnlocked,
    Pause(u64),
    /// Let the helper write, and collect its result.
    Go,
    RemoveControlDir,
    RelaunchKugou,
    Finish(DeployOutcome),
}

/// Whether the helper's result text means success: `ok`, ignoring surrounding white
/// space.
pub open spec fn helper_ok(text: Seq<char>) -> bool {
    trim(text) == "ok"@
}

/// The action that a stage performs (a finished deployment only tidies up: removing a
/// control directory that is already gone does nothing).
pub open spec fn stage_action(f: DeployFlow) -> DeployAction {
    match f.stage {
        DeployStage::Start => DeployAction::ProbeCdp,
        DeployStage::Locating => DeployAction::Locate,
        DeployStage::CheckingBackup => DeployAction::CheckBackup,
        DeployStage::ProbingRunning => DeployAction::ProbeRunning,
        DeployStage::ProbingRegistry => DeployAction::ProbeRegistry,
        DeployStage::Classifying => DeployAction::Classify,
        DeployStage::MakingDir => DeployAction::MakeControlDir,
        DeployStage::Launching => DeployAction::Launch(f.mode),
        DeployStage::Stopping => DeployAction::StopKugou,
        DeployStage::Unlocking => DeployAction::WaitUnlocked,
        DeployStage::Pausing => DeployAction::Pause(UNLOCK_GRACE_MS),
        DeployStage::RelaunchingAfterLock => DeployAction::RelaunchKugou,
        DeployStage::Collecting => DeployAction::Go,
        DeployStage::CleaningUp => DeployAction::RemoveControlDir,
        DeployStage::Relaunching => DeployAction::RelaunchKugou,
        DeployStage::Finished => DeployAction::RemoveControlDir,
    }
}

/// Moves to a stage and performs its action.
pub open spec fn goto(f: DeployFlow, stage: DeployStage) -> (DeployFlow, DeployAction) {
    let g = DeployFlow { stage, ..f };
    (g, stage_action(g))
}

/// Ends with an outcome.
pub open spec fn finish(f: DeployFlow, o: DeployOutcome) -> (DeployFlow, DeployAction) {
    (DeployFlow { stage: DeployStage::Finished, pending: None, ..f }, DeployAction::Finish(o))
}

/// Removes the control directory, keeping the outcome for after.
pub open spec fn cleanup(f: DeployFlow, o: DeployOutcome) -> (DeployFlow, DeployAction) {
    (
        DeployFlow { stage: DeployStage::CleaningUp, pending: Some(o), ..f },
        DeployAction::RemoveControlDir,
    )
}

/// Whether an outcome comes from the helper's result (only then is KuGou started again
/// after cleaning up).
pub open spec fn from_helper(o: DeployOutcome) -> bool {
    o is Done || (o matches DeployOutcome::Failed(DeployFailure::Helper(_)))
}

/// One step of a deployment (the structure of the elevated job: one elevation prompt;
/// the helper only writes the file; stopping and starting KuGou happen unelevated, and
/// only when it was running).
///
/// Patching: DevTools already answering ends it; otherwise `libcef.dll` must be found;
/// with KuGou not running the registry must name its version directory (else the
/// directory would be a guess); a DLL with an unknown fingerprint is refused. Restoring:
/// no DLL or no backup means nothing to restore. Then: control directory, helper
/// launch, KuGou stopped when it was running, the DLL's lock checked (cannot tell:
/// short grace; still locked: KuGou started again when it was running, and failure),
/// the helper released and its result collected, the control directory removed, and
/// KuGou started again when it was running and the helper answered. An event that the
/// stage does not expect repeats the stage's action.
pub open spec fn spec_deploy_step(f: DeployFlow, ev: DeployEvent) -> (DeployFlow, DeployAction) {
    let patch = f.mode == HelperMode::Patch;
    match (f.stage, ev) {
        (DeployStage::Start, DeployEvent::Cdp(up)) => if up {
            finish(f, DeployOutcome::AlreadyActive)
        } else {
            goto(f, DeployStage::Locating)
        },
        (DeployStage::Locating, DeployEvent::Located(found)) => if !found {
            if patch {
                finish(f, DeployOutcome::Failed(DeployFailure::NotInstalled))
            } else {
                finish(f, DeployOutcome::NothingToRestore)
            }
        } else if patch {
            goto(f, DeployStage::ProbingRunning)
        } else {
            goto(f, DeployStage::CheckingBackup)
        },
        (DeployStage::CheckingBackup, DeployEvent::Backup(exists)) => if !exists {
            finish(f, DeployOutcome::NothingToRestore)
        } else {
            goto(DeployFlow { checked: true, ..f }, DeployStage::ProbingRunning)
        },
        (DeployStage::ProbingRunning, DeployEvent::Running(r)) => {
            let g = DeployFlow { was_running: r, ..f };
            if !patch {
                goto(g, DeployStage::MakingDir)
            } else if !r {
                goto(g, DeployStage::ProbingRegistry)
            } else {
                goto(g, DeployStage::Classifying)
            }
        },
        (DeployStage::ProbingRegistry, DeployEvent::Registry(known)) => if !known {
            finish(f, DeployOutcome::Failed(DeployFailure::VersionUnknown))
        } else {
            goto(f, DeployStage::Classifying)
        },
        (DeployStage::Classifying, DeployEvent::Classified(c)) => match c {
            Err(e) => finish(f, DeployOutcome::Failed(DeployFailure::Io(e))),
            Ok(PatchState::Unsupported) => finish(
                f,
                DeployOutcome::Failed(DeployFailure::UnsupportedDll),
            ),
            Ok(_) => goto(DeployFlow { checked: true, ..f }, DeployStage::MakingDir),
        },
        (DeployStage::MakingDir, DeployEvent::DirMade(d)) => match d {
            Err(e) => finish(f, DeployOutcome::Failed(DeployFailure::Io(e))),
            Ok(_) => goto(f, DeployStage::Launching),
        },
        (DeployStage::Launching, DeployEvent::Launched(l)) => match l {
            Err(e) => cleanup(f, DeployOutcome::Failed(DeployFailure::Io(e))),
            Ok(_) => if f.was_running {
                goto(f, DeployStage::Stopping)
            } else {
                goto(f, DeployStage::Unlocking)
            },
        },
        (DeployStage::Stopping, DeployEvent::Stopped(ok)) => if !ok {
            cleanup(f, DeployOutcome::Failed(DeployFailure::NotStopped))
        } else {
            goto(f, DeployStage::Unlocking)
        },
        (DeployStage::Unlocking, DeployEvent::Unlocked(u)) => match u {
            Some(true) => goto(f, DeployStage::Collecting),
            None => goto(f, DeployStage::Pausing),
            Some(false) => if f.was_running {
                goto(f, DeployStage::RelaunchingAfterLock)
            } else {
                cleanup(f, DeployOutcome::Failed(DeployFailure::StillLocked))
            },
        },
        (DeployStage::Pausing, DeployEvent::Paused) => goto(f, DeployStage::Collecting),
        (DeployStage::RelaunchingAfterLock, DeployEvent::Relaunched) => cleanup(
            f,
            DeployOutcome::Failed(DeployFailure::StillLocked),
        ),
        (DeployStage::Collecting, DeployEvent::Collected(c)) => match c {
            Err(e) => cleanup(f, DeployOutcome::Failed(DeployFailure::Io(e))),
            Ok(text) => if helper_ok(text@) {
                cleanup(f, DeployOutcome::Done)
            } else {
                cleanup(f, DeployOutcome::Failed(DeployFailure::Helper(text)))
            },
        },
        (DeployStage::CleaningUp, DeployEvent::CleanedUp) => match f.pending {
            Some(o) => if f.was_running && from_helper(o) {
                goto(f, DeployStage::Relaunching)
            } else {
                finish(f, o)
            },
            None => finish(f, DeployOutcome::Done),
        },
        (DeployStage::Relaunching, DeployEvent::Relaunched) => match f.pending {
            Some(o) => finish(f, o),
            None => finish(f, DeployOutcome::Done),
        },
        _ => (f, stage_action(f)),
    }
}

/// A deployment's consistency: an outcome is held exactly while cleaning up or starting
/// KuGou again, and the stages after the DLL's check are reached only when it passed.
pub open spec fn deploy_inv(f: DeployFlow) -> bool {
    &&& (f.pending is Some <==> (f.stage == DeployStage::CleaningUp || f.stage
        == DeployStage::Relaunching))
    &&& (match f.stage {
        DeployStage::MakingDir | DeployStage::Launching | DeployStage::Stopping
        | DeployStage::Unlocking | DeployStage::Pausing | DeployStage::RelaunchingAfterLock
        | DeployStage::Collecting => f.checked,
        _ => true,
    })
    &&& (f.stage == DeployStage::ProbingRunning && f.mode == HelperMode::Restore ==> f.checked)
    &&& (f.stage == DeployStage::Relaunching ==> f.was_running)
    &&& (f.stage == DeployStage::Stopping ==> f.was_running)
    &&& (f.stage == DeployStage::RelaunchingAfterLock ==> f.was_running)
}

/// Starts installing (`Patch`) or removing (`Restore`) the enhancement.
pub fn start_deploy(mode: HelperMode) -> (r: (DeployFlow, DeployAction))
    ensures
        deploy_inv(r.0),
        !r.0.was_running && !r.0.checked && r.0.mode == mode,
        mode == HelperMode::Patch ==> (r.0.stage == DeployStage::Start && r.1 is ProbeCdp),
        mode == HelperMode::Restore ==> (r.0.stage == DeployStage::Locating && r.1 is Locate),
{
    match mode {
        HelperMode::Patch => (
            DeployFlow { mode, stage: DeployStage::Start, was_running: false, checked: false, pending: None },
            DeployAction::ProbeCdp,
        ),
        HelperMode::Restore => (
            DeployFlow {
                mode,
                stage: DeployStage::Locating,
                was_running: false,
                checked: false,
                pending: None,
            },
            DeployAction::Locate,
        ),
    }
}

/// Installing the enhancement (the settings switch turned on): a deployment that
/// patches.
pub fn ensure_applied() -> (r: (DeployFlow, DeployAction))
    ensures
        deploy_inv(r.0),
        r.0.mode == HelperMode::Patch && r.0.stage == DeployStage::Start && r.1 is ProbeCdp,
        !r.0.was_running && !r.0.checked,
{
    start_deploy(HelperMode::Patch)
}

/// Removing the enhancement (the settings switch turned off): a deployment that
/// restores the backup.
pub fn revert() -> (r: (DeployFlow, DeployAction))
    ensures
        deploy_inv(r.0),
        r.0.mode == HelperMode::Restore && r.0.stage == DeployStage::Locating && r.1 is Locate,
        !r.0.was_running && !r.0.checked,
{
    start_deploy(HelperMode::Restore)
}

fn stage_action_of(f: &DeployFlow) -> (r: DeployAction)
    ensures
        r == stage_action(*f),
{
    match f.stage {
        DeployStage::Start => DeployAction::ProbeCdp,
        DeployStage::Locating => DeployAction::Locate,
        DeployStage::CheckingBackup => DeployAction::CheckBackup,
        DeployStage::ProbingRunning => DeployAction::ProbeRunning,
        DeployStage::ProbingRegistry => DeployAction::ProbeRegistry,
        DeployStage::Classifying => DeployAction::Classify,
        DeployStage::MakingDir => DeployAction::MakeControlDir,
        DeployStage::Launching => DeployAction::Launch(f.mode),
        DeployStage::Stopping => DeployAction::StopKugou,
        DeployStage::Unlocking => DeployAction::WaitUnlocked,
        DeployStage::Pausing => DeployAction::Pause(UNLOCK_GRACE_MS),
        DeployStage::RelaunchingAfterLock => DeployAction::RelaunchKugou,
        DeployStage::Collecting => DeployAction::Go,
        DeployStage::CleaningUp => DeployAction::RemoveControlDir,
        DeployStage::Relaunching => DeployAction::RelaunchKugou,
        DeployStage::Finished => DeployAction::RemoveControlDir,
    }
}

fn goto_exec(f: DeployFlow, stage: DeployStage) -> (r: (DeployFlow, DeployAction))
    ensures
        r == goto(f, stage),
{
    let g = DeployFlow { stage, ..f };
    let a = stage_action_of(&g);
    (g, a)
}

fn finish_exec(f: DeployFlow, o: DeployOutcome) -> (r: (DeployFlow, DeployAction))
    ensures
        r == finish(f, o),
{
    (DeployFlow { stage: DeployStage::Finished, pending: None, ..f }, DeployAction::Finish(o))
}

fn cleanup_exec(f: DeployFlow, o: DeployOutcome) -> (r: (DeployFlow, DeployAction))
    ensures
        r == cleanup(f, o),
{
    (DeployFlow { stage: DeployStage::CleaningUp, pending: Some(o), ..f }, DeployAction::RemoveControlDir)
}

/// Whether the helper's result text means success.
pub fn is_helper_ok(text: &str) -> (r: bool)
    ensures
        r == helper_ok(text@),
{
    let t = trim_chars(&chars_of(text));
    let ok = t.len() == 2 && t[0] == 'o' && t[1] == 'k';
    proof {
        reveal_strlit("ok");
        if ok {
            assert(t@ =~= "ok"@);
        }
    }
    ok
}

/// Advances a deployment by the report of its last action.
pub fn deploy_step(f: DeployFlow, ev: DeployEvent) -> (r: (DeployFlow, DeployAction))
    ensures
        r == spec_deploy_step(f, ev),
{
    let patch = match f.mode {
        HelperMode::Patch => true,
        HelperMode::Restore => false,
    };
    match f.stage {
        DeployStage::Start => match ev {
            DeployEvent::Cdp(up) => {
                if up {
                    finish_exec(f, DeployOutcome::AlreadyActive)
                } else {
                    goto_exec(f, DeployStage::Locating)
                }
            },
            _ => {
                let a = stage_action_of(&f);
                (f, a)
            },
        },
        DeployStage::Locating => match ev {
            DeployEvent::Located(found) => {
                if !found {
                    if patch {
                        finish_exec(f, DeployOutcome::Failed(DeployFailure::NotInstalled))
                    } else {
                        finish_exec(f, DeployOutcome::NothingToRestore)
                    }
                } else if patch {
                    goto_exec(f, DeployStage::ProbingRunning)
                } else {
                    goto_exec(f, DeployStage::CheckingBackup)
                }
            },
            _ => {
                let a = stage_action_of(&f);
                (f, a)
            },
        },
        DeployStage::CheckingBackup => match ev {
            DeployEvent::Backup(exists) => {
                if !exists {
                    finish_exec(f, DeployOutcome::NothingToRestore)
                } else {
                    goto_exec(DeployFlow { checked: true, ..f }, DeployStage::ProbingRunning)
                }
            },
            _ => {
                let a = stage_action_of(&f);
                (f, a)
            },
        },
        DeployStage::ProbingRunning => match ev {
            DeployEvent::Running(r) => {
                let g = DeployFlow { was_running: r, ..f };
                if !patch {
                    goto_exec(g, DeployStage::MakingDir)
                } else if !r {
                    goto_exec(g, DeployStage::ProbingRegistry)
                } else {
                    goto_exec(g, DeployStage::Classifying)
                }
            },
            _ => {
                let a = stage_action_of(&f);
                (f, a)
            },
        },
        DeployStage::ProbingRegistry => match ev {
            DeployEvent::Registry(known) => {
                if !known {
                    finish_exec(f, DeployOutcome::Failed(DeployFailure::VersionUnknown))
                } else {
                    goto_exec(f, DeployStage::Classifying)
                }
            },
            _ => {
                let a = stage_action_of(&f);
                (f, a)
            },
        },
        DeployStage::Classifying => match ev {
            DeployEvent::Classified(c) => match c {
                Err(e) => finish_exec(f, DeployOutcome::Failed(DeployFailure::Io(e))),
                Ok(PatchState::Unsupported) => finish_exec(
                    f,
                    DeployOutcome::Failed(DeployFailure::UnsupportedDll),
                ),
                Ok(_) => goto_exec(DeployFlow { checked: true, ..f }, DeployStage::MakingDir),
            },
            _ => {
                let a = stage_action_of(&f);
                (f, a)
            },
        },
        DeployStage::MakingDir => match ev {
            DeployEvent::DirMade(d) => match d {
                Err(e) => finish_exec(f, DeployOutcome::Failed(DeployFailure::Io(e))),
                Ok(_) => goto_exec(f, DeployStage::Launching),
            },
            _ => {
                let a = stage_action_of(&f);
                (f, a)
            },
        },
        DeployStage::Launching => match ev {
            DeployEvent::Launched(l) => match l {
                Err(e) => cleanup_exec(f, DeployOutcome::Failed(DeployFailure::Io(e))),
                Ok(_) => {
                    if f.was_running {
                        goto_exec(f, DeployStage::Stopping)
                    } else {
                        goto_exec(f, DeployStage::Unlocking)
                    }
                },
            },
            _ => {
                let a = stage_action_of(&f);
                (f, a)
            },
        },
        DeployStage::Stopping => match ev {
            DeployEvent::Stopped(ok) => {
                if !ok {
                    cleanup_exec(f, DeployOutcome::Failed(DeployFailure::NotStopped))
                } else {
                    goto_exec(f, DeployStage::Unlocking)
                }
            },
            _ => {
                let a = stage_action_of(&f);
                (f, a)
            },
        },
        DeployStage::Unlocking => match ev {
            DeployEvent::Unlocked(u) => match u {
                Some(true) => goto_exec(f, DeployStage::Collecting),
                None => goto_exec(f, DeployStage::Pausing),
                Some(false) => {
                    if f.was_running {
                        goto_exec(f, DeployStage::RelaunchingAfterLock)
                    } else {
                        cleanup_exec(f, DeployOutcome::Failed(DeployFailure::StillLocked))
                    }
                },
            },
            _ => {
                let a = stage_action_of(&f);
                (f, a)
            },
        },
        DeployStage::Pausing => match ev {
            DeployEvent::Paused => goto_exec(f, DeployStage::Collecting),
            _ => {
                let a = stage_action_of(&f);
                (f, a)
            },
        },
        DeployStage::RelaunchingAfterLock => match ev {
            DeployEvent::Relaunched => cleanup_exec(
                f,
                DeployOutcome::Failed(DeployFailure::StillLocked),
            ),
            _ => {
                let a = stage_action_of(&f);
                (f, a)
            },
        },
        DeployStage::Collecting => match ev {
            DeployEvent::Collected(c) => match c {
                Err(e) => cleanup_exec(f, DeployOutcome::Failed(DeployFailure::Io(e))),
                Ok(text) => {
                    if is_helper_ok(text.as_str()) {
                        cleanup_exec(f, DeployOutcome::Done)
                    } else {
                        cleanup_exec(f, DeployOutcome::Failed(DeployFailure::Helper(text)))
                    }
                },
            },
            _ => {
                let a = stage_action_of(&f);
                (f, a)
            },
        },
        DeployStage::CleaningUp => match ev {
            DeployEvent::CleanedUp => {
                let DeployFlow { mode, stage, was_running, checked, pending } = f;
                let g = DeployFlow { mode, stage, was_running, checked, pending: None };
                match pending {
                    Some(o) => {
                        let helper = match &o {
                            DeployOutcome::Done => true,
                            DeployOutcome::Failed(DeployFailure::Helper(_)) => true,
                            _ => false,
                        };
                        if was_running && helper {
                            goto_exec(DeployFlow { pending: Some(o), ..g }, DeployStage::Relaunching)
                        } else {
                            finish_exec(g, o)
                        }
                    },
                    None => finish_exec(g, DeployOutcome::Done),
                }
            },
            _ => {
                let a = stage_action_of(&f);
                (f, a)
            },
        },
        DeployStage::Relaunching => match ev {
            DeployEvent::Relaunched => {
                let DeployFlow { mode, stage, was_running, checked, pending } = f;
                let g = DeployFlow { mode, stage, was_running, checked, pending: None };
                match pending {
                    Some(o) => finish_exec(g, o),
                    None => finish_exec(g, DeployOutcome::Done),
                }
            },
            _ => {
                let a = stage_action_of(&f);
                (f, a)
            },
        },
        DeployStage::Finished => {
            let a = stage_action_of(&f);
            (f, a)
        },
    }
}

} // verus!

verus! {

/// Every step keeps a deployment consistent.
pub proof fn law_deploy_inv_kept(f: DeployFlow, ev: DeployEvent)
    requires
        deploy_inv(f),
    ensures
        deploy_inv(spec_deploy_step(f, ev).0),
{
}

/// The elevated helper is released to write only after the DLL passed its check (a
/// known fingerprint when patching, an existing backup when restoring).
pub proof fn law_helper_writes_only_after_check(f: DeployFlow, ev: DeployEvent)
    requires
        deploy_inv(f),
        spec_deploy_step(f, ev).1 is Go,
    ensures
        spec_deploy_step(f, ev).0.checked,
        f.checked,
{
}

/// A deployment's check passes only by a check: a classification other than
/// unsupported (patching) or an existing backup (restoring).
pub proof fn law_checked_only_by_check(f: DeployFlow, ev: DeployEvent)
    requires
        !f.checked,
        spec_deploy_step(f, ev).0.checked,
    ensures
        (f.stage == DeployStage::Classifying && (ev matches DeployEvent::Classified(Ok(p)) && p
            != PatchState::Unsupported)) || (f.stage == DeployStage::CheckingBackup && (ev matches DeployEvent::Backup(
            true,
        ))),
{
}

/// KuGou is stopped or started again only when it was running when the deployment
/// probed it.
pub proof fn law_kugou_touched_only_when_it_ran(f: DeployFlow, ev: DeployEvent)
    requires
        deploy_inv(f),
        spec_deploy_step(f, ev).1 is StopKugou || spec_deploy_step(f, ev).1 is RelaunchKugou,
    ensures
        spec_deploy_step(f, ev).0.was_running,
{
}

/// Whether KuGou was running comes from the probe alone.
pub proof fn law_running_only_from_probe(f: DeployFlow, ev: DeployEvent)
    requires
        spec_deploy_step(f, ev).0.was_running != f.was_running,
    ensures
        f.stage == DeployStage::ProbingRunning,
        ev matches DeployEvent::Running(r) && r == spec_deploy_step(f, ev).0.was_running,
{
}

/// A DLL with an unknown fingerprint is refused, never patched.
pub proof fn law_unknown_dll_refused(f: DeployFlow)
    requires
        f.stage == DeployStage::Classifying,
    ensures
        spec_deploy_step(f, DeployEvent::Classified(Ok(PatchState::Unsupported))).1 matches DeployAction::Finish(
            DeployOutcome::Failed(DeployFailure::UnsupportedDll),
        ),
{
}

} // verus!

verus! {

/// What the settings page is told when a deployment ends: `Ok` with a message, or the
/// error.
pub open spec fn spec_deploy_message(mode: HelperMode, was_running: bool, o: DeployOutcome) -> Result<
    Seq<char>,
    Seq<char>,
> {
    let patch = mode == HelperMode::Patch;
    match o {
        DeployOutcome::AlreadyActive => Ok("酷狗增强已生效。"@),
        DeployOutcome::NothingToRestore => Ok("已还原酷狗的 libcef.dll。"@),
        DeployOutcome::Done => if !patch {
            Ok("已还原酷狗的 libcef.dll。"@)
        } else if was_running {
            Ok("酷狗增强已安装，酷狗已重启。"@)
        } else {
            Ok("酷狗增强已安装，下次打开酷狗即生效。"@)
        },
        DeployOutcome::Failed(why) => Err(
            match why {
                DeployFailure::NotInstalled => "error.io: 没找到酷狗安装（或其中的 libcef.dll）"@,
                DeployFailure::VersionUnknown => "error.io: 认不准酷狗的版本目录，请先启动一次酷狗音乐，再打开本项"@,
                DeployFailure::UnsupportedDll => "error.denied: 这个酷狗版本的 libcef.dll 与已知补丁不符，不能自动修复（等适配）"@,
                DeployFailure::NotStopped => if patch {
                    "error.io: 酷狗没退出，补丁未应用"@
                } else {
                    "error.io: 酷狗没退出，无法还原 libcef.dll"@
                },
                DeployFailure::StillLocked => if patch {
                    "error.io: libcef.dll 仍被占用，补丁未应用"@
                } else {
                    "error.io: libcef.dll 仍被占用，无法还原"@
                },
                DeployFailure::Helper(text) => if patch {
                    "error.io: 补丁失败（"@ + text@ + "）"@
                } else {
                    "error.io: 还原失败（"@ + text@ + "）"@
                },
                DeployFailure::Io(e) => e.message@,
            },
        ),
    }
}

/// The message (or error) for the settings page when a deployment ends.
pub fn deploy_message(mode: HelperMode, was_running: bool, o: DeployOutcome) -> (r: Result<String, AppError>)
    ensures
        match (r, spec_deploy_message(mode, was_running, o)) {
            (Ok(m), Ok(x)) => m@ == x,
            (Err(e), Err(x)) => e.message@ == x,
            _ => false,
        },
{
    let patch = match mode {
        HelperMode::Patch => true,
        HelperMode::Restore => false,
    };
    match o {
        DeployOutcome::AlreadyActive => Ok("酷狗增强已生效。".to_owned()),
        DeployOutcome::NothingToRestore => Ok("已还原酷狗的 libcef.dll。".to_owned()),
        DeployOutcome::Done => {
            if !patch {
                Ok("已还原酷狗的 libcef.dll。".to_owned())
            } else if was_running {
                Ok("酷狗增强已安装，酷狗已重启。".to_owned())
            } else {
                Ok("酷狗增强已安装，下次打开酷狗即生效。".to_owned())
            }
        },
        DeployOutcome::Failed(why) => Err(
            match why {
                DeployFailure::NotInstalled => AppError::new("error.io: 没找到酷狗安装（或其中的 libcef.dll）"),
                DeployFailure::VersionUnknown => AppError::new(
                    "error.io: 认不准酷狗的版本目录，请先启动一次酷狗音乐，再打开本项",
                ),
                DeployFailure::UnsupportedDll => AppError::new(
                    "error.denied: 这个酷狗版本的 libcef.dll 与已知补丁不符，不能自动修复（等适配）",
                ),
                DeployFailure::NotStopped => {
                    if patch {
                        AppError::new("error.io: 酷狗没退出，补丁未应用")
                    } else {
                        AppError::new("error.io: 酷狗没退出，无法还原 libcef.dll")
                    }
                },
                DeployFailure::StillLocked => {
                    if patch {
                        AppError::new("error.io: libcef.dll 仍被占用，补丁未应用")
                    } else {
                        AppError::new("error.io: libcef.dll 仍被占用，无法还原")
                    }
                },
                DeployFailure::Helper(text) => {
                    if patch {
                        AppError { message: join3("error.io: 补丁失败（", text.as_str(), "）") }
                    } else {
                        AppError { message: join3("error.io: 还原失败（", text.as_str(), "）") }
                    }
                },
                DeployFailure::Io(e) => e,
            },
        ),
    }
}

/// A path as the helper's arguments and the registry give it: trimmed, then without
/// the quotes around it.
pub open spec fn spec_unquote_path(raw: Seq<char>) -> Seq<char> {
    strip_quotes(trim(raw))
}

/// `s` without leading and trailing `"` characters.
pub open spec fn strip_quotes(s: Seq<char>) -> Seq<char>
    decreases s.len(),
{
    if s.len() > 0 && s[0] == '"' {
        strip_quotes(s.drop_first())
    } else if s.len() > 0 && s.last() == '"' {
        strip_quotes(s.drop_last())
    } else {
        s
    }
}

/// The path a helper argument or the registry value names.
pub fn unquote_path(raw: &str) -> (r: String)
    ensures
        r@ == spec_unquote_path(raw@),
{
    let t = trim_chars(&chars_of(raw));
    let mut lo: usize = 0;
    let mut hi: usize = t.len();
    proof {
        assert(t@.subrange(0, t.len() as int) =~= t@);
    }
    while lo < hi && (t[lo] == '"' || t[hi - 1] == '"')
        invariant
            lo <= hi <= t.len(),
            strip_quotes(t@) == strip_quotes(t@.subrange(lo as int, hi as int)),
        decreases hi - lo,
    {
        let ghost s = t@.subrange(lo as int, hi as int);
        if t[lo] == '"' {
            proof {
                assert(s.drop_first() =~= t@.subrange(lo + 1, hi as int));
            }
            lo += 1;
        } else {
            proof {
                assert(s.drop_last() =~= t@.subrange(lo as int, hi - 1));
            }
            hi -= 1;
        }
    }
    string_of(&slice_chars(&t, lo, hi))
}

/// What the helper reports and exits with after its job (`None`: it was never
/// released): `timeout` and 3; `ok` and 0; or `failed: ` with the error and 4.
pub fn helper_report(done: Option<Result<(), AppError>>) -> (r: (String, i32))
    ensures
        done is None ==> r.0@ == "timeout"@ && r.1 == 3,
        done matches Some(Ok(_)) ==> r.0@ == "ok"@ && r.1 == 0,
        done matches Some(Err(e)) ==> r.0@ == "failed: "@ + e.message@ && r.1 == 4,
{
    proof {
        reveal_strlit("");
    }
    match done {
        None => ("timeout".to_owned(), 3),
        Some(Ok(_)) => ("ok".to_owned(), 0),
        Some(Err(e)) => (join3("failed: ", e.message.as_str(), ""), 4),
    }
}

/// The patch job before writing: reading the DLL failed, or its classification
/// decides alone (unknown fingerprint: refused; already patched: nothing to do);
/// `None` means write.
pub fn apply_precheck(classified: Result<PatchState, AppError>) -> (r: Option<Result<(), AppError>>)
    ensures
        match classified {
            Err(e) => r == Some(Err::<(), AppError>(e)),
            Ok(PatchState::Unsupported) => (r matches Some(Err(e)) && e.message@
                == "error.denied: libcef.dll 版本指纹不符（酷狗换过 CEF 基线），拒绝打补丁"@),
            Ok(PatchState::Patched) => r == Some(Ok::<(), AppError>(())),
            Ok(_) => r is None,
        },
{
    match classified {
        Err(e) => Some(Err(e)),
        Ok(PatchState::Unsupported) => Some(
            Err(AppError::new("error.denied: libcef.dll 版本指纹不符（酷狗换过 CEF 基线），拒绝打补丁")),
        ),
        Ok(PatchState::Patched) => Some(Ok(())),
        Ok(_) => None,
    }
}

/// Whether a write took: it succeeded and the DLL now reads as patched.
pub fn write_verified(write_ok: bool, after: &Result<PatchState, AppError>) -> (r: bool)
    ensures
        r == (write_ok && (after matches Ok(PatchState::Patched))),
{
    write_ok && match after {
        Ok(PatchState::Patched) => true,
        _ => false,
    }
}

/// The error after a write that did not take: restored from the backup (the backup is
/// then removed), or, when even that failed, where the backup was kept.
pub fn rollback_error(rolled_back: bool, backup: &str) -> (r: AppError)
    ensures
        rolled_back ==> r.message@ == "error.io: 补丁未生效（可能被杀软回滚），已从备份恢复"@,
        !rolled_back ==> r.message@ == "error.io: 补丁失败且回滚失败，原文件备份保留在 "@ + backup@,
{
    proof {
        reveal_strlit("");
    }
    if rolled_back {
        AppError::new("error.io: 补丁未生效（可能被杀软回滚），已从备份恢复")
    } else {
        AppError { message: join3("error.io: 补丁失败且回滚失败，原文件备份保留在 ", backup, "") }
    }
}

} // verus!

verus! {

/// A process image of the KuGou main program: `KuGou.exe` in any case, or a name
/// starting with `KuGou` (updates and second instances).
pub open spec fn spec_is_kugou_image(file_name: Seq<char>) -> bool {
    eq_ignore_ascii_case(file_name, "KuGou.exe"@) || "KuGou"@.is_prefix_of(file_name)
}

/// Whether a running process's image is the KuGou main program.
pub fn is_kugou_image(file_name: &str) -> (r: bool)
    ensures
        r == spec_is_kugou_image(file_name@),
{
    let n = chars_of(file_name);
    eq_ignore_ascii_case_chars(&n, &chars_of("KuGou.exe")) || starts_with_chars(&n, &chars_of("KuGou"))
}

/// The `libcef.dll` that KuGou loads, from the candidates that exist: the one next to
/// the running KuGou process (the only unambiguous answer); else the one in the version
/// directory the registry names; else, among the version directories' (path,
/// modification time), the most recently modified (the first such in listing order).
pub fn libcef_path(running: Option<String>, registered: Option<String>, versions: &Vec<(String, i128)>) -> (r:
    Option<String>)
    ensures
        running is Some ==> r == running,
        running is None && registered is Some ==> r == registered,
        running is None && registered is None ==> (r is None <==> versions.len() == 0),
        running is None && registered is None ==> (r matches Some(p) ==> exists|i: int|
            is_newest(
                versions@.map_values(|e: (String, i128)| e.1),
                Seq::new(versions.len() as nat, |j: int| true),
                i,
            ) && p@ == (#[trigger] versions@[i]).0@),
{
    if running.is_some() {
        return running;
    }
    if registered.is_some() {
        return registered;
    }
    let mut times: Vec<i128> = Vec::new();
    let mut keep: Vec<bool> = Vec::new();
    let mut i: usize = 0;
    while i < versions.len()
        invariant
            i <= versions.len(),
            times.len() == i && keep.len() == i,
            forall|j: int| 0 <= j < i ==> times@[j] == versions@[j].1 && keep@[j],
        decreases versions.len() - i,
    {
        times.push(versions[i].1);
        keep.push(true);
        i += 1;
    }
    proof {
        assert(times@ =~= versions@.map_values(|e: (String, i128)| e.1));
        assert(keep@ =~= Seq::new(versions.len() as nat, |j: int| true));
    }
    match newest_kept(&times, &keep) {
        Some(k) => {
            let p = versions[k].0.clone();
            proof {
                assert(p@ == versions@[k as int].0@);
            }
            Some(p)
        },
        None => {
            proof {
                if versions.len() > 0 {
                    assert(keep@[0]);
                }
            }
            None
        },
    }
}

} // verus!

verus! {

/// The helper's arguments on a command line: the three after the helper switch (mode,
/// `libcef.dll`, control directory), missing ones defaulting to `patch` and empty;
/// `None` without the switch.
pub open spec fn spec_helper_args(args: Seq<Seq<char>>) -> Option<(Seq<char>, Seq<char>, Seq<char>)> {
    match first_index_of(args, helper_flag(), 0) {
        None => None,
        Some(p) => Some(
            (
                if p + 1 < args.len() {
                    args[p + 1]
                } else {
                    "patch"@
                },
                if p + 2 < args.len() {
                    args[p + 2]
                } else {
                    Seq::empty()
                },
                if p + 3 < args.len() {
                    args[p + 3]
                } else {
                    Seq::empty()
                },
            ),
        ),
    }
}

/// The first index at or after `from` holding `x`.
pub open spec fn first_index_of(args: Seq<Seq<char>>, x: Seq<char>, from: int) -> Option<int>
    decreases args.len() - from,
{
    if from < 0 || from >= args.len() {
        None
    } else if args[from] == x {
        Some(from)
    } else {
        first_index_of(args, x, from + 1)
    }
}

fn arg_or(args: &Vec<String>, i: usize, default: &str) -> (r: String)
    ensures
        r@ == (if i < args.len() {
            args@[i as int]@
        } else {
            default@
        }),
{
    if i < args.len() {
        args[i].clone()
    } else {
        default.to_owned()
    }
}

/// The helper's (mode, `libcef.dll`, control directory) arguments when the command line
/// asks for the helper.
pub fn helper_args(args: &Vec<String>) -> (r: Option<(String, String, String)>)
    ensures
        r matches Some(t) ==> spec_helper_args(args@.map_values(|a: String| a@)) == Some(
            (t.0@, t.1@, t.2@),
        ),
        r is None ==> spec_helper_args(args@.map_values(|a: String| a@)) is None,
{
    let ghost av = args@.map_values(|a: String| a@);
    let flag = string_of(&chars_of("--kugou-patch-helper"));
    let mut i: usize = 0;
    while i < args.len()
        invariant
            i <= args.len(),
            av == args@.map_values(|a: String| a@),
            flag@ == helper_flag(),
            first_index_of(av, helper_flag(), 0) == first_index_of(av, helper_flag(), i as int),
        decreases args.len() - i,
    {
        proof {
            assert(av[i as int] == args@[i as int]@);
        }
        if same_text(args[i].as_str(), flag.as_str()) {
            proof {
                reveal_strlit("");
            }
            let mode = arg_or(args, i + 1, "patch");
            let rest = args.len() - i;
            let libcef = if rest > 2 {
                args[i + 2].clone()
            } else {
                String::new()
            };
            let control = if rest > 3 {
                args[i + 3].clone()
            } else {
                String::new()
            };
            proof {
                if i + 1 < args.len() {
                    assert(av[i + 1] == args@[i + 1]@);
                }
                if i + 2 < args.len() {
                    assert(av[i + 2] == args@[i + 2]@);
                }
                if i + 3 < args.len() {
                    assert(av[i + 3] == args@[i + 3]@);
                }
            }
            return Some((mode, libcef, control));
        }
        i += 1;
    }
    None
}

/// What the elevated helper works on: its mode and the unquoted paths; a missing
/// control directory ends it with exit code 2 before anything is written.
pub fn patch_helper_plan(mode: &str, libcef: &str, control: &str) -> (r: Result<(HelperMode, String, String), i32>)
    ensures
        spec_unquote_path(control@).len() == 0 ==> r == Err::<(HelperMode, String, String), i32>(2),
        spec_unquote_path(control@).len() > 0 ==> (r matches Ok(p) && p.0 == spec_mode_from_arg(mode@)
            && p.1@ == spec_unquote_path(libcef@) && p.2@ == spec_unquote_path(control@)),
{
    let m = HelperMode::from_arg(mode);
    let l = unquote_path(libcef);
    let c = unquote_path(control);
    if c.as_str().is_empty() {
        return Err(2);
    }
    Ok((m, l, c))
}

} // verus!
