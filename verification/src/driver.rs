//! The run orchestration: a step machine that takes the outcome of one
//! outside operation at a time and decides the next operation. The caller
//! performs each returned action (a subprocess, the remote session, a
//! transfer) and feeds the observed outcome back in; every decision the
//! run makes lives here.

use vstd::prelude::*;
use vstd::string::*;
use crate::args::{classify_args, options_of, targets_of, views};
use crate::config::{remote_cache_spec, remote_cache_path, Config};
use crate::quoting::{joined, push_quoted, shell_join_quoted};
use crate::repo::trimmed;
use crate::repo::trim_output;
use crate::script::{remote_script, remote_script_text};

verus! {

/// The usage text printed when no subcommand is left after stripping the
/// optional passthrough token.
pub open spec fn usage_text() -> Seq<char> {
    "Usage:\n  rbazel-rs [bazel] <subcommand> [bazel-args...]\n\nExamples:\n  rbazel-rs version\n  rbazel-rs build --config=aarch64_musl //system/...:target\n  rbazel-rs bazel build //...\n\nResult artifacts will be pulled to:\n  ./_rbazel_artifacts/<branch>/<timestamp>/\n"@
}

/// The usage text as a value.
pub fn usage() -> (r: String)
    ensures
        r@ == usage_text(),
{
    String::from_str(
        "Usage:\n  rbazel-rs [bazel] <subcommand> [bazel-args...]\n\nExamples:\n  rbazel-rs version\n  rbazel-rs build --config=aarch64_musl //system/...:target\n  rbazel-rs bazel build //...\n\nResult artifacts will be pulled to:\n  ./_rbazel_artifacts/<branch>/<timestamp>/\n",
    )
}

/// The error reported when the local tree or index holds uncommitted
/// changes.
pub open spec fn dirty_message() -> Seq<char> {
    "dirty working tree. Commit/stash before running server-repo build."@
}

/// The error reported when the remote session succeeds but prints no
/// usable archive path.
pub open spec fn empty_archive_message() -> Seq<char> {
    "remote tarball path is empty"@
}

/// Confirms that a required local command is present.
pub fn need(cmd: &str, present: bool) -> (r: Result<(), String>)
    ensures
        r is Ok <==> present,
        (r matches Err(m) ==> m@ == "missing command: "@ + cmd@),
{
    if present {
        Ok(())
    } else {
        let mut m = String::from_str("missing command: ");
        m.append(cmd);
        Err(m)
    }
}

/// The local commands a run depends on, probed before any other work.
pub open spec fn tool_names() -> Seq<Seq<char>> {
    seq!["ssh"@, "rsync"@, "git"@, "tar"@]
}

/// The name of one required tool.
pub fn tool_name(idx: usize) -> (r: String)
    requires
        idx < 4,
    ensures
        r@ == tool_names()[idx as int],
{
    if idx == 0 {
        String::from_str("ssh")
    } else if idx == 1 {
        String::from_str("rsync")
    } else if idx == 2 {
        String::from_str("git")
    } else {
        String::from_str("tar")
    }
}

/// Where a run stands: which outside operation it is waiting on, with the
/// values resolved so far.
pub enum Phase {
    /// Probing required tool number `idx`.
    Probing { idx: usize },
    /// Waiting for the repository root path.
    LocatingRoot,
    /// Waiting for the change into the repository root.
    ChangingDir,
    /// Waiting for the working-tree cleanliness check.
    CheckingTree,
    /// Waiting for the index cleanliness check.
    CheckingIndex,
    /// Waiting for the full commit hash.
    ReadingHead,
    /// Waiting for the symbolic branch name.
    ReadingBranch { head: String },
    /// Waiting for the short hash of a detached head.
    ReadingShort { head: String },
    /// Waiting for the timestamp.
    ReadingStamp { head: String, label: String },
    /// Waiting for the staging directory to be created.
    CreatingDir { head: String, out_dir: String },
    /// Waiting for the remote session to finish.
    AwaitingSession { out_dir: String },
    /// Waiting for the archive transfer.
    Pulling { out_dir: String, archive: String },
    /// Waiting for the extraction.
    Extracting { out_dir: String, archive: String },
    /// Waiting for the best-effort remote cleanup.
    CleaningUp { out_dir: String },
    /// The run succeeded; artifacts stand in `out_dir`.
    Finished { out_dir: String },
    /// The run aborted with this message.
    Failed { message: String },
}

/// The outcome of one outside operation, handed back to the machine.
pub enum Event {
    /// Whether a probed tool is present.
    Probe { present: bool },
    /// A captured-output command: its raw output on success, a diagnostic
    /// on failure.
    Capture { ok: bool, text: String },
    /// A status-only command: whether it could run, whether it passed, and
    /// a diagnostic for when it could not run.
    Status { ran: bool, passed: bool, text: String },
    /// The remote session: whether it started, whether it exited
    /// successfully, its decoded output if it decoded, and a diagnostic.
    Session { started: bool, passed: bool, output: Option<String>, text: String },
    /// A step that either succeeded or failed with a diagnostic.
    Done { ok: bool, text: String },
    /// A best-effort step whose outcome is deliberately ignored.
    Acknowledged,
}

/// What the caller is asked to do next.
pub enum Action {
    /// Probe whether a command is present.
    ProbeTool { name: String },
    /// Run a command and capture its standard output.
    RunCapture { cmd: String, args: Vec<String> },
    /// Run a command for its exit status alone.
    RunStatus { cmd: String, args: Vec<String> },
    /// Change the process working directory.
    ChangeDir { path: String },
    /// Create a directory and its parents.
    MakeDir { path: String },
    /// Open the one remote session: ship the script with its positional
    /// arguments and capture its single output line.
    OpenSession { host: String, args: Vec<String>, script: String },
    /// Run a transfer or extraction command; failure is fatal.
    Transfer { cmd: String, args: Vec<String> },
    /// Issue the best-effort remote deletion; its outcome is ignored.
    CleanupRemote { host: String, command: String },
    /// The run is complete; report the staging directory.
    Report { out_dir: String },
    /// The run is over; report the failure.
    Abort { message: String },
}

/// One run of the driver: the resolved endpoint, the classified
/// invocation, and the phase the run stands in.
pub struct Driver {
    pub cfg: Config,
    pub subcmd: String,
    pub opts: Vec<String>,
    pub targets: Vec<String>,
    pub phase: Phase,
}

/// The argument list with one optional leading passthrough token removed.
pub open spec fn stripped_args(vs: Seq<Seq<char>>) -> Seq<Seq<char>> {
    if vs.len() > 0 && vs[0] == "bazel"@ {
        vs.drop_first()
    } else {
        vs
    }
}

/// A phase that accepts no further event.
pub open spec fn is_terminal(p: Phase) -> bool {
    p is Finished || p is Failed
}

/// The event shape each phase waits for.
pub open spec fn event_fits_spec(p: Phase, ev: Event) -> bool {
    match p {
        Phase::Probing { .. } => ev is Probe,
        Phase::LocatingRoot => ev is Capture,
        Phase::ChangingDir => ev is Done,
        Phase::CheckingTree => ev is Status,
        Phase::CheckingIndex => ev is Status,
        Phase::ReadingHead => ev is Capture,
        Phase::ReadingBranch { .. } => ev is Capture,
        Phase::ReadingShort { .. } => ev is Capture,
        Phase::ReadingStamp { .. } => ev is Capture,
        Phase::CreatingDir { .. } => ev is Done,
        Phase::AwaitingSession { .. } => ev is Session,
        Phase::Pulling { .. } => ev is Done,
        Phase::Extracting { .. } => ev is Done,
        Phase::CleaningUp { .. } => ev is Acknowledged,
        Phase::Finished { .. } => false,
        Phase::Failed { .. } => false,
    }
}

/// The well-formedness the machine keeps.
pub open spec fn driver_wf(d: Driver) -> bool {
    d.phase matches Phase::Probing { idx } ==> idx < 4
}

/// The phases by shape alone, for stating laws about whole runs.
pub enum PhaseKind {
    Probing { idx: usize },
    LocatingRoot,
    ChangingDir,
    CheckingTree,
    CheckingIndex,
    ReadingHead,
    ReadingBranch,
    ReadingShort,
    ReadingStamp,
    CreatingDir,
    AwaitingSession,
    Pulling,
    Extracting,
    CleaningUp,
    Finished,
    Failed,
}

/// The shape of a phase.
pub open spec fn phase_kind(p: Phase) -> PhaseKind {
    match p {
        Phase::Probing { idx } => PhaseKind::Probing { idx },
        Phase::LocatingRoot => PhaseKind::LocatingRoot,
        Phase::ChangingDir => PhaseKind::ChangingDir,
        Phase::CheckingTree => PhaseKind::CheckingTree,
        Phase::CheckingIndex => PhaseKind::CheckingIndex,
        Phase::ReadingHead => PhaseKind::ReadingHead,
        Phase::ReadingBranch { .. } => PhaseKind::ReadingBranch,
        Phase::ReadingShort { .. } => PhaseKind::ReadingShort,
        Phase::ReadingStamp { .. } => PhaseKind::ReadingStamp,
        Phase::CreatingDir { .. } => PhaseKind::CreatingDir,
        Phase::AwaitingSession { .. } => PhaseKind::AwaitingSession,
        Phase::Pulling { .. } => PhaseKind::Pulling,
        Phase::Extracting { .. } => PhaseKind::Extracting,
        Phase::CleaningUp { .. } => PhaseKind::CleaningUp,
        Phase::Finished { .. } => PhaseKind::Finished,
        Phase::Failed { .. } => PhaseKind::Failed,
    }
}

/// How the run moves between phase shapes: the abstract machine that
/// `step` refines. An event that does not fit, or one that reports a
/// failure, ends the run; the two terminal shapes absorb every event.
pub open spec fn next_kind(k: PhaseKind, ev: Event) -> PhaseKind {
    match k {
        PhaseKind::Probing { idx } => if ev is Probe && ev->Probe_present {
            if idx < 3 {
                PhaseKind::Probing { idx: (idx + 1) as usize }
            } else {
                PhaseKind::LocatingRoot
            }
        } else {
            PhaseKind::Failed
        },
        PhaseKind::LocatingRoot => if ev is Capture && ev->Capture_ok {
            PhaseKind::ChangingDir
        } else {
            PhaseKind::Failed
        },
        PhaseKind::ChangingDir => if ev is Done && ev->Done_ok {
            PhaseKind::CheckingTree
        } else {
            PhaseKind::Failed
        },
        PhaseKind::CheckingTree => if ev is Status && ev->Status_ran && ev->Status_passed {
            PhaseKind::CheckingIndex
        } else {
            PhaseKind::Failed
        },
        PhaseKind::CheckingIndex => if ev is Status && ev->Status_ran && ev->Status_passed {
            PhaseKind::ReadingHead
        } else {
            PhaseKind::Failed
        },
        PhaseKind::ReadingHead => if ev is Capture && ev->Capture_ok {
            PhaseKind::ReadingBranch
        } else {
            PhaseKind::Failed
        },
        PhaseKind::ReadingBranch => if ev is Capture && ev->Capture_ok {
            if trimmed(ev->Capture_text@) == "HEAD"@ {
                PhaseKind::ReadingShort
            } else {
                PhaseKind::ReadingStamp
            }
        } else {
            PhaseKind::Failed
        },
        PhaseKind::ReadingShort => if ev is Capture && ev->Capture_ok {
            PhaseKind::ReadingStamp
        } else {
            PhaseKind::Failed
        },
        PhaseKind::ReadingStamp => if ev is Capture && ev->Capture_ok {
            PhaseKind::CreatingDir
        } else {
            PhaseKind::Failed
        },
        PhaseKind::CreatingDir => if ev is Done && ev->Done_ok {
            PhaseKind::AwaitingSession
        } else {
            PhaseKind::Failed
        },
        PhaseKind::AwaitingSession => if ev is Session && ev->Session_started
            && ev->Session_passed && ev->Session_output is Some && trimmed(
            ev->Session_output->0@,
        ).len() != 0 {
            PhaseKind::Pulling
        } else {
            PhaseKind::Failed
        },
        PhaseKind::Pulling => if ev is Done && ev->Done_ok {
            PhaseKind::Extracting
        } else {
            PhaseKind::Failed
        },
        PhaseKind::Extracting => if ev is Done && ev->Done_ok {
            PhaseKind::CleaningUp
        } else {
            PhaseKind::Failed
        },
        PhaseKind::CleaningUp => if ev is Acknowledged {
            PhaseKind::Finished
        } else {
            PhaseKind::Failed
        },
        PhaseKind::Finished => PhaseKind::Finished,
        PhaseKind::Failed => PhaseKind::Failed,
    }
}

/// The one point of the run where the remote session opens.
pub open spec fn opens_session(k: PhaseKind, ev: Event) -> bool {
    k is CreatingDir && ev is Done && ev->Done_ok
}

/// Where the abstract machine stands after a whole event sequence.
pub open spec fn run_kind(k: PhaseKind, evs: Seq<Event>) -> PhaseKind
    decreases evs.len(),
{
    if evs.len() == 0 {
        k
    } else {
        run_kind(next_kind(k, evs[0]), evs.drop_first())
    }
}

/// Whether a session opens anywhere along an event sequence.
pub open spec fn session_opened_during(k: PhaseKind, evs: Seq<Event>) -> bool
    decreases evs.len(),
{
    if evs.len() == 0 {
        false
    } else {
        opens_session(k, evs[0]) || session_opened_during(
            next_kind(k, evs[0]),
            evs.drop_first(),
        )
    }
}

/// An event reporting that a cleanliness check found changes.
pub open spec fn dirty_answer(ev: Event) -> bool {
    ev is Status && ev->Status_ran && !ev->Status_passed
}

proof fn lemma_failed_absorbs(evs: Seq<Event>)
    ensures
        run_kind(PhaseKind::Failed, evs) is Failed,
        !session_opened_during(PhaseKind::Failed, evs),
    decreases evs.len(),
{
    if evs.len() > 0 {
        lemma_failed_absorbs(evs.drop_first());
    }
}

/// Dirty-tree guard, over whole runs: when either cleanliness check
/// answers that the tree or the index holds changes, the run stands failed
/// from that point on and no remote session opens during anything that
/// follows — whatever events come after.
pub proof fn lemma_dirty_tree_blocks_session(k: PhaseKind, evs: Seq<Event>)
    requires
        evs.len() > 0,
        k is CheckingTree || k is CheckingIndex,
        dirty_answer(evs[0]),
    ensures
        run_kind(k, evs) is Failed,
        !session_opened_during(k, evs),
{
    assert(next_kind(k, evs[0]) is Failed);
    assert(!opens_session(k, evs[0]));
    lemma_failed_absorbs(evs.drop_first());
}

/// The staging directory for a run: pull base, safe branch label,
/// timestamp.
pub open spec fn staging_dir_spec(base: Seq<char>, safe: Seq<char>, stamp: Seq<char>) -> Seq<
    char,
> {
    base + "/"@ + safe + "/"@ + stamp
}

/// The positional arguments of the remote session, in protocol order:
/// the shell, script-on-stdin mode, the separator, then the repository
/// path, the cache path, the commit, the has-targets flag, the
/// subcommand, and the two shell-quoted token lists.
pub open spec fn session_args_spec(d: Driver, head: Seq<char>) -> Seq<Seq<char>> {
    seq![
        "bash"@,
        "-s"@,
        "--"@,
        d.cfg.server_repo_dir@,
        remote_cache_spec(d.cfg),
        head,
        if d.targets@.len() == 0 {
            "0"@
        } else {
            "1"@
        },
        d.subcmd@,
        joined(views(d.opts@)),
        joined(views(d.targets@)),
    ]
}

fn push_str_arg(v: &mut Vec<String>, s: &str)
    ensures
        views(final(v)@) == views(old(v)@).push(s@),
{
    v.push(String::from_str(s));
    proof {
        assert(views(v@) =~= views(old(v)@).push(s@));
    }
}

fn push_string_arg(v: &mut Vec<String>, s: String)
    ensures
        views(final(v)@) == views(old(v)@).push(s@),
{
    let ghost sv = s@;
    v.push(s);
    proof {
        assert(views(v@) =~= views(old(v)@).push(sv));
    }
}

fn fail_with(message: String) -> (r: (Phase, Action))
    ensures
        (r.0 matches Phase::Failed { message: m } && m@ == message@),
        (r.1 matches Action::Abort { message: m } && m@ == message@),
{
    let m2 = message.clone();
    (Phase::Failed { message: m2 }, Action::Abort { message })
}

impl Driver {
    /// Starts a run: strips the optional passthrough token, takes the
    /// subcommand, classifies the remaining tokens, and asks for the
    /// first tool probe. An invocation with nothing left after the
    /// passthrough token is a usage error.
    pub fn new(cfg: Config, cli_args: Vec<String>) -> (r: Result<(Driver, Action), String>)
        ensures
            (r is Err <==> stripped_args(views(cli_args@)).len() == 0),
            (r matches Err(m) ==> m@ == usage_text()),
            (r matches Ok((d, a)) ==> {
                let rest = stripped_args(views(cli_args@));
                &&& d.cfg == cfg
                &&& d.subcmd@ == rest[0]
                &&& views(d.targets@) == targets_of(rest.drop_first())
                &&& views(d.opts@) == options_of(rest.drop_first())
                &&& (d.phase matches Phase::Probing { idx } && idx == 0)
                &&& driver_wf(d)
                &&& (a matches Action::ProbeTool { name } && name@ == tool_names()[0])
            }),
    {
        let pass = String::from_str("bazel");
        let has_pass = cli_args.len() > 0 && cli_args[0] == pass;
        let start: usize = if has_pass {
            1
        } else {
            0
        };
        proof {
            let vs = views(cli_args@);
            if has_pass {
                assert(stripped_args(vs) =~= vs.drop_first());
            } else {
                assert(stripped_args(vs) =~= vs);
            }
        }
        if cli_args.len() == start {
            return Err(usage());
        }
        let subcmd = cli_args[start].clone();
        let mut rest: Vec<String> = Vec::new();
        let mut i: usize = start + 1;
        while i < cli_args.len()
            invariant
                start + 1 <= i <= cli_args.len(),
                views(rest@) == views(cli_args@).subrange(start + 1 as int, i as int),
            decreases cli_args.len() - i,
        {
            let a = cli_args[i].clone();
            push_string_arg(&mut rest, a);
            proof {
                assert(views(cli_args@).subrange(start + 1 as int, i + 1 as int) =~= views(
                    cli_args@,
                ).subrange(start + 1 as int, i as int).push(cli_args@[i as int]@));
            }
            i += 1;
        }
        let (targets, opts) = classify_args(&rest);
        proof {
            let vs = views(cli_args@);
            let rest_v = stripped_args(vs);
            assert(views(rest@) =~= rest_v.drop_first());
            assert(subcmd@ == rest_v[0]);
        }
        let d = Driver {
            cfg,
            subcmd,
            opts,
            targets,
            phase: Phase::Probing { idx: 0 },
        };
        let a = Action::ProbeTool { name: tool_name(0) };
        Ok((d, a))
    }

    /// Whether an event has the shape the current phase waits for; the
    /// caller checks this before stepping.
    pub fn event_fits(&self, ev: &Event) -> (r: bool)
        ensures
            r == event_fits_spec(self.phase, *ev),
    {
        match &self.phase {
            Phase::Probing { .. } => matches!(ev, Event::Probe { .. }),
            Phase::LocatingRoot => matches!(ev, Event::Capture { .. }),
            Phase::ChangingDir => matches!(ev, Event::Done { .. }),
            Phase::CheckingTree => matches!(ev, Event::Status { .. }),
            Phase::CheckingIndex => matches!(ev, Event::Status { .. }),
            Phase::ReadingHead => matches!(ev, Event::Capture { .. }),
            Phase::ReadingBranch { .. } => matches!(ev, Event::Capture { .. }),
            Phase::ReadingShort { .. } => matches!(ev, Event::Capture { .. }),
            Phase::ReadingStamp { .. } => matches!(ev, Event::Capture { .. }),
            Phase::CreatingDir { .. } => matches!(ev, Event::Done { .. }),
            Phase::AwaitingSession { .. } => matches!(ev, Event::Session { .. }),
            Phase::Pulling { .. } => matches!(ev, Event::Done { .. }),
            Phase::Extracting { .. } => matches!(ev, Event::Done { .. }),
            Phase::CleaningUp { .. } => matches!(ev, Event::Acknowledged),
            Phase::Finished { .. } => false,
            Phase::Failed { .. } => false,
        }
    }

    /// Feeds the outcome of the last action in and decides the next one.
    ///
    /// The contract pins every transition. In particular: a dirty answer
    /// to either cleanliness check aborts the run at once, the one remote
    /// session is opened only from the phase that follows both cleanliness
    /// checks and the staging-directory creation, a session that exits
    /// well but prints no usable archive path aborts, and the machine
    /// reaches the cleanliness and session phases only along that single
    /// path.
    pub fn step(&mut self, ev: Event) -> (a: Action)
        requires
            driver_wf(*old(self)),
            !is_terminal(old(self).phase),
            event_fits_spec(old(self).phase, ev),
        ensures
            driver_wf(*final(self)),
            final(self).cfg == old(self).cfg,
            final(self).subcmd == old(self).subcmd,
            final(self).opts == old(self).opts,
            final(self).targets == old(self).targets,
            // step refines the abstract machine of phase shapes
            phase_kind(final(self).phase) == next_kind(phase_kind(old(self).phase), ev),
            a is OpenSession <==> opens_session(phase_kind(old(self).phase), ev),
            // failures and aborts coincide, with the same message
            final(self).phase is Failed <==> a is Abort,
            final(self).phase is Failed ==> a->Abort_message@ == final(self).phase->Failed_message@,
            // tool probes, in order
            old(self).phase is Probing && !ev->Probe_present ==> a is Abort && a->Abort_message@
                == "missing command: "@ + tool_names()[old(self).phase->Probing_idx as int],
            old(self).phase is Probing && old(self).phase->Probing_idx < 3 && ev->Probe_present
                ==> final(self).phase is Probing && final(self).phase->Probing_idx
                == old(self).phase->Probing_idx + 1 && a is ProbeTool && a->ProbeTool_name@
                == tool_names()[old(self).phase->Probing_idx as int + 1],
            old(self).phase is Probing && old(self).phase->Probing_idx == 3 && ev->Probe_present
                ==> final(self).phase is LocatingRoot && a is RunCapture && a->RunCapture_cmd@
                == "git"@ && views(a->RunCapture_args@) == seq!["rev-parse"@, "--show-toplevel"@],
            // repository root
            old(self).phase is LocatingRoot && ev->Capture_ok ==> final(self).phase is ChangingDir
                && a is ChangeDir && a->ChangeDir_path@ == trimmed(ev->Capture_text@),
            old(self).phase is LocatingRoot && !ev->Capture_ok ==> a is Abort && a->Abort_message@
                == ev->Capture_text@,
            old(self).phase is ChangingDir && ev->Done_ok ==> final(self).phase is CheckingTree
                && a is RunStatus && a->RunStatus_cmd@ == "git"@ && views(a->RunStatus_args@)
                == seq!["diff"@, "--quiet"@],
            old(self).phase is ChangingDir && !ev->Done_ok ==> a is Abort && a->Abort_message@
                == ev->Done_text@,
            // the dirty-tree guard: either check answering "dirty" aborts
            (old(self).phase is CheckingTree || old(self).phase is CheckingIndex)
                && ev->Status_ran && !ev->Status_passed ==> final(self).phase is Failed && a
                is Abort && a->Abort_message@ == dirty_message(),
            (old(self).phase is CheckingTree || old(self).phase is CheckingIndex)
                && !ev->Status_ran ==> a is Abort && a->Abort_message@ == ev->Status_text@,
            old(self).phase is CheckingTree && ev->Status_ran && ev->Status_passed
                ==> final(self).phase is CheckingIndex && a is RunStatus && a->RunStatus_cmd@
                == "git"@ && views(a->RunStatus_args@) == seq!["diff"@, "--cached"@, "--quiet"@],
            old(self).phase is CheckingIndex && ev->Status_ran && ev->Status_passed
                ==> final(self).phase is ReadingHead && a is RunCapture && a->RunCapture_cmd@
                == "git"@ && views(a->RunCapture_args@) == seq!["rev-parse"@, "HEAD"@],
            // the cleanliness phases are reached only along the single path
            final(self).phase is CheckingTree ==> old(self).phase is ChangingDir,
            final(self).phase is CheckingIndex ==> old(self).phase is CheckingTree
                && ev->Status_ran && ev->Status_passed,
            final(self).phase is ReadingHead ==> old(self).phase is CheckingIndex
                && ev->Status_ran && ev->Status_passed,
            // identity resolution
            old(self).phase is ReadingHead && ev->Capture_ok ==> final(self).phase
                is ReadingBranch && final(self).phase->ReadingBranch_head@ == trimmed(
                ev->Capture_text@,
            ) && a is RunCapture && a->RunCapture_cmd@ == "git"@ && views(a->RunCapture_args@)
                == seq!["rev-parse"@, "--abbrev-ref"@, "HEAD"@],
            old(self).phase is ReadingBranch && ev->Capture_ok && trimmed(ev->Capture_text@)
                == "HEAD"@ ==> final(self).phase is ReadingShort
                && final(self).phase->ReadingShort_head@ == old(self).phase->ReadingBranch_head@
                && a is RunCapture && a->RunCapture_cmd@ == "git"@ && views(a->RunCapture_args@)
                == seq!["rev-parse"@, "--short"@, "HEAD"@],
            old(self).phase is ReadingBranch && ev->Capture_ok && trimmed(ev->Capture_text@)
                != "HEAD"@ ==> final(self).phase is ReadingStamp
                && final(self).phase->ReadingStamp_head@ == old(self).phase->ReadingBranch_head@
                && final(self).phase->ReadingStamp_label@ == trimmed(ev->Capture_text@) && a
                is RunCapture && a->RunCapture_cmd@ == "date"@ && views(a->RunCapture_args@)
                == seq!["+%Y%m%d_%H%M%S"@],
            old(self).phase is ReadingShort && ev->Capture_ok ==> final(self).phase
                is ReadingStamp && final(self).phase->ReadingStamp_head@
                == old(self).phase->ReadingShort_head@ && final(self).phase->ReadingStamp_label@
                == "detached-"@ + trimmed(ev->Capture_text@) && a is RunCapture
                && a->RunCapture_cmd@ == "date"@ && views(a->RunCapture_args@)
                == seq!["+%Y%m%d_%H%M%S"@],
            old(self).phase is ReadingStamp && ev->Capture_ok ==> final(self).phase
                is CreatingDir && final(self).phase->CreatingDir_head@
                == old(self).phase->ReadingStamp_head@ && final(self).phase->CreatingDir_out_dir@
                == staging_dir_spec(
                old(self).cfg.local_pull_base@,
                crate::repo::sanitized(old(self).phase->ReadingStamp_label@),
                trimmed(ev->Capture_text@),
            ) && a is MakeDir && a->MakeDir_path@ == final(self).phase->CreatingDir_out_dir@,
            (old(self).phase is ReadingHead || old(self).phase is ReadingBranch || old(self).phase
                is ReadingShort || old(self).phase is ReadingStamp) && !ev->Capture_ok ==> a
                is Abort && a->Abort_message@ == ev->Capture_text@,
            // the one remote session
            old(self).phase is CreatingDir && ev->Done_ok ==> final(self).phase
                is AwaitingSession && final(self).phase->AwaitingSession_out_dir@
                == old(self).phase->CreatingDir_out_dir@ && a is OpenSession
                && a->OpenSession_host@ == old(self).cfg.server_host@ && views(
                a->OpenSession_args@,
            ) == session_args_spec(*old(self), old(self).phase->CreatingDir_head@)
                && a->OpenSession_script@ == remote_script_text(),
            old(self).phase is CreatingDir && !ev->Done_ok ==> a is Abort && a->Abort_message@
                == ev->Done_text@,
            a is OpenSession <==> old(self).phase is CreatingDir && ev->Done_ok,
            final(self).phase is AwaitingSession ==> old(self).phase is CreatingDir,
            final(self).phase is CreatingDir ==> old(self).phase is ReadingStamp,
            // session outcome
            old(self).phase is AwaitingSession && !ev->Session_started ==> a is Abort
                && a->Abort_message@ == ev->Session_text@,
            old(self).phase is AwaitingSession && ev->Session_started && !ev->Session_passed
                ==> a is Abort && a->Abort_message@ == ev->Session_text@,
            old(self).phase is AwaitingSession && ev->Session_started && ev->Session_passed
                && ev->Session_output is None ==> a is Abort && a->Abort_message@
                == ev->Session_text@,
            old(self).phase is AwaitingSession && ev->Session_started && ev->Session_passed
                && ev->Session_output is Some && trimmed(ev->Session_output->0@).len() == 0 ==> a
                is Abort && a->Abort_message@ == empty_archive_message(),
            old(self).phase is AwaitingSession && ev->Session_started && ev->Session_passed
                && ev->Session_output is Some && trimmed(ev->Session_output->0@).len() != 0
                ==> final(self).phase is Pulling && final(self).phase->Pulling_out_dir@
                == old(self).phase->AwaitingSession_out_dir@ && final(self).phase->Pulling_archive@
                == trimmed(ev->Session_output->0@) && a is Transfer && a->Transfer_cmd@
                == "rsync"@ && views(a->Transfer_args@) == seq![
                "-az"@,
                old(self).cfg.server_host@ + ":"@ + trimmed(ev->Session_output->0@),
                old(self).phase->AwaitingSession_out_dir@ + "/artifacts.tgz"@,
            ],
            // transfer, extraction, cleanup
            old(self).phase is Pulling && ev->Done_ok ==> final(self).phase is Extracting
                && final(self).phase->Extracting_out_dir@ == old(self).phase->Pulling_out_dir@
                && final(self).phase->Extracting_archive@ == old(self).phase->Pulling_archive@
                && a is Transfer && a->Transfer_cmd@ == "tar"@ && views(a->Transfer_args@)
                == seq![
                "-xzf"@,
                old(self).phase->Pulling_out_dir@ + "/artifacts.tgz"@,
                "-C"@,
                old(self).phase->Pulling_out_dir@,
            ],
            (old(self).phase is Pulling || old(self).phase is Extracting) && !ev->Done_ok ==> a
                is Abort && a->Abort_message@ == ev->Done_text@,
            old(self).phase is Extracting && ev->Done_ok ==> final(self).phase is CleaningUp
                && final(self).phase->CleaningUp_out_dir@
                == old(self).phase->Extracting_out_dir@ && a is CleanupRemote
                && a->CleanupRemote_host@ == old(self).cfg.server_host@
                && a->CleanupRemote_command@ == "rm -f "@ + crate::quoting::quoted(
                old(self).phase->Extracting_archive@,
            ),
            old(self).phase is CleaningUp ==> final(self).phase is Finished
                && final(self).phase->Finished_out_dir@ == old(self).phase->CleaningUp_out_dir@
                && a is Report && a->Report_out_dir@ == old(self).phase->CleaningUp_out_dir@,
    {
        let mut ph = Phase::LocatingRoot;
        core::mem::swap(&mut ph, &mut self.phase);
        let (np, a): (Phase, Action) = match ph {
            Phase::Probing { idx } => match ev {
                Event::Probe { present } => {
                    let name = tool_name(idx);
                    match need(name.as_str(), present) {
                        Err(m) => fail_with(m),
                        Ok(()) => {
                            if idx < 3 {
                                (
                                    Phase::Probing { idx: idx + 1 },
                                    Action::ProbeTool { name: tool_name(idx + 1) },
                                )
                            } else {
                                let mut args: Vec<String> = Vec::new();
                                push_str_arg(&mut args, "rev-parse");
                                push_str_arg(&mut args, "--show-toplevel");
                                proof {
                                    assert(views(args@) =~= seq![
                                        "rev-parse"@,
                                        "--show-toplevel"@,
                                    ]);
                                }
                                (
                                    Phase::LocatingRoot,
                                    Action::RunCapture { cmd: String::from_str("git"), args },
                                )
                            }
                        },
                    }
                },
                _ => unreached(),
            },
            Phase::LocatingRoot => match ev {
                Event::Capture { ok, text } => {
                    if ok {
                        let path = trim_output(text.as_str());
                        (Phase::ChangingDir, Action::ChangeDir { path })
                    } else {
                        fail_with(text)
                    }
                },
                _ => unreached(),
            },
            Phase::ChangingDir => match ev {
                Event::Done { ok, text } => {
                    if ok {
                        let mut args: Vec<String> = Vec::new();
                        push_str_arg(&mut args, "diff");
                        push_str_arg(&mut args, "--quiet");
                        proof {
                            assert(views(args@) =~= seq!["diff"@, "--quiet"@]);
                        }
                        (
                            Phase::CheckingTree,
                            Action::RunStatus { cmd: String::from_str("git"), args },
                        )
                    } else {
                        fail_with(text)
                    }
                },
                _ => unreached(),
            },
            Phase::CheckingTree => match ev {
                Event::Status { ran, passed, text } => {
                    if !ran {
                        fail_with(text)
                    } else if !passed {
                        fail_with(
                            String::from_str(
                                "dirty working tree. Commit/stash before running server-repo build.",
                            ),
                        )
                    } else {
                        let mut args: Vec<String> = Vec::new();
                        push_str_arg(&mut args, "diff");
                        push_str_arg(&mut args, "--cached");
                        push_str_arg(&mut args, "--quiet");
                        proof {
                            assert(views(args@) =~= seq!["diff"@, "--cached"@, "--quiet"@]);
                        }
                        (
                            Phase::CheckingIndex,
                            Action::RunStatus { cmd: String::from_str("git"), args },
                        )
                    }
                },
                _ => unreached(),
            },
            Phase::CheckingIndex => match ev {
                Event::Status { ran, passed, text } => {
                    if !ran {
                        fail_with(text)
                    } else if !passed {
                        fail_with(
                            String::from_str(
                                "dirty working tree. Commit/stash before running server-repo build.",
                            ),
                        )
                    } else {
                        let mut args: Vec<String> = Vec::new();
                        push_str_arg(&mut args, "rev-parse");
                        push_str_arg(&mut args, "HEAD");
                        proof {
                            assert(views(args@) =~= seq!["rev-parse"@, "HEAD"@]);
                        }
                        (
                            Phase::ReadingHead,
                            Action::RunCapture { cmd: String::from_str("git"), args },
                        )
                    }
                },
                _ => unreached(),
            },
            Phase::ReadingHead => match ev {
                Event::Capture { ok, text } => {
                    if ok {
                        let head = trim_output(text.as_str());
                        let mut args: Vec<String> = Vec::new();
                        push_str_arg(&mut args, "rev-parse");
                        push_str_arg(&mut args, "--abbrev-ref");
                        push_str_arg(&mut args, "HEAD");
                        proof {
                            assert(views(args@) =~= seq![
                                "rev-parse"@,
                                "--abbrev-ref"@,
                                "HEAD"@,
                            ]);
                        }
                        (
                            Phase::ReadingBranch { head },
                            Action::RunCapture { cmd: String::from_str("git"), args },
                        )
                    } else {
                        fail_with(text)
                    }
                },
                _ => unreached(),
            },
            Phase::ReadingBranch { head } => match ev {
                Event::Capture { ok, text } => {
                    if ok {
                        let b = trim_output(text.as_str());
                        let head_lit = String::from_str("HEAD");
                        if b == head_lit {
                            let mut args: Vec<String> = Vec::new();
                            push_str_arg(&mut args, "rev-parse");
                            push_str_arg(&mut args, "--short");
                            push_str_arg(&mut args, "HEAD");
                            proof {
                                assert(views(args@) =~= seq![
                                    "rev-parse"@,
                                    "--short"@,
                                    "HEAD"@,
                                ]);
                            }
                            (
                                Phase::ReadingShort { head },
                                Action::RunCapture { cmd: String::from_str("git"), args },
                            )
                        } else {
                            let mut args: Vec<String> = Vec::new();
                            push_str_arg(&mut args, "+%Y%m%d_%H%M%S");
                            proof {
                                assert(views(args@) =~= seq!["+%Y%m%d_%H%M%S"@]);
                            }
                            (
                                Phase::ReadingStamp { head, label: b },
                                Action::RunCapture { cmd: String::from_str("date"), args },
                            )
                        }
                    } else {
                        fail_with(text)
                    }
                },
                _ => unreached(),
            },
            Phase::ReadingShort { head } => match ev {
                Event::Capture { ok, text } => {
                    if ok {
                        let mut label = String::from_str("detached-");
                        let short = trim_output(text.as_str());
                        label.append(short.as_str());
                        let mut args: Vec<String> = Vec::new();
                        push_str_arg(&mut args, "+%Y%m%d_%H%M%S");
                        proof {
                            assert(views(args@) =~= seq!["+%Y%m%d_%H%M%S"@]);
                        }
                        (
                            Phase::ReadingStamp { head, label },
                            Action::RunCapture { cmd: String::from_str("date"), args },
                        )
                    } else {
                        fail_with(text)
                    }
                },
                _ => unreached(),
            },
            Phase::ReadingStamp { head, label } => match ev {
                Event::Capture { ok, text } => {
                    if ok {
                        let safe = crate::repo::sanitize_branch_label(label.as_str());
                        let stamp = trim_output(text.as_str());
                        let mut out_dir = self.cfg.local_pull_base.clone();
                        out_dir.append("/");
                        out_dir.append(safe.as_str());
                        out_dir.append("/");
                        out_dir.append(stamp.as_str());
                        let path = out_dir.clone();
                        (Phase::CreatingDir { head, out_dir }, Action::MakeDir { path })
                    } else {
                        fail_with(text)
                    }
                },
                _ => unreached(),
            },
            Phase::CreatingDir { head, out_dir } => match ev {
                Event::Done { ok, text } => {
                    if ok {
                        let ghost head_v = head@;
                        let mut args: Vec<String> = Vec::new();
                        push_str_arg(&mut args, "bash");
                        push_str_arg(&mut args, "-s");
                        push_str_arg(&mut args, "--");
                        push_string_arg(&mut args, self.cfg.server_repo_dir.clone());
                        push_string_arg(&mut args, remote_cache_path(&self.cfg));
                        push_string_arg(&mut args, head);
                        if self.targets.len() == 0 {
                            push_str_arg(&mut args, "0");
                        } else {
                            push_str_arg(&mut args, "1");
                        }
                        push_string_arg(&mut args, self.subcmd.clone());
                        push_string_arg(&mut args, shell_join_quoted(&self.opts));
                        push_string_arg(&mut args, shell_join_quoted(&self.targets));
                        proof {
                            assert(views(args@) =~= session_args_spec(*old(self), head_v));
                        }
                        let host = self.cfg.server_host.clone();
                        let script = String::from_str(remote_script());
                        (
                            Phase::AwaitingSession { out_dir },
                            Action::OpenSession { host, args, script },
                        )
                    } else {
                        fail_with(text)
                    }
                },
                _ => unreached(),
            },
            Phase::AwaitingSession { out_dir } => match ev {
                Event::Session { started, passed, output, text } => {
                    if !started {
                        fail_with(text)
                    } else if !passed {
                        fail_with(text)
                    } else {
                        match output {
                            None => fail_with(text),
                            Some(o) => {
                                let archive = trim_output(o.as_str());
                                if archive.as_str().unicode_len() == 0 {
                                    fail_with(String::from_str("remote tarball path is empty"))
                                } else {
                                    let mut src = self.cfg.server_host.clone();
                                    src.append(":");
                                    src.append(archive.as_str());
                                    let mut dst = out_dir.clone();
                                    dst.append("/artifacts.tgz");
                                    let ghost src_v = src@;
                                    let ghost dst_v = dst@;
                                    let mut args: Vec<String> = Vec::new();
                                    push_str_arg(&mut args, "-az");
                                    push_string_arg(&mut args, src);
                                    push_string_arg(&mut args, dst);
                                    proof {
                                        assert(views(args@) =~= seq!["-az"@, src_v, dst_v]);
                                    }
                                    (
                                        Phase::Pulling { out_dir, archive },
                                        Action::Transfer {
                                            cmd: String::from_str("rsync"),
                                            args,
                                        },
                                    )
                                }
                            },
                        }
                    }
                },
                _ => unreached(),
            },
            Phase::Pulling { out_dir, archive } => match ev {
                Event::Done { ok, text } => {
                    if ok {
                        let mut tgz = out_dir.clone();
                        tgz.append("/artifacts.tgz");
                        let ghost tgz_v = tgz@;
                        let mut args: Vec<String> = Vec::new();
                        push_str_arg(&mut args, "-xzf");
                        push_string_arg(&mut args, tgz);
                        push_str_arg(&mut args, "-C");
                        push_string_arg(&mut args, out_dir.clone());
                        proof {
                            assert(views(args@) =~= seq!["-xzf"@, tgz_v, "-C"@, out_dir@]);
                        }
                        (
                            Phase::Extracting { out_dir, archive },
                            Action::Transfer { cmd: String::from_str("tar"), args },
                        )
                    } else {
                        fail_with(text)
                    }
                },
                _ => unreached(),
            },
            Phase::Extracting { out_dir, archive } => match ev {
                Event::Done { ok, text } => {
                    if ok {
                        let host = self.cfg.server_host.clone();
                        let mut command = String::from_str("rm -f ");
                        push_quoted(&mut command, archive.as_str());
                        (
                            Phase::CleaningUp { out_dir },
                            Action::CleanupRemote { host, command },
                        )
                    } else {
                        fail_with(text)
                    }
                },
                _ => unreached(),
            },
            Phase::CleaningUp { out_dir } => match ev {
                Event::Acknowledged => {
                    let od = out_dir.clone();
                    (Phase::Finished { out_dir }, Action::Report { out_dir: od })
                },
                _ => unreached(),
            },
            Phase::Finished { .. } => unreached(),
            Phase::Failed { .. } => unreached(),
        };
        self.phase = np;
        a
    }
}

} // verus!
