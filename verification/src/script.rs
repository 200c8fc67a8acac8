//! The remote procedure: the script text shipped over the session, the
//! cache-flag selection rule it applies, and a model of its decision flow
//! with the guards the protocol promises.

use vstd::prelude::*;
use vstd::string::*;

verus! {

/// The text of the remote procedure. It takes seven positional parameters:
/// repository path, cache base path, target commit, the has-targets flag,
/// the subcommand, and the two shell-quoted token lists. Any change to the
/// parameter order or count is a breaking protocol change.
pub open spec fn remote_script_text() -> Seq<char> {
    r#"set -euo pipefail

REPO_DIR="$1"
CACHE_DIR="$2"
LOCAL_HEAD="$3"
HAS_TARGETS="$4"
SUBCMD="$5"
OPTS_Q="${6-}"
TARGETS_Q="${7-}"

cd "$REPO_DIR"
mkdir -p "$CACHE_DIR"

if ! git diff --quiet || ! git diff --cached --quiet; then
  echo "[rbazel][server] ERROR: server repo has local changes. Clean it first." >&2
  exit 3
fi

git fetch --all --prune >/dev/null 2>&1 || true
CURRENT_BRANCH="$(git symbolic-ref --short -q HEAD || true)"
if [[ -n "$CURRENT_BRANCH" ]]; then
  git pull --ff-only >/dev/null 2>&1 || true
fi
if git cat-file -e "${LOCAL_HEAD}^{commit}" 2>/dev/null; then
  git checkout -q --detach "$LOCAL_HEAD"
else
  echo "[rbazel][server] ERROR: commit not found on server after fetch: $LOCAL_HEAD" >&2
  exit 4
fi

STARTUP_HELP="$(bazel help startup_options 2>/dev/null || true)"
REPO_CACHE_FLAG=""
if echo "$STARTUP_HELP" | grep -q -- '--repository_cache'; then
  REPO_CACHE_FLAG="--repository_cache=${CACHE_DIR}/repo-cache"
elif echo "$STARTUP_HELP" | grep -q -- '--experimental_repository_cache'; then
  REPO_CACHE_FLAG="--experimental_repository_cache=${CACHE_DIR}/repo-cache"
fi

COMMON_STARTUP="--output_user_root=${CACHE_DIR}/bazel-out ${REPO_CACHE_FLAG}"

eval "bazel ${COMMON_STARTUP} ${SUBCMD} ${OPTS_Q} ${TARGETS_Q}"

EXECROOT="$(bazel ${COMMON_STARTUP} info execution_root)"
TMPBASE="/tmp/rbazel_${LOCAL_HEAD}_$$"
LIST="${TMPBASE}.files"
TGZ="${TMPBASE}.tgz"

if [[ "$HAS_TARGETS" == "1" ]]; then
  eval "bazel ${COMMON_STARTUP} cquery ${OPTS_Q} ${TARGETS_Q} \
    --output=starlark \
    --starlark:expr='\"\\n\".join([f.path for f in target.files.to_list()])' \
  " | sed '/^$/d' > "$LIST" || true
fi

if [[ ! -s "$LIST" ]]; then
  BIN="$(bazel ${COMMON_STARTUP} info bazel-bin)"
  cd "$EXECROOT"
  find "$BIN" -type f -printf '%P\n' | sed 's#^#'"${BIN##$EXECROOT/}"'/#' > "$LIST"
fi

cd "$EXECROOT"
tar -czf "$TGZ" -T "$LIST"

echo "$TGZ"
"#@
}

/// The remote procedure as the text handed to the session.
pub fn remote_script() -> (r: &'static str)
    ensures
        r@ == remote_script_text(),
{
    r#"set -euo pipefail

REPO_DIR="$1"
CACHE_DIR="$2"
LOCAL_HEAD="$3"
HAS_TARGETS="$4"
SUBCMD="$5"
OPTS_Q="${6-}"
TARGETS_Q="${7-}"

cd "$REPO_DIR"
mkdir -p "$CACHE_DIR"

if ! git diff --quiet || ! git diff --cached --quiet; then
  echo "[rbazel][server] ERROR: server repo has local changes. Clean it first." >&2
  exit 3
fi

git fetch --all --prune >/dev/null 2>&1 || true
CURRENT_BRANCH="$(git symbolic-ref --short -q HEAD || true)"
if [[ -n "$CURRENT_BRANCH" ]]; then
  git pull --ff-only >/dev/null 2>&1 || true
fi
if git cat-file -e "${LOCAL_HEAD}^{commit}" 2>/dev/null; then
  git checkout -q --detach "$LOCAL_HEAD"
else
  echo "[rbazel][server] ERROR: commit not found on server after fetch: $LOCAL_HEAD" >&2
  exit 4
fi

STARTUP_HELP="$(bazel help startup_options 2>/dev/null || true)"
REPO_CACHE_FLAG=""
if echo "$STARTUP_HELP" | grep -q -- '--repository_cache'; then
  REPO_CACHE_FLAG="--repository_cache=${CACHE_DIR}/repo-cache"
elif echo "$STARTUP_HELP" | grep -q -- '--experimental_repository_cache'; then
  REPO_CACHE_FLAG="--experimental_repository_cache=${CACHE_DIR}/repo-cache"
fi

COMMON_STARTUP="--output_user_root=${CACHE_DIR}/bazel-out ${REPO_CACHE_FLAG}"

eval "bazel ${COMMON_STARTUP} ${SUBCMD} ${OPTS_Q} ${TARGETS_Q}"

EXECROOT="$(bazel ${COMMON_STARTUP} info execution_root)"
TMPBASE="/tmp/rbazel_${LOCAL_HEAD}_$$"
LIST="${TMPBASE}.files"
TGZ="${TMPBASE}.tgz"

if [[ "$HAS_TARGETS" == "1" ]]; then
  eval "bazel ${COMMON_STARTUP} cquery ${OPTS_Q} ${TARGETS_Q} \
    --output=starlark \
    --starlark:expr='\"\\n\".join([f.path for f in target.files.to_list()])' \
  " | sed '/^$/d' > "$LIST" || true
fi

if [[ ! -s "$LIST" ]]; then
  BIN="$(bazel ${COMMON_STARTUP} info bazel-bin)"
  cd "$EXECROOT"
  find "$BIN" -type f -printf '%P\n' | sed 's#^#'"${BIN##$EXECROOT/}"'/#' > "$LIST"
fi

cd "$EXECROOT"
tar -czf "$TGZ" -T "$LIST"

echo "$TGZ"
"#
}

/// The cache-flag rule the remote procedure applies: the stable flag name
/// when the build tool's startup help offers it, else the experimental
/// name when offered, else no flag at all.
pub fn cache_flag(cache_dir: &str, stable: bool, experimental: bool) -> (r: Option<String>)
    ensures
        stable ==> r is Some && r->0@ == "--repository_cache="@ + cache_dir@ + "/repo-cache"@,
        !stable && experimental ==> r is Some && r->0@ == "--experimental_repository_cache="@
            + cache_dir@ + "/repo-cache"@,
        !stable && !experimental ==> r is None,
{
    if stable {
        let mut f = String::from_str("--repository_cache=");
        f.append(cache_dir);
        f.append("/repo-cache");
        Some(f)
    } else if experimental {
        let mut f = String::from_str("--experimental_repository_cache=");
        f.append(cache_dir);
        f.append("/repo-cache");
        Some(f)
    } else {
        None
    }
}

/// The common startup flags the remote procedure composes: the build
/// output root under the cache base, then the discovered cache flag when
/// there is one.
pub fn common_startup(cache_dir: &str, flag: &Option<String>) -> (r: String)
    ensures
        flag is Some ==> r@ == "--output_user_root="@ + cache_dir@ + "/bazel-out "@ + flag->0@,
        flag is None ==> r@ == "--output_user_root="@ + cache_dir@ + "/bazel-out "@,
{
    let mut r = String::from_str("--output_user_root=");
    r.append(cache_dir);
    r.append("/bazel-out ");
    match flag {
        Some(f) => {
            r.append(f.as_str());
            r
        },
        None => r,
    }
}

/// Where the remote procedure takes its artifact list from.
pub enum ListSource {
    /// The read-only query over exactly the explicit targets, one output
    /// path per line.
    TargetQuery,
    /// The fallback: every regular file under the binary-output root,
    /// relative to the execution root.
    OutputTreeScan,
}

/// The fallback rule of the remote procedure: the per-target query list is
/// used exactly when explicit targets were given and the query produced
/// something; everything else falls back to scanning the output tree, so
/// that some artifact capture is guaranteed even for blanket builds.
pub fn artifact_list_source(has_targets: bool, query_nonempty: bool) -> (r: ListSource)
    ensures
        r is TargetQuery <==> has_targets && query_nonempty,
{
    if has_targets && query_nonempty {
        ListSource::TargetQuery
    } else {
        ListSource::OutputTreeScan
    }
}

/// How a run of the remote procedure ends, as seen from the protocol.
pub enum RemoteOutcome {
    /// The server repository had uncommitted changes; nothing was mutated.
    DirtyServerRepo,
    /// The target commit was not resolvable after fetching; the commit id
    /// is carried so the error can name it.
    MissingCommit { commit: String },
    /// The build or packaging itself failed after a clean, resolvable
    /// checkout.
    BuildFailed,
    /// The archive named here was produced and its path printed as the
    /// procedure's sole output line.
    Archive { path: String },
}

/// The archive path the remote procedure writes: unique per commit and
/// remote process.
pub open spec fn archive_path_spec(commit: Seq<char>, pid: Seq<char>) -> Seq<char> {
    "/tmp/rbazel_"@ + commit + "_"@ + pid + ".tgz"@
}

/// The four ways a remote run can end, payload-free.
pub enum RemoteOutcomeKind {
    Dirty,
    Missing,
    Failed,
    Built,
}

/// The decision flow of the remote procedure, as a function of what the
/// server-side probes find: the dirty check comes first, the commit check
/// second, and only then does the build run.
pub open spec fn remote_outcome_kind(
    repo_clean: bool,
    commit_present: bool,
    build_ok: bool,
) -> RemoteOutcomeKind {
    if !repo_clean {
        RemoteOutcomeKind::Dirty
    } else if !commit_present {
        RemoteOutcomeKind::Missing
    } else if !build_ok {
        RemoteOutcomeKind::Failed
    } else {
        RemoteOutcomeKind::Built
    }
}

/// The kind of a concrete outcome.
pub open spec fn kind_of(o: RemoteOutcome) -> RemoteOutcomeKind {
    match o {
        RemoteOutcome::DirtyServerRepo => RemoteOutcomeKind::Dirty,
        RemoteOutcome::MissingCommit { .. } => RemoteOutcomeKind::Missing,
        RemoteOutcome::BuildFailed => RemoteOutcomeKind::Failed,
        RemoteOutcome::Archive { .. } => RemoteOutcomeKind::Built,
    }
}

/// Replays the remote procedure's decisions on the probe results.
pub fn remote_outcome(
    repo_clean: bool,
    commit_present: bool,
    build_ok: bool,
    commit: &str,
    pid: &str,
) -> (r: RemoteOutcome)
    ensures
        kind_of(r) == remote_outcome_kind(repo_clean, commit_present, build_ok),
        repo_clean && !commit_present ==> r is MissingCommit && r->commit@ == commit@,
        repo_clean && commit_present && build_ok ==> r is Archive && r->path@
            == archive_path_spec(commit@, pid@),
{
    if !repo_clean {
        RemoteOutcome::DirtyServerRepo
    } else if !commit_present {
        RemoteOutcome::MissingCommit { commit: String::from_str(commit) }
    } else if !build_ok {
        RemoteOutcome::BuildFailed
    } else {
        let mut p = String::from_str("/tmp/rbazel_");
        p.append(commit);
        p.append("_");
        p.append(pid);
        p.append(".tgz");
        RemoteOutcome::Archive { path: p }
    }
}

/// The distinct exit codes of the two remote guards: a dirty server
/// repository and a missing commit never share a code.
pub fn remote_failure_code(outcome: &RemoteOutcome) -> (r: Option<u8>)
    ensures
        outcome is DirtyServerRepo ==> r == Some(3u8),
        outcome is MissingCommit ==> r == Some(4u8),
        outcome is BuildFailed || outcome is Archive ==> r is None,
{
    match outcome {
        RemoteOutcome::DirtyServerRepo => Some(3),
        RemoteOutcome::MissingCommit { .. } => Some(4),
        RemoteOutcome::BuildFailed => None,
        RemoteOutcome::Archive { .. } => None,
    }
}

/// Missing-commit guard: on a clean server repository with an absent
/// commit, the run ends as a missing-commit failure whatever the build
/// would have done — the build result has no influence on the outcome,
/// which is the model's way of saying no build tool invocation occurs.
pub proof fn lemma_missing_commit_guard(build_ok_a: bool, build_ok_b: bool)
    ensures
        remote_outcome_kind(true, false, build_ok_a) == RemoteOutcomeKind::Missing,
        remote_outcome_kind(true, false, build_ok_a) == remote_outcome_kind(
            true,
            false,
            build_ok_b,
        ),
{
}

} // verus!
