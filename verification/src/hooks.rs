//! What the commit hooks of a client decide: which files to ask about before
//! a commit, where to ask, and what the answer means for the commit.

use vstd::prelude::*;
use vstd::string::*;
use crate::client::{push_local_branches, SyncError, REPO_UUID_KEY};
use crate::git::{
    attribute_state,
    list_statuses,
    open_repository,
    read_config_string,
    settle,
    is_commit_id,
    AttributeState,
    GitFailure,
    StatusRecord,
};
use crate::server::STATUS_OK;
use crate::shared::{
    break_repo_uuid,
    is_repo_uuid,
    uuid_username,
    ConflictsAfterCommitRequest,
    ConflictsAfterCommitResponse,
    GitPath,
    RepositoryExtensions,
    UnintegratedChange,
    UnintegratedChangeView,
};

verus! {

/// The setting that holds the url of the query service.
pub const GLOBALGRAPH_SERVER_KEY: &'static str = "globalgraph.server";

/// The path of the query for conflicts, below the url of the service.
pub const CONFLICTS_ENDPOINT: &'static str = "v1/conflicts_after_commit";

/// The attribute that marks a file as one to ask about.
pub const LOCKABLE_ATTRIBUTE: &'static str = "lockable";

/// Why a commit could not be checked.
#[derive(Debug, PartialEq)]
pub enum HookError {
    /// The repository could not be mirrored before the check.
    Synchronization(SyncError),
    /// The repository could not be read.
    Repository(GitFailure),
    /// The setting `globalgraph.server` is missing or cannot be read.
    MissingServerUrl(GitFailure),
    /// The setting `globalgraph.server` holds no url to ask at.
    InvalidServerUrl(String),
    /// The setting `globalgraph.repouuid` is missing or cannot be read.
    MissingRepositoryUuid(GitFailure),
    /// The directory that the hook runs in could not be found out.
    CurrentDirectory(String),
    /// The request could not be sent, or no answer came.
    Transport(String),
    /// The service answered with another status than success.
    BadStatus(u16),
    /// The service's answer could not be read.
    InvalidResponse,
}

/// What `url::Url::join` gives for `path` on the url that `url::Url::parse`
/// reads from `base`, as text: `None` where either call fails.
pub uninterp spec fn url_join(base: Seq<char>, path: Seq<char>) -> Option<Seq<char>>;

/// `url::Url::join` on `url::Url::parse`: the url of `path` relative to
/// the url `base`, as text, or `None` where `base` is no absolute url or the
/// two cannot be joined.
#[verifier::external_body]
fn join_url(base: &str, path: &str) -> (joined: Option<String>)
    ensures
        joined is Some <==> url_join(base@, path@) is Some,
        joined is Some ==> joined->Some_0@ == url_join(base@, path@)->Some_0,
{
    url::Url::parse(base).ok()?.join(path).ok().map(String::from)
}

/// The url to send the query to, given the url of the service and what
/// joining the query's path to it gave.
pub fn endpoint_of(server: &str, joined: Option<String>) -> (r: Result<String, HookError>)
    ensures
        match joined {
            Some(url) => r == Ok::<String, HookError>(url),
            None => r is Err && r->Err_0 is InvalidServerUrl && r->Err_0->InvalidServerUrl_0@
                == server@,
        },
{
    match joined {
        Some(url) => Ok(url),
        None => Err(HookError::InvalidServerUrl(server.to_owned())),
    }
}

/// The url to send the query for conflicts to, for the service at `server`.
pub fn query_endpoint(server: &str) -> (r: Result<String, HookError>)
    ensures
        r is Ok <==> url_join(server@, CONFLICTS_ENDPOINT@) is Some,
        r is Ok ==> r->Ok_0@ == url_join(server@, CONFLICTS_ENDPOINT@)->Some_0,
        r is Err ==> r->Err_0 is InvalidServerUrl && r->Err_0->InvalidServerUrl_0@ == server@,
{
    endpoint_of(server, join_url(server, CONFLICTS_ENDPOINT))
}

/// The status flags of a file that is new, modified, deleted or renamed in
/// the index: the four lowest bits of `git2::Status`.
pub const STAGED_CHANGE_BITS: u32 = 15;

/// Whether a file with the status flags `bits` is part of the commit to
/// come: whether the index holds a change to it.
pub fn is_staged_change(bits: u32) -> (b: bool)
    ensures
        b == (bits & STAGED_CHANGE_BITS != 0),
        b == is_staged(bits),
{
    bits & STAGED_CHANGE_BITS != 0
}

/// Whether an attribute that is set to `state` marks its file.
pub fn is_set(state: AttributeState) -> (b: bool)
    ensures
        b == (state == AttributeState::True),
{
    match state {
        AttributeState::True => true,
        _ => false,
    }
}

/// Whether a file with the status flags `bits` has a change in the index.
pub open spec fn is_staged(bits: u32) -> bool {
    bits & STAGED_CHANGE_BITS != 0
}

/// The paths among `records` that the commit to come changes: the path of
/// every record with a change in the index, in the order of the records. A
/// record without a path in UTF-8 is left out.
pub open spec fn staged_among(records: Seq<StatusRecord>) -> Seq<String> {
    records.filter_map(
        |record: StatusRecord|
            if is_staged(record.bits) {
                record.path
            } else {
                None::<String>
            },
    )
}

/// The paths that the commit to come changes, given the status of every
/// file.
pub fn staged_paths(records: &Vec<StatusRecord>) -> (paths: Vec<String>)
    ensures
        paths@ == staged_among(records@),
{
    let ghost pick = |record: StatusRecord|
        if is_staged(record.bits) {
            record.path
        } else {
            None::<String>
        };
    let mut paths: Vec<String> = Vec::new();
    let mut i: usize = 0;
    assert(records@.take(0).filter_map(pick) =~= Seq::<String>::empty());
    while i < records.len()
        invariant
            i <= records.len(),
            paths@ == records@.take(i as int).filter_map(pick),
            pick == (|record: StatusRecord|
                if is_staged(record.bits) {
                    record.path
                } else {
                    None::<String>
                }),
        decreases records.len() - i,
    {
        proof {
            records@.lemma_filter_map_take_succ(pick, i as int);
        }
        if is_staged_change(records[i].bits) {
            match &records[i].path {
                Some(path) => {
                    paths.push(path.clone());
                },
                None => {},
            }
        }
        i += 1;
    }
    assert(records@.take(records@.len() as int) =~= records@);
    paths
}

/// The texts of the paths among `candidates` that the attribute marks: the
/// path of every candidate whose attribute is set to true, in their order.
pub open spec fn lockable_among(candidates: Seq<(String, AttributeState)>) -> Seq<Seq<char>> {
    candidates.filter_map(
        |candidate: (String, AttributeState)|
            if candidate.1 == AttributeState::True {
                Some(candidate.0@)
            } else {
                None::<Seq<char>>
            },
    )
}

/// The texts of `files`.
pub open spec fn paths_of(files: Seq<GitPath>) -> Seq<Seq<char>> {
    files.map_values(|file: GitPath| file@)
}

/// The files to ask about, given each path that the commit changes with
/// what its attribute `lockable` is set to.
pub fn lockable_files(candidates: &Vec<(String, AttributeState)>) -> (files: Vec<GitPath>)
    ensures
        paths_of(files@) == lockable_among(candidates@),
{
    let ghost pick = |candidate: (String, AttributeState)|
        if candidate.1 == AttributeState::True {
            Some(candidate.0@)
        } else {
            None::<Seq<char>>
        };
    let mut files: Vec<GitPath> = Vec::new();
    let mut i: usize = 0;
    assert(paths_of(files@) =~= candidates@.take(0).filter_map(pick));
    while i < candidates.len()
        invariant
            i <= candidates.len(),
            paths_of(files@) == candidates@.take(i as int).filter_map(pick),
            pick == (|candidate: (String, AttributeState)|
                if candidate.1 == AttributeState::True {
                    Some(candidate.0@)
                } else {
                    None::<Seq<char>>
                }),
        decreases candidates.len() - i,
    {
        proof {
            candidates@.lemma_filter_map_take_succ(pick, i as int);
        }
        if is_set(candidates[i].1) {
            let ghost before = files@;
            let file = GitPath::new(candidates[i].0.as_str());
            files.push(file);
            assert(paths_of(files@) =~= paths_of(before).push(file@));
        }
        i += 1;
    }
    assert(candidates@.take(candidates@.len() as int) =~= candidates@);
    files
}

/// The files to ask about before the commit to come: every file with a
/// change in the index that the attribute `lockable` marks. A path that is
/// not UTF-8 is left out. Which files those are is for the repository to
/// say, so nothing is stated of the list here: `staged_paths` picks the paths
/// among the status records that came back, the attribute is asked for each
/// of them, and `lockable_files` makes the list from the answers.
pub fn lockable_staged_files(repo: &git2::Repository) -> (r: Result<Vec<GitPath>, HookError>)
    ensures
        r is Err ==> r->Err_0 is Repository,
{
    let statuses = match settle(list_statuses(repo)) {
        Ok(statuses) => statuses,
        Err(failure) => {
            return Err(HookError::Repository(failure));
        },
    };
    let staged = staged_paths(&statuses);
    let mut candidates: Vec<(String, AttributeState)> = Vec::new();
    let mut i: usize = 0;
    while i < staged.len()
        invariant
            i <= staged.len(),
        decreases staged.len() - i,
    {
        let state = match settle(attribute_state(repo, staged[i].as_str(), LOCKABLE_ATTRIBUTE)) {
            Ok(state) => state,
            Err(failure) => {
                return Err(HookError::Repository(failure));
            },
        };
        candidates.push((staged[i].clone(), state));
        i += 1;
    }
    Ok(lockable_files(&candidates))
}

/// A query for conflicts, ready to be sent: where to, and what.
#[derive(Debug, PartialEq)]
pub struct ConflictQuery {
    pub url: String,
    pub payload: ConflictsAfterCommitRequest,
}

/// Prepares the check of the commit to come in the repository at
/// `repository_path`: mirrors the repository, then puts the query together
/// from the repository's settings, its head and the lockable files that the
/// index changes.
pub fn prepare_query(repository_path: &str) -> (r: Result<ConflictQuery, HookError>)
    ensures
        r is Ok ==> exists|server: Seq<char>| #[trigger]
            url_join(server, CONFLICTS_ENDPOINT@) == Some(r->Ok_0.url@),
        r is Ok && r->Ok_0.payload.repo_head_commit is Some ==> is_commit_id(
            r->Ok_0.payload.repo_head_commit->Some_0@,
        ),
        r is Err ==> !(r->Err_0 is CurrentDirectory || r->Err_0 is Transport
            || r->Err_0 is BadStatus || r->Err_0 is InvalidResponse),
{
    let repo = match settle(open_repository(repository_path)) {
        Ok(repo) => repo,
        Err(failure) => {
            return Err(HookError::Synchronization(SyncError::Repository(failure)));
        },
    };
    match push_local_branches(&repo) {
        Ok(_) => {},
        Err(e) => {
            return Err(HookError::Synchronization(e));
        },
    }
    let server = match settle(read_config_string(&repo, GLOBALGRAPH_SERVER_KEY)) {
        Ok(server) => server,
        Err(failure) => {
            return Err(HookError::MissingServerUrl(failure));
        },
    };
    let url = match query_endpoint(server.as_str()) {
        Ok(url) => url,
        Err(e) => {
            return Err(e);
        },
    };
    let repo_uuid = match settle(read_config_string(&repo, REPO_UUID_KEY)) {
        Ok(repo_uuid) => repo_uuid,
        Err(failure) => {
            return Err(HookError::MissingRepositoryUuid(failure));
        },
    };
    let files = match lockable_staged_files(&repo) {
        Ok(files) => files,
        Err(e) => {
            return Err(e);
        },
    };
    let repo_head_commit = match repo.head_safe() {
        Ok(head) => head,
        Err(failure) => {
            return Err(HookError::Repository(failure));
        },
    };
    assert(url_join(server@, CONFLICTS_ENDPOINT@) == Some(url@));
    Ok(
        ConflictQuery {
            url,
            payload: ConflictsAfterCommitRequest { files, repo_head_commit, repo_uuid },
        },
    )
}

/// Reads the service's answer: the conflicts that it found, given the
/// status of the answer and its body, where it could be read. Any status but
/// success is an error, whatever the body holds.
pub fn conflicts_of_answer(status: u16, body: Option<ConflictsAfterCommitResponse>) -> (r: Result<
    Vec<UnintegratedChange>,
    HookError,
>)
    ensures
        r is Ok <==> status == STATUS_OK && body is Some,
        r is Ok ==> r->Ok_0 == body->Some_0.conflicts,
        status != STATUS_OK ==> r is Err && r->Err_0 == HookError::BadStatus(status),
        status == STATUS_OK && body is None ==> r is Err && r->Err_0 is InvalidResponse,
{
    if status != STATUS_OK {
        return Err(HookError::BadStatus(status));
    }
    match body {
        Some(response) => Ok(response.conflicts),
        None => Err(HookError::InvalidResponse),
    }
}

/// Whether the commit may go on, given the conflicts that the service found:
/// only if there is none.
pub fn is_clear(conflicts: &Vec<UnintegratedChange>) -> (clear: bool)
    ensures
        clear == (conflicts@.len() == 0),
{
    conflicts.len() == 0
}

/// The exit status of a commit that may go on.
pub const EXIT_CLEAR: i32 = 0;

/// The exit status of a commit that could not be checked.
pub const EXIT_FAILURE: i32 = 1;

/// The exit status of a commit that conflicts with another client's work.
pub const EXIT_CONFLICTS: i32 = 2;

/// The exit status of the hook that runs before a commit, which is zero only
/// if the commit may go on. A commit with conflicts is always stopped; one
/// that could not be checked is stopped unless `force` asks to go on.
pub fn exit_status(outcome: &Result<bool, HookError>, force: bool) -> (status: i32)
    ensures
        status == match *outcome {
            Ok(true) => EXIT_CLEAR,
            Ok(false) => EXIT_CONFLICTS,
            Err(_) => if force {
                EXIT_CLEAR
            } else {
                EXIT_FAILURE
            },
        },
{
    match outcome {
        Ok(true) => EXIT_CLEAR,
        Ok(false) => EXIT_CONFLICTS,
        Err(_) => if force {
            EXIT_CLEAR
        } else {
            EXIT_FAILURE
        },
    }
}

/// The user that a repository uuid names, or `<Unknown User>` for a text
/// that is no repository uuid.
pub open spec fn user_of(repo_uuid: Seq<char>) -> Seq<char> {
    if is_repo_uuid(repo_uuid) {
        uuid_username(repo_uuid)
    } else {
        "<Unknown User>"@
    }
}

/// The user whose repository has the uuid `repo_uuid`.
pub fn conflicting_user(repo_uuid: &str) -> (user: String)
    ensures
        user@ == user_of(repo_uuid@),
{
    match break_repo_uuid(repo_uuid) {
        Ok(info) => info.username,
        Err(_) => String::from_str("<Unknown User>"),
    }
}

/// The four lines that report one conflict: the file and the user, then the
/// repository, the branch and the commit that hold the other version.
pub open spec fn conflict_lines(conflict: UnintegratedChangeView) -> Seq<Seq<char>> {
    seq![
        "    Local file ["@ + conflict.file
            + "] is in conflict with another version of the file, committed by user ["@
            + user_of(conflict.repo_uuid) + "]. Conflicting version:"@,
        "      Repository UUID: ["@ + conflict.repo_uuid + "]"@,
        "      Branch: ["@ + conflict.branch + "]"@,
        "      Commit: ["@ + conflict.commit + "]"@,
    ]
}

/// The lines that report the first `n` of `conflicts`, in their order.
pub open spec fn report_lines(conflicts: Seq<UnintegratedChange>, n: int) -> Seq<Seq<char>>
    decreases n,
{
    if n <= 0 {
        Seq::empty()
    } else {
        report_lines(conflicts, n - 1) + conflict_lines(conflicts[n - 1]@)
    }
}

/// The texts of `lines`.
pub open spec fn texts_of(lines: Seq<String>) -> Seq<Seq<char>> {
    lines.map_values(|line: String| line@)
}

/// The lines that report one conflict to the user.
pub fn describe_conflict(conflict: &UnintegratedChange) -> (lines: Vec<String>)
    ensures
        texts_of(lines@) == conflict_lines(conflict@),
{
    let user = conflicting_user(conflict.repo_uuid.as_str());
    let mut lines: Vec<String> = Vec::new();
    lines.push(
        String::from_str("    Local file [").concat(conflict.file.as_str()).concat(
            "] is in conflict with another version of the file, committed by user [",
        ).concat(user.as_str()).concat("]. Conflicting version:"),
    );
    lines.push(
        String::from_str("      Repository UUID: [").concat(conflict.repo_uuid.as_str()).concat(
            "]",
        ),
    );
    lines.push(String::from_str("      Branch: [").concat(conflict.branch.as_str()).concat("]"));
    lines.push(String::from_str("      Commit: [").concat(conflict.commit.as_str()).concat("]"));
    assert(texts_of(lines@) =~= conflict_lines(conflict@));
    lines
}

/// The lines that report every conflict to the user, in the order of
/// `conflicts`.
pub fn conflict_report(conflicts: &Vec<UnintegratedChange>) -> (lines: Vec<String>)
    ensures
        texts_of(lines@) == report_lines(conflicts@, conflicts@.len() as int),
{
    let mut lines: Vec<String> = Vec::new();
    let mut i: usize = 0;
    assert(texts_of(lines@) =~= report_lines(conflicts@, 0));
    while i < conflicts.len()
        invariant
            i <= conflicts.len(),
            texts_of(lines@) == report_lines(conflicts@, i as int),
        decreases conflicts.len() - i,
    {
        let mut described = describe_conflict(&conflicts[i]);
        let ghost before = lines@;
        let ghost added = described@;
        lines.append(&mut described);
        assert(texts_of(lines@) =~= texts_of(before) + texts_of(added));
        i += 1;
    }
    lines
}

} // verus!
