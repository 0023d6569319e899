//! The query service: decides, file by file, whether a head already holds
//! the latest change that any branch of the shared repository made to it.

use vstd::prelude::*;
use vstd::string::*;
use crate::git::{
    find_commit_id,
    init_bare_repository,
    is_commit_id,
    is_descendant_of,
    is_object_id_text,
    list_branches,
    open_bare_repository,
    open_repository,
    settle,
    tree_entry_names,
    walk_from_reference,
    BranchEntry,
    BranchKind,
    GitFailure,
    GitFailureKind,
};
use crate::shared::{
    global_repo_uuid,
    is_global_branch,
    is_local_branch,
    is_repo_uuid,
    local_image,
    map_branch_to_local,
    CommitSha,
    ConflictsAfterCommitRequest,
    ConflictsAfterCommitResponse,
    FormatError,
    FormatErrorKind,
    GitPath,
    HeadCommit,
    ReferencePath,
    UnintegratedChange,
    UnintegratedChangeView,
};
use crate::text::same_text;

verus! {

/// Why a query could not be answered.
#[derive(Debug, PartialEq)]
pub enum EngineError {
    /// The shared repository could not be read.
    Repository(GitFailure),
    /// A branch of the shared repository has a name that is not UTF-8.
    BranchNameNotUtf8,
    /// A branch of the shared repository lies outside every client's
    /// namespace.
    Format(FormatError),
    /// The working directory of the service does not exist.
    MissingWorkDirectory(String),
}

/// Which branches of the shared repository can hold a conflict for a head.
#[derive(Debug, PartialEq, Eq, Clone, Copy, Structural)]
pub enum ConflictCandidatePolicy {
    /// Every local branch, whoever owns it and whatever its history.
    AllBranches,
}

/// Whether `policy` keeps a branch of kind `kind`.
pub open spec fn is_candidate(policy: ConflictCandidatePolicy, kind: BranchKind) -> bool {
    match policy {
        ConflictCandidatePolicy::AllBranches => kind == BranchKind::Local,
    }
}

impl ConflictCandidatePolicy {
    /// Whether `branch` can hold a conflict for the head `_target_head`.
    pub fn admits(&self, branch: &BranchEntry, _target_head: &HeadCommit) -> (b: bool)
        ensures
            b == is_candidate(*self, branch.kind),
    {
        match self {
            ConflictCandidatePolicy::AllBranches => match branch.kind {
                BranchKind::Local => true,
                BranchKind::Remote => false,
            },
        }
    }
}

/// The branches among `listing` that `policy` keeps, in their order.
pub open spec fn candidates_among(
    policy: ConflictCandidatePolicy,
    listing: Seq<BranchEntry>,
) -> Seq<BranchEntry> {
    listing.filter(|entry: BranchEntry| is_candidate(policy, entry.kind))
}

/// The branches among `listing` that `policy` keeps, in their order.
pub fn conflict_candidates(
    policy: ConflictCandidatePolicy,
    listing: Vec<BranchEntry>,
    target_head: &HeadCommit,
) -> (r: Vec<BranchEntry>)
    ensures
        r@ == candidates_among(policy, listing@),
{
    let ghost keep = |entry: BranchEntry| is_candidate(policy, entry.kind);
    let ghost all = listing@;
    let mut kept: Vec<BranchEntry> = Vec::new();
    assert(all.take(0).filter(keep) =~= Seq::<BranchEntry>::empty());
    for entry in it: listing
        invariant
            it.seq() == all,
            kept@ == all.take(it.index() as int).filter(keep),
            keep == (|entry: BranchEntry| is_candidate(policy, entry.kind)),
    {
        proof {
            assert(all.take(it.index() + 1) =~= all.take(it.index() as int).push(entry));
            all.take(it.index() as int).lemma_filter_push(entry, keep);
        }
        if policy.admits(&entry, target_head) {
            kept.push(entry);
        }
    }
    assert(all.take(all.len() as int) =~= all);
    kept
}

/// Returns all branches in the shared repository that can conflict with the
/// given head: at present every local branch.
pub fn get_conflicting_branches(repo: &git2::Repository, target_head: &HeadCommit) -> (r: Result<
    Vec<BranchEntry>,
    EngineError,
>)
    ensures
        r is Ok ==> forall|i: int|
            0 <= i < r->Ok_0@.len() ==> (#[trigger] r->Ok_0@[i]).kind == BranchKind::Local,
        r is Err ==> r->Err_0 is Repository,
{
    match settle(list_branches(repo)) {
        Ok(listing) => {
            let kept = conflict_candidates(
                ConflictCandidatePolicy::AllBranches,
                listing,
                target_head,
            );
            proof {
                broadcast use vstd::seq_lib::group_filter_ensures;

            }
            Ok(kept)
        },
        Err(failure) => Err(EngineError::Repository(failure)),
    }
}

/// Whether a tree whose entries are named `entries` holds one named `file`.
/// An entry without a name in UTF-8 matches no file. The names are those of
/// one tree, not paths: a file in a directory below it matches no entry.
pub open spec fn tree_holds(entries: Seq<Option<String>>, file: Seq<char>) -> bool {
    exists|i: int|
        0 <= i < entries.len() && (#[trigger] entries[i]) is Some && entries[i]->Some_0@ == file
}

/// Whether the top-level tree of a commit, given by the names of its
/// entries, holds `file`.
pub fn tree_contains(entries: &Vec<Option<String>>, file: &GitPath) -> (b: bool)
    ensures
        b == tree_holds(entries@, file@),
{
    let mut i: usize = 0;
    while i < entries.len()
        invariant
            i <= entries.len(),
            forall|j: int|
                0 <= j < i ==> !((#[trigger] entries@[j]) is Some && entries@[j]->Some_0@
                    == file@),
        decreases entries.len() - i,
    {
        match &entries[i] {
            Some(name) => {
                if same_text(name.as_str(), file.as_str()) {
                    return true;
                }
            },
            None => {},
        }
        i += 1;
    }
    false
}

/// The text of a head, where there is one.
pub open spec fn head_text(head: HeadCommit) -> Option<Seq<char>> {
    match head {
        Some(commit) => Some(commit@),
        None => None,
    }
}

/// Whether a head holds the change made by the commit `latest`: a head that
/// is `latest` itself, or one that descends from it, does; a repository
/// without a head holds nothing.
pub open spec fn integrates(head: Option<Seq<char>>, latest: Seq<char>, descends: bool) -> bool {
    match head {
        Some(commit) => commit == latest || descends,
        None => false,
    }
}

/// Whether the repository has to be asked if `head` descends from `latest`:
/// only where there is a head, and it is another commit.
pub fn needs_ancestry(head: &HeadCommit, latest: &CommitSha) -> (b: bool)
    ensures
        b == (head_text(*head) is Some && head_text(*head) != Some(latest@)),
{
    match head {
        Some(commit) => !same_text(commit.as_str(), latest.as_str()),
        None => false,
    }
}

/// Whether `head` holds the change of `latest`, given what the repository
/// said of their ancestry.
pub fn does_integrate(head: &HeadCommit, latest: &CommitSha, descends: bool) -> (b: bool)
    ensures
        b == integrates(head_text(*head), latest@, descends),
{
    match head {
        Some(commit) => descends || same_text(commit.as_str(), latest.as_str()),
        None => false,
    }
}

/// The conflict that the commit `commit` on the branch `branch` of the shared
/// repository makes for `file`: it names the client that owns the branch and
/// that client's own reference for it.
pub fn unintegrated_change(branch: &ReferencePath, file: &GitPath, commit: CommitSha) -> (r: Result<
    UnintegratedChange,
    FormatError,
>)
    ensures
        r is Ok <==> is_global_branch(branch@),
        r is Ok ==> r->Ok_0@ == (UnintegratedChangeView {
            file: file@,
            commit: commit@,
            branch: local_image(branch@),
            repo_uuid: global_repo_uuid(branch@),
        }),
        r is Err ==> r->Err_0.kind == FormatErrorKind::NotAGlobalBranch && r->Err_0.input@
            == branch@,
{
    match map_branch_to_local(branch) {
        Ok((client_info, local_branch_reference)) => Ok(
            UnintegratedChange {
                file: file.clone(),
                commit,
                branch: local_branch_reference,
                repo_uuid: client_info.repo_uuid,
            },
        ),
        Err(e) => Err(e),
    }
}

/// A commit as a walk gives it: its id and the names of the entries of its
/// top-level tree, absent where a name is not UTF-8.
#[derive(Debug, PartialEq)]
pub struct CommitListing {
    pub id: String,
    pub entries: Vec<Option<String>>,
}

/// Whether `at` is the place of the latest commit of `commits`, listed
/// newest first, whose top-level tree holds `file`: the first place whose
/// tree holds it, or no place where no tree does.
pub open spec fn is_latest_holding(at: Option<int>, commits: Seq<CommitListing>, file: Seq<char>) -> bool {
    match at {
        Some(i) => {
            &&& 0 <= i < commits.len()
            &&& tree_holds(commits[i].entries@, file)
            &&& forall|j: int| 0 <= j < i ==> !tree_holds((#[trigger] commits[j]).entries@, file)
        },
        None => forall|j: int|
            0 <= j < commits.len() ==> !tree_holds((#[trigger] commits[j]).entries@, file),
    }
}

/// A place in a list, as a number.
pub open spec fn place_of(at: Option<usize>) -> Option<int> {
    match at {
        Some(i) => Some(i as int),
        None => None,
    }
}

/// The id of the commit at the place `at` of `commits`, where there is one.
pub open spec fn commit_at(at: Option<int>, commits: Seq<CommitListing>) -> Option<Seq<char>> {
    match at {
        Some(i) => Some(commits[i].id@),
        None => None,
    }
}

/// The place of the latest commit among `commits`, listed newest first,
/// whose top-level tree holds `file`. Only the top-level tree is looked at,
/// so a file in a directory is found under no path.
pub fn latest_holding(commits: &Vec<CommitListing>, file: &GitPath) -> (r: Option<usize>)
    ensures
        is_latest_holding(place_of(r), commits@, file@),
{
    let mut i: usize = 0;
    while i < commits.len()
        invariant
            i <= commits.len(),
            forall|j: int| 0 <= j < i ==> !tree_holds((#[trigger] commits@[j]).entries@, file@),
        decreases commits.len() - i,
    {
        if tree_contains(&commits[i].entries, file) {
            return Some(i);
        }
        i += 1;
    }
    None
}

/// The most recent commit on `branch` whose top-level tree holds `file`:
/// the first such commit in the walk from the branch, if there is one. The
/// commits are listed in the order of the walk, up to the first whose tree
/// holds the file, and `latest_holding` picks the commit among them.
pub fn find_latest_commit(repo: &git2::Repository, branch: &ReferencePath, file: &GitPath) -> (r:
    Result<Option<CommitSha>, EngineError>)
    ensures
        r is Ok ==> exists|commits: Seq<CommitListing>, at: Option<int>|
            {
                &&& #[trigger] is_latest_holding(at, commits, file@)
                &&& head_text(r->Ok_0) == commit_at(at, commits)
                &&& forall|j: int|
                    0 <= j < commits.len() ==> is_commit_id((#[trigger] commits[j]).id@)
            },
        r is Ok && r->Ok_0 is Some ==> is_commit_id(r->Ok_0->Some_0@),
        r is Err ==> r->Err_0 is Repository,
{
    let walk = match settle(walk_from_reference(repo, branch.as_str())) {
        Ok(walk) => walk,
        Err(failure) => {
            return Err(EngineError::Repository(failure));
        },
    };
    let mut commits: Vec<CommitListing> = Vec::new();
    let mut held = false;
    let mut i: usize = 0;
    while i < walk.len() && !held
        invariant
            i <= walk.len(),
            forall|j: int| 0 <= j < walk@.len() ==> is_commit_id((#[trigger] walk@[j])@),
            forall|j: int| 0 <= j < commits@.len() ==> is_commit_id((#[trigger] commits@[j]).id@),
        decreases walk.len() - i,
    {
        let entries = match settle(tree_entry_names(repo, walk[i].as_str())) {
            Ok(entries) => entries,
            Err(failure) => {
                return Err(EngineError::Repository(failure));
            },
        };
        held = tree_contains(&entries, file);
        commits.push(CommitListing { id: walk[i].clone(), entries });
        i += 1;
    }
    let found = match latest_holding(&commits, file) {
        Some(at) => Some(CommitSha::new(commits[at].id.as_str())),
        None => None,
    };
    Ok(found)
}

/// Whether `change` reports one of `files` for a client's branch, with the
/// id of a commit.
pub open spec fn is_finding(change: UnintegratedChangeView, files: Seq<GitPath>) -> bool {
    &&& exists|j: int| 0 <= j < files.len() && (#[trigger] files[j])@ == change.file
    &&& is_repo_uuid(change.repo_uuid)
    &&& is_local_branch(change.branch)
    &&& is_commit_id(change.commit)
}

/// What a branch of the shared repository holds against a file, given the
/// latest commit on the branch that holds the file, if any, and what the
/// repository said of the head's descent from it: nothing where no commit
/// holds the file or the head holds the change, else the conflict with that
/// commit.
pub open spec fn finding(
    branch: Seq<char>,
    head: Option<Seq<char>>,
    file: Seq<char>,
    latest: Option<Seq<char>>,
    descends: bool,
) -> Option<UnintegratedChangeView> {
    match latest {
        None => None,
        Some(commit) => if integrates(head, commit, descends) {
            None
        } else {
            Some(
                UnintegratedChangeView {
                    file,
                    commit,
                    branch: local_image(branch),
                    repo_uuid: global_repo_uuid(branch),
                },
            )
        },
    }
}

/// The view of a finding, where there is one.
pub open spec fn finding_view(found: Option<UnintegratedChange>) -> Option<UnintegratedChangeView> {
    match found {
        Some(change) => Some(change@),
        None => None,
    }
}

/// Decides what the branch `branch` holds against `file` for the head
/// `head`, given the latest commit on the branch that holds the file and the
/// repository's word on whether the head descends from it. A conflict on a
/// branch that belongs to no client is an error.
pub fn decide_finding(
    branch: &ReferencePath,
    head: &HeadCommit,
    file: &GitPath,
    latest: Option<CommitSha>,
    descends: bool,
) -> (r: Result<Option<UnintegratedChange>, FormatError>)
    ensures
        r is Err <==> finding(branch@, head_text(*head), file@, head_text(latest), descends)
            is Some && !is_global_branch(branch@),
        r is Ok ==> finding_view(r->Ok_0) == finding(
            branch@,
            head_text(*head),
            file@,
            head_text(latest),
            descends,
        ),
        r is Err ==> r->Err_0.kind == FormatErrorKind::NotAGlobalBranch && r->Err_0.input@
            == branch@,
{
    match latest {
        None => Ok(None),
        Some(commit) => if does_integrate(head, &commit, descends) {
            Ok(None)
        } else {
            match unintegrated_change(branch, file, commit) {
                Ok(change) => Ok(Some(change)),
                Err(e) => Err(e),
            }
        },
    }
}

/// The conflict, if any, that the branch `branch` of the shared repository
/// holds for `file`: the latest commit on the branch that holds the file,
/// unless `head` holds that commit's change already.
pub fn check_file(
    repo: &git2::Repository,
    branch: &ReferencePath,
    head: &HeadCommit,
    file: &GitPath,
) -> (r: Result<Option<UnintegratedChange>, EngineError>)
    ensures
        r is Ok && r->Ok_0 is Some ==> {
            let change = r->Ok_0->Some_0@;
            &&& is_global_branch(branch@)
            &&& change.file == file@
            &&& change.branch == local_image(branch@)
            &&& change.repo_uuid == global_repo_uuid(branch@)
            &&& head_text(*head) != Some(change.commit)
            &&& is_commit_id(change.commit)
        },
        r is Ok ==> exists|latest: Option<Seq<char>>, descends: bool|
            {
                &&& #[trigger] finding(branch@, head_text(*head), file@, latest, descends)
                    == finding_view(r->Ok_0)
                &&& latest is Some ==> is_commit_id(latest->Some_0)
            },
        r is Err ==> r->Err_0 is Repository || (r->Err_0 is Format && !is_global_branch(branch@)),
{
    let latest = match find_latest_commit(repo, branch, file) {
        Ok(latest) => latest,
        Err(e) => {
            return Err(e);
        },
    };
    let descends = match (head, &latest) {
        (Some(commit), Some(other)) => if needs_ancestry(head, other) {
            match settle(is_descendant_of(repo, commit.as_str(), other.as_str())) {
                Ok(descends) => descends,
                Err(failure) => {
                    return Err(EngineError::Repository(failure));
                },
            }
        } else {
            false
        },
        _ => false,
    };
    let ghost chosen = head_text(latest);
    match decide_finding(branch, head, file, latest, descends) {
        Ok(found) => {
            assert(finding(branch@, head_text(*head), file@, chosen, descends) == finding_view(
                found,
            ));
            Ok(found)
        },
        Err(e) => Err(EngineError::Format(e)),
    }
}

/// Whether `change` is what the branch `branches[b]` holds against the file
/// `files[f]`: a commit other than the head, reported under the client and
/// the client's own branch that the branch of the shared repository stands
/// for.
pub open spec fn is_finding_at(
    change: UnintegratedChangeView,
    branches: Seq<BranchEntry>,
    files: Seq<GitPath>,
    head: HeadCommit,
    b: int,
    f: int,
) -> bool {
    &&& 0 <= b < branches.len()
    &&& 0 <= f < files.len()
    &&& branches[b].reference is Some
    &&& is_global_branch(branches[b].reference->Some_0@)
    &&& change.file == files[f]@
    &&& change.branch == local_image(branches[b].reference->Some_0@)
    &&& change.repo_uuid == global_repo_uuid(branches[b].reference->Some_0@)
    &&& head_text(head) != Some(change.commit)
    &&& is_commit_id(change.commit)
}

/// Whether the place `first` of a branch and a file comes before the place
/// `second` when every branch is taken in turn, and for each branch every
/// file in turn.
pub open spec fn discovered_before(first: (int, int), second: (int, int)) -> bool {
    first.0 < second.0 || (first.0 == second.0 && first.1 < second.1)
}

/// Whether `found` is the beginning of what a scan of `branches` for `files`
/// gathers: its entries stand at the places `pairs`, which go forward
/// through the branches and for each branch through the files, and an entry
/// that holds a change is the finding for its branch and file.
pub open spec fn is_partial_scan(
    found: Seq<Option<UnintegratedChange>>,
    pairs: Seq<(int, int)>,
    branches: Seq<BranchEntry>,
    files: Seq<GitPath>,
    head: HeadCommit,
) -> bool {
    &&& pairs.len() == found.len()
    &&& forall|i: int|
        0 <= i < pairs.len() ==> 0 <= (#[trigger] pairs[i]).0 < branches.len() && 0 <= pairs[i].1
            < files.len()
    &&& forall|i: int, j: int|
        0 <= i < j < pairs.len() ==> discovered_before(#[trigger] pairs[i], #[trigger] pairs[j])
    &&& forall|i: int|
        0 <= i < found.len() ==> ((#[trigger] found[i]) is Some ==> is_finding_at(
            found[i]->Some_0@,
            branches,
            files,
            head,
            pairs[i].0,
            pairs[i].1,
        ))
}

/// Whether `found` is what a scan of `branches` for `files` gathers: one
/// entry for every branch and file, none left out and none twice, in the
/// order of the scan.
pub open spec fn is_scan(
    found: Seq<Option<UnintegratedChange>>,
    pairs: Seq<(int, int)>,
    branches: Seq<BranchEntry>,
    files: Seq<GitPath>,
    head: HeadCommit,
) -> bool {
    &&& found.len() == branches.len() * files.len()
    &&& is_partial_scan(found, pairs, branches, files, head)
}

/// The changes among the findings `found`, in their order: every entry that
/// holds a change, and nothing else.
pub open spec fn reported(found: Seq<Option<UnintegratedChange>>) -> Seq<UnintegratedChange> {
    found.filter_map(|finding: Option<UnintegratedChange>| finding)
}

/// Makes the list of conflicts from the findings of a scan: every change
/// that was found, in the order of the scan.
pub fn collect_findings(found: Vec<Option<UnintegratedChange>>) -> (changes: Vec<
    UnintegratedChange,
>)
    ensures
        changes@ == reported(found@),
{
    let ghost pick = |finding: Option<UnintegratedChange>| finding;
    let ghost all = found@;
    let mut changes: Vec<UnintegratedChange> = Vec::new();
    assert(all.take(0).filter_map(pick) =~= Seq::<UnintegratedChange>::empty());
    for finding in it: found
        invariant
            it.seq() == all,
            changes@ == all.take(it.index() as int).filter_map(pick),
            pick == (|finding: Option<UnintegratedChange>| finding),
    {
        proof {
            all.lemma_filter_map_take_succ(pick, it.index() as int);
        }
        match finding {
            Some(change) => {
                changes.push(change);
            },
            None => {},
        }
    }
    assert(all.take(all.len() as int) =~= all);
    changes
}

/// Finds the commit that a request's head names in the shared repository.
/// A request without a head has none here either.
pub fn resolve_head(repo: &git2::Repository, commit_head: &HeadCommit) -> (r: Result<
    HeadCommit,
    EngineError,
>)
    ensures
        r is Ok ==> (r->Ok_0 is Some <==> *commit_head is Some),
        r is Ok && r->Ok_0 is Some ==> is_commit_id(r->Ok_0->Some_0@),
        r is Err ==> *commit_head is Some && r->Err_0 is Repository,
        *commit_head is Some && !is_object_id_text(commit_head->Some_0@) ==> r is Err,
{
    match commit_head {
        Some(commit) => match settle(find_commit_id(repo, commit.as_str())) {
            Ok(id) => Ok(Some(CommitSha(id))),
            Err(failure) => Err(EngineError::Repository(failure)),
        },
        None => Ok(None),
    }
}

/// Checks every branch of `branches` in turn, and for each branch every file
/// of `files` in turn, gathers what `check_file` finds for each, and makes
/// the list of conflicts from that. Nothing ends the scan early but an error.
/// A branch without a name in UTF-8 cannot be looked at: where there are
/// files to ask about, the scan fails when it comes to the first such branch,
/// so a scan that succeeds has seen a name for every branch.
pub fn scan_branches(
    repo: &git2::Repository,
    branches: &Vec<BranchEntry>,
    head: &HeadCommit,
    files: &[GitPath],
) -> (r: Result<Vec<UnintegratedChange>, EngineError>)
    ensures
        r is Ok ==> exists|found: Seq<Option<UnintegratedChange>>, pairs: Seq<(int, int)>|
            #[trigger] is_scan(found, pairs, branches@, files@, *head) && r->Ok_0@ == reported(
                found,
            ),
        r is Ok && files@.len() > 0 ==> forall|b: int|
            0 <= b < branches@.len() ==> (#[trigger] branches@[b]).reference is Some,
        branches@.len() > 0 && files@.len() > 0 && branches@[0].reference is None ==> r is Err
            && r->Err_0 is BranchNameNotUtf8,
        r is Err && r->Err_0 is BranchNameNotUtf8 ==> files@.len() > 0 && exists|b: int|
            {
                &&& 0 <= b < branches@.len()
                &&& (#[trigger] branches@[b]).reference is None
                &&& forall|k: int| 0 <= k < b ==> (#[trigger] branches@[k]).reference is Some
            },
        r is Err && r->Err_0 is Format ==> exists|b: int|
            0 <= b < branches@.len() && (#[trigger] branches@[b]).reference is Some
                && !is_global_branch(branches@[b].reference->Some_0@),
        r is Err ==> !(r->Err_0 is MissingWorkDirectory),
        branches@.len() == 0 || files@.len() == 0 ==> r is Ok,
{
    let mut found: Vec<Option<UnintegratedChange>> = Vec::new();
    let ghost mut pairs: Seq<(int, int)> = Seq::empty();
    let mut b: usize = 0;
    while b < branches.len()
        invariant
            b <= branches.len(),
            found@.len() == b * files@.len(),
            is_partial_scan(found@, pairs, branches@, files@, *head),
            forall|k: int| 0 <= k < pairs.len() ==> (#[trigger] pairs[k]).0 < b,
            files@.len() > 0 ==> forall|k: int|
                0 <= k < b ==> (#[trigger] branches@[k]).reference is Some,
        decreases branches.len() - b,
    {
        let mut f: usize = 0;
        while f < files.len()
            invariant
                b < branches.len(),
                f <= files.len(),
                found@.len() == b * files@.len() + f,
                is_partial_scan(found@, pairs, branches@, files@, *head),
                forall|k: int|
                    0 <= k < pairs.len() ==> discovered_before(
                        #[trigger] pairs[k],
                        (b as int, f as int),
                    ),
                files@.len() > 0 ==> forall|k: int|
                    0 <= k < b ==> (#[trigger] branches@[k]).reference is Some,
                f > 0 ==> branches@[b as int].reference is Some,
            decreases files.len() - f,
        {
            let branch = match &branches[b].reference {
                Some(name) => ReferencePath::new(name.as_str()),
                None => {
                    return Err(EngineError::BranchNameNotUtf8);
                },
            };
            let finding = match check_file(repo, &branch, head, &files[f]) {
                Ok(finding) => finding,
                Err(e) => {
                    return Err(e);
                },
            };
            let ghost before = found@;
            let ghost earlier = pairs;
            found.push(finding);
            proof {
                pairs = pairs.push((b as int, f as int));
                assert forall|i: int| 0 <= i < found@.len() && (#[trigger] found@[i])
                    is Some implies is_finding_at(
                    found@[i]->Some_0@,
                    branches@,
                    files@,
                    *head,
                    pairs[i].0,
                    pairs[i].1,
                ) by {
                    if i < before.len() {
                        assert(found@[i] == before[i]);
                        assert(pairs[i] == earlier[i]);
                    }
                }
                assert forall|i: int, j: int| 0 <= i < j < pairs.len() implies discovered_before(
                    #[trigger] pairs[i],
                    #[trigger] pairs[j],
                ) by {
                    assert(pairs[i] == earlier[i]);
                    if j < earlier.len() {
                        assert(pairs[j] == earlier[j]);
                    }
                }
                assert forall|i: int| 0 <= i < pairs.len() implies 0 <= (#[trigger] pairs[i]).0
                    < branches@.len() && 0 <= pairs[i].1 < files@.len() by {
                    if i < earlier.len() {
                        assert(pairs[i] == earlier[i]);
                    }
                }
            }
            f += 1;
        }
        assert((b + 1) * files@.len() == b * files@.len() + files@.len()) by (nonlinear_arith);
        b += 1;
    }
    let r = Ok(collect_findings(found));
    assert(is_scan(found@, pairs, branches@, files@, *head));
    r
}

/// The list made from a scan reports files of the request only, each for a
/// client and a branch of that client, and nothing where there are no files.
pub proof fn lemma_scan_is_findings(
    found: Seq<Option<UnintegratedChange>>,
    pairs: Seq<(int, int)>,
    branches: Seq<BranchEntry>,
    files: Seq<GitPath>,
    head: HeadCommit,
)
    requires
        is_scan(found, pairs, branches, files, head),
    ensures
        forall|i: int|
            0 <= i < reported(found).len() ==> is_finding((#[trigger] reported(found)[i])@, files),
        files.len() == 0 ==> reported(found).len() == 0,
{
    let pick = |finding: Option<UnintegratedChange>| finding;
    let changes = reported(found);
    assert forall|i: int| 0 <= i < changes.len() implies is_finding(
        (#[trigger] changes[i])@,
        files,
    ) by {
        assert(changes.contains(changes[i]));
        found.lemma_filter_map_contains(pick, changes[i]);
        let entry = choose|entry: Option<UnintegratedChange>|
            found.contains(entry) && pick(entry) == Some(changes[i]);
        let at = choose|at: int| 0 <= at < found.len() && found[at] == entry;
        assert(found[at] is Some);
        assert(is_finding_at(changes[i]@, branches, files, head, pairs[at].0, pairs[at].1));
        crate::laws::lemma_global_of_local(branches[pairs[at].0].reference->Some_0@);
        assert(files[pairs[at].1]@ == changes[i]@.file);
    }
    if files.len() == 0 {
        assert(branches.len() * files.len() == 0) by (nonlinear_arith)
            requires
                files.len() == 0,
        ;
        assert(found =~= Seq::empty());
    }
}

/// Whether `r` is an answer of the engine for the head `commit_head` and the
/// files `files`: a list is what a scan of some local branches gathers, for
/// a head that is there if and only if the request has one, in the order of
/// the scan; and a head that cannot be the id of a commit is an error. The
/// branches are those that the repository listed, which a caller does not
/// see: so of the list itself the scan says what the clause after it says,
/// that every change reports one of the files for a client's branch.
pub open spec fn is_engine_outcome(
    r: Result<Vec<UnintegratedChange>, EngineError>,
    commit_head: HeadCommit,
    files: Seq<GitPath>,
) -> bool {
    &&& r is Ok ==> exists|
        branches: Seq<BranchEntry>,
        head: HeadCommit,
        found: Seq<Option<UnintegratedChange>>,
        pairs: Seq<(int, int)>,
    |
        {
            &&& #[trigger] is_scan(found, pairs, branches, files, head)
            &&& r->Ok_0@ == reported(found)
            &&& head is Some <==> commit_head is Some
            &&& head is Some ==> is_commit_id(head->Some_0@)
            &&& forall|b: int|
                0 <= b < branches.len() ==> (#[trigger] branches[b]).kind == BranchKind::Local
        }
    &&& r is Ok ==> forall|i: int|
        0 <= i < r->Ok_0@.len() ==> is_finding((#[trigger] r->Ok_0@[i])@, files)
    &&& r is Ok && files.len() == 0 ==> r->Ok_0@.len() == 0
    &&& r is Err ==> !(r->Err_0 is MissingWorkDirectory)
    &&& commit_head is Some && !is_object_id_text(commit_head->Some_0@) ==> r is Err
        && r->Err_0 is Repository
}

/// Given a head and some files, finds every change to those files on a
/// branch of the shared repository that the head does not hold yet: for each
/// branch in turn and each file in turn, the latest commit on the branch that
/// holds the file, unless it is the head or an ancestor of the head. A head
/// that cannot be read as the id of a commit is an error, whatever the
/// repository holds.
pub fn check_integration(repo: &git2::Repository, commit_head: &HeadCommit, files: &[GitPath]) -> (r:
    Result<Vec<UnintegratedChange>, EngineError>)
    ensures
        is_engine_outcome(r, *commit_head, files@),
{
    let branches = match get_conflicting_branches(repo, commit_head) {
        Ok(branches) => branches,
        Err(e) => {
            return Err(e);
        },
    };
    let head = match resolve_head(repo, commit_head) {
        Ok(head) => head,
        Err(e) => {
            return Err(e);
        },
    };
    match scan_branches(repo, &branches, &head, files) {
        Ok(unintegrated_changes) => {
            proof {
                let (found, pairs) = choose|
                    found: Seq<Option<UnintegratedChange>>,
                    pairs: Seq<(int, int)>,
                |
                    #[trigger] is_scan(found, pairs, branches@, files@, head)
                        && unintegrated_changes@ == reported(found);
                lemma_scan_is_findings(found, pairs, branches@, files@, head);
            }
            Ok(unintegrated_changes)
        },
        Err(e) => Err(e),
    }
}

/// What the query service keeps between requests: the directory that holds
/// the shared repository.
#[derive(Debug, PartialEq)]
pub struct AppState {
    work_directory: String,
}

/// Information about the query service that is running.
#[derive(Debug, PartialEq)]
pub struct InfoResponse {
    pub global_graph_git_remote_url: String,
}

/// `std::path::Path::join`: the path of the entry `name` of the directory
/// `directory`. The separator is the platform's, so nothing is claimed of
/// the text.
#[verifier::external_body]
fn join_path(directory: &str, name: &str) -> String {
    std::path::Path::new(directory).join(name).to_string_lossy().into_owned()
}

impl AppState {
    /// The text of the working directory's path.
    pub closed spec fn directory(&self) -> Seq<char> {
        self.work_directory@
    }

    pub fn new(work_directory: &str) -> (state: AppState)
        ensures
            state.directory() == work_directory@,
    {
        AppState { work_directory: work_directory.to_owned() }
    }

    /// The directory that holds the shared repository.
    pub fn work_directory(&self) -> (directory: &str)
        ensures
            directory@ == self.directory(),
    {
        self.work_directory.as_str()
    }

    /// The path of the shared repository: the entry `repo` of the working
    /// directory.
    pub fn repository_path(&self) -> String {
        join_path(self.work_directory.as_str(), "repo")
    }
}

/// The list of conflicts of an answer, or the error that stands in its
/// place.
pub open spec fn conflicts_of(
    outcome: Result<ConflictsAfterCommitResponse, EngineError>,
) -> Result<Vec<UnintegratedChange>, EngineError> {
    match outcome {
        Ok(response) => Ok(response.conflicts),
        Err(e) => Err(e),
    }
}

/// Answers a request: the changes that the request's head does not hold yet,
/// for the request's files, in the shared repository of `state`. The answer
/// holds the engine's list as it is; a repository that cannot be opened is
/// an error.
pub fn conflicts_after_commit(state: &AppState, payload: &ConflictsAfterCommitRequest) -> (r:
    Result<ConflictsAfterCommitResponse, EngineError>)
    ensures
        is_engine_outcome(conflicts_of(r), payload.repo_head_commit, payload.files@),
{
    let repo_path = state.repository_path();
    let repo = match settle(open_bare_repository(repo_path.as_str())) {
        Ok(repo) => repo,
        Err(failure) => {
            return Err(EngineError::Repository(failure));
        },
    };
    match check_integration(&repo, &payload.repo_head_commit, payload.files.as_slice()) {
        Ok(conflicts) => Ok(ConflictsAfterCommitResponse { conflicts }),
        Err(e) => Err(e),
    }
}

/// The status of an answer that holds the conflicts asked for.
pub const STATUS_OK: u16 = 200;

/// The status of the answer to a request that could not be read.
pub const STATUS_BAD_REQUEST: u16 = 400;

/// The status of the answer to a request that the service failed on.
pub const STATUS_INTERNAL_SERVER_ERROR: u16 = 500;

/// The status and the body to send for the outcome of a request that could
/// be read: the engine's answer goes out with the status of success, as it
/// is; a failure of the engine gives the status of a server error, and no
/// body.
pub fn answer_of(outcome: Result<ConflictsAfterCommitResponse, EngineError>) -> (r: (
    u16,
    Option<ConflictsAfterCommitResponse>,
))
    ensures
        match outcome {
            Ok(response) => r == (STATUS_OK, Some(response)),
            Err(_) => r.0 == STATUS_INTERNAL_SERVER_ERROR && r.1 is None,
        },
{
    match outcome {
        Ok(response) => (STATUS_OK, Some(response)),
        Err(_) => (STATUS_INTERNAL_SERVER_ERROR, None),
    }
}

/// Whether `r` is the status and body that `answer_of` gives for `outcome`.
pub open spec fn is_answer_of(
    r: (u16, Option<ConflictsAfterCommitResponse>),
    outcome: Result<ConflictsAfterCommitResponse, EngineError>,
) -> bool {
    match outcome {
        Ok(response) => r == (STATUS_OK, Some(response)),
        Err(_) => r.0 == STATUS_INTERNAL_SERVER_ERROR && r.1 is None,
    }
}

/// The status and the body to send for a request: a request that could not
/// be read (`None`) is the client's error; any other request gets what
/// `answer_of` makes of the engine's outcome for it. Only the status of
/// success comes with a body.
pub fn respond(state: &AppState, payload: &Option<ConflictsAfterCommitRequest>) -> (r: (
    u16,
    Option<ConflictsAfterCommitResponse>,
))
    ensures
        *payload is None ==> r.0 == STATUS_BAD_REQUEST && r.1 is None,
        *payload is Some ==> exists|outcome: Result<ConflictsAfterCommitResponse, EngineError>|
            {
                &&& #[trigger] is_answer_of(r, outcome)
                &&& is_engine_outcome(
                    conflicts_of(outcome),
                    payload->Some_0.repo_head_commit,
                    payload->Some_0.files@,
                )
            },
        r.1 is Some <==> r.0 == STATUS_OK,
        r.1 is Some ==> forall|i: int|
            0 <= i < r.1->Some_0.conflicts@.len() ==> is_finding(
                (#[trigger] r.1->Some_0.conflicts@[i])@,
                payload->Some_0.files@,
            ),
{
    match payload {
        None => (STATUS_BAD_REQUEST, None),
        Some(request) => {
            let outcome = conflicts_after_commit(state, request);
            let ghost seen = outcome;
            let r = answer_of(outcome);
            assert(is_answer_of(r, seen));
            r
        },
    }
}

/// What has to be done before the service can use its working directory.
#[derive(Debug, PartialEq)]
pub enum Preparation {
    /// The shared repository is there.
    Ready,
    /// There is no repository yet: a bare one has to be made.
    Initialize,
    /// The working directory cannot be used.
    Refuse(EngineError),
}

/// Decides how to prepare the working directory `work_directory`, given
/// whether it exists and how opening the repository in it went: a directory
/// that does not exist is refused, a repository that was not found is made,
/// and any other failure to open it stands.
pub fn plan_preparation(work_directory: &str, exists: bool, opened: Result<(), GitFailure>) -> (r:
    Preparation)
    ensures
        !exists ==> r is Refuse && r->Refuse_0 is MissingWorkDirectory
            && r->Refuse_0->MissingWorkDirectory_0@ == work_directory@,
        exists ==> match opened {
            Ok(()) => r is Ready,
            Err(failure) => if failure.kind == GitFailureKind::NotFound {
                r is Initialize
            } else {
                r == Preparation::Refuse(EngineError::Repository(failure))
            },
        },
{
    if !exists {
        return Preparation::Refuse(EngineError::MissingWorkDirectory(work_directory.to_owned()));
    }
    match opened {
        Ok(()) => Preparation::Ready,
        Err(failure) => match failure.kind {
            GitFailureKind::NotFound => Preparation::Initialize,
            _ => Preparation::Refuse(EngineError::Repository(failure)),
        },
    }
}

/// Makes sure that the working directory holds the shared repository, and
/// creates it as a bare repository if there is none. `exists` says whether
/// the working directory is there.
pub fn prepare_work_directory(work_directory: &str, exists: bool) -> (r: Result<(), EngineError>)
    ensures
        !exists ==> r is Err && r->Err_0 is MissingWorkDirectory
            && r->Err_0->MissingWorkDirectory_0@ == work_directory@,
        exists && r is Err ==> r->Err_0 is Repository,
{
    let repo_path = join_path(work_directory, "repo");
    let opened = if exists {
        match settle(open_repository(repo_path.as_str())) {
            Ok(_) => Ok(()),
            Err(failure) => Err(failure),
        }
    } else {
        Ok(())
    };
    match plan_preparation(work_directory, exists, opened) {
        Preparation::Ready => Ok(()),
        Preparation::Initialize => match settle(init_bare_repository(repo_path.as_str())) {
            Ok(_) => Ok(()),
            Err(failure) => Err(EngineError::Repository(failure)),
        },
        Preparation::Refuse(e) => Err(e),
    }
}

} // verus!
