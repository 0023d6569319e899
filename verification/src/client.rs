//! The client's side: gives a repository its uuid and mirrors its branches
//! into the shared repository, each under the client's own namespace.

use vstd::prelude::*;
use vstd::string::*;
use crate::git::{
    list_branches,
    open_repository,
    push_to_remote,
    read_config_string,
    remote_url,
    settle,
    write_config_string,
    BranchEntry,
    BranchKind,
    GitFailure,
    GitFailureKind,
};
use crate::shared::{
    generate_repo_id,
    global_image,
    is_local_branch,
    is_repo_uuid,
    ClientSyncConfig,
    ConfigError,
    FormatError,
    FormatErrorKind,
    ReferencePath,
    GLOBALGRAPH_REPO_NAME,
};

verus! {

/// The setting that holds a client's repository uuid.
pub const REPO_UUID_KEY: &'static str = "globalgraph.repouuid";

/// Why a repository could not be mirrored.
#[derive(Debug, PartialEq)]
pub enum SyncError {
    /// The repository could not be opened, or its branches not be listed.
    Repository(GitFailure),
    /// The repository has no uuid and could not be given one.
    Config(ConfigError),
    /// The repository has no remote for the shared repository.
    RemoteNotConfigured(GitFailure),
    /// A local branch has a name that is not UTF-8.
    BranchNameNotUtf8,
    /// A local branch has a reference outside `refs/heads/`.
    Format(FormatError),
    /// The push of the branch `branch` failed.
    Push { branch: String, failure: GitFailure },
}

/// What reading the repository uuid from the configuration came to.
#[derive(Debug, PartialEq)]
pub enum UuidLookup {
    /// The uuid is set.
    Found(String),
    /// No uuid is set yet: one has to be made.
    Missing,
    /// The configuration could not be read.
    Failed(GitFailure),
}

/// Decides what to do with the outcome of reading the repository uuid: only
/// the answer 'not found' asks for a new uuid; any other failure stands.
pub fn classify_uuid_lookup(current: Result<String, GitFailure>) -> (r: UuidLookup)
    ensures
        match current {
            Ok(uuid) => r == UuidLookup::Found(uuid),
            Err(failure) => if failure.kind == GitFailureKind::NotFound {
                r is Missing
            } else {
                r == UuidLookup::Failed(failure)
            },
        },
{
    match current {
        Ok(uuid) => UuidLookup::Found(uuid),
        Err(failure) => match failure.kind {
            GitFailureKind::NotFound => UuidLookup::Missing,
            _ => UuidLookup::Failed(failure),
        },
    }
}

/// What a lookup of the repository uuid settles by itself: a uuid that is
/// set stands as it is, a configuration that cannot be read is an error, and
/// only a uuid that is missing leaves the outcome open.
pub fn uuid_of_lookup(lookup: UuidLookup) -> (r: Option<Result<String, ConfigError>>)
    ensures
        match lookup {
            UuidLookup::Found(uuid) => r == Some(Ok::<String, ConfigError>(uuid)),
            UuidLookup::Missing => r is None,
            UuidLookup::Failed(failure) => r == Some(
                Err::<String, ConfigError>(ConfigError::Unavailable(failure)),
            ),
        },
{
    match lookup {
        UuidLookup::Found(uuid) => Some(Ok(uuid)),
        UuidLookup::Missing => None,
        UuidLookup::Failed(failure) => Some(Err(ConfigError::Unavailable(failure))),
    }
}

/// The outcome of giving a repository the new uuid `new_uuid`, given how
/// storing it went: the uuid counts only once it is stored.
pub fn stored_uuid(new_uuid: String, written: Result<(), GitFailure>) -> (r: Result<
    String,
    ConfigError,
>)
    ensures
        match written {
            Ok(_) => r == Ok::<String, ConfigError>(new_uuid),
            Err(failure) => r == Err::<String, ConfigError>(ConfigError::Unavailable(failure)),
        },
{
    match written {
        Ok(_) => Ok(new_uuid),
        Err(failure) => Err(ConfigError::Unavailable(failure)),
    }
}

/// Generates a repository uuid for the given repository and stores it.
pub fn create_client_uuid(repo: &git2::Repository) -> (r: Result<String, ConfigError>)
    ensures
        r is Ok ==> is_repo_uuid(r->Ok_0@),
        r is Err ==> !(r->Err_0 is EmptyRepositoryUuid),
{
    let new_uuid = match generate_repo_id(repo) {
        Ok(new_uuid) => new_uuid,
        Err(e) => {
            return Err(e);
        },
    };
    let written = settle(write_config_string(repo, REPO_UUID_KEY, new_uuid.as_str()));
    stored_uuid(new_uuid, written)
}

/// Gets the uuid of the given repository, or if none is set, generates one
/// and stores it. Fails if the configuration cannot be read or written.
/// Whether a uuid is set is for the repository to say, so of the uuid that
/// comes back nothing is stated here: `classify_uuid_lookup` and
/// `uuid_of_lookup` decide what the lookup settles, and only for a lookup
/// that found nothing is `create_client_uuid` called.
pub fn get_or_create_client_uuid(repo: &git2::Repository) -> (r: Result<String, ConfigError>)
    ensures
        r is Err ==> !(r->Err_0 is EmptyRepositoryUuid),
{
    let current = settle(read_config_string(repo, REPO_UUID_KEY));
    match uuid_of_lookup(classify_uuid_lookup(current)) {
        Some(settled) => settled,
        None => create_client_uuid(repo),
    }
}

/// The configuration of the client whose repository uuid is `repo_uuid`:
/// there is none for an empty uuid.
pub fn config_of_uuid(repo_uuid: String) -> (r: Result<ClientSyncConfig, ConfigError>)
    ensures
        r is Ok <==> repo_uuid@.len() > 0,
        r is Ok ==> r->Ok_0.repo_uuid == repo_uuid,
        r is Err ==> r->Err_0 is EmptyRepositoryUuid,
{
    if repo_uuid.as_str().is_empty() {
        Err(ConfigError::EmptyRepositoryUuid)
    } else {
        Ok(ClientSyncConfig { repo_uuid })
    }
}

/// Reads the client's configuration from the repository.
pub fn get_config(repo: &git2::Repository) -> (r: Result<ClientSyncConfig, ConfigError>)
    ensures
        r is Ok ==> r->Ok_0.repo_uuid@.len() > 0,
        r is Err ==> r->Err_0 is Unavailable || r->Err_0 is EmptyRepositoryUuid,
{
    match settle(read_config_string(repo, REPO_UUID_KEY)) {
        Ok(repo_uuid) => config_of_uuid(repo_uuid),
        Err(failure) => Err(ConfigError::Unavailable(failure)),
    }
}

/// The refspec that force-pushes the client branch `branch` of the client
/// `repo_uuid` to its place in the shared repository.
pub open spec fn refspec_text(repo_uuid: Seq<char>, branch: Seq<char>) -> Seq<char> {
    seq!['+'] + branch + seq![':'] + global_image(repo_uuid, branch)
}

/// The refspec that force-pushes `branch` to its place in the shared
/// repository: a push that overwrites, since nobody else writes there.
pub fn push_refspec(config: &ClientSyncConfig, branch: &ReferencePath) -> (r: Result<
    String,
    FormatError,
>)
    ensures
        r is Ok <==> is_local_branch(branch@),
        r is Ok ==> r->Ok_0@ == refspec_text(config.repo_uuid@, branch@),
        r is Err ==> r->Err_0.kind == FormatErrorKind::NotALocalBranch && r->Err_0.input@
            == branch@,
{
    match config.map_branch_to_global(branch) {
        Ok(global) => {
            let refspec = String::from_str("+").concat(branch.as_str()).concat(":").concat(
                global.as_str(),
            );
            proof {
                reveal_strlit("+");
                reveal_strlit(":");
                assert("+"@ =~= seq!['+']);
                assert(":"@ =~= seq![':']);
            }
            Ok(refspec)
        },
        Err(e) => Err(e),
    }
}

/// One push of a synchronization: a local branch and its refspec.
#[derive(Debug, PartialEq)]
pub struct PushStep {
    pub branch: ReferencePath,
    pub refspec: String,
}

/// Whether a branch of the listing can be mirrored: a remote-tracking branch
/// is left alone, a local one needs a reference under `refs/heads/`.
pub open spec fn is_pushable(entry: BranchEntry) -> bool {
    entry.kind == BranchKind::Local ==> entry.reference is Some && is_local_branch(
        entry.reference->Some_0@,
    )
}

/// Whether `step` is the push of the local branch `entry` for the client
/// `repo_uuid`.
pub open spec fn is_step_for(step: PushStep, repo_uuid: Seq<char>, entry: BranchEntry) -> bool {
    &&& entry.reference is Some
    &&& step.branch@ == entry.reference->Some_0@
    &&& step.refspec@ == refspec_text(repo_uuid, step.branch@)
}

/// The pushes that mirror the branches of `listing`: one for every local
/// branch, in the order of the listing. Fails at the first local branch
/// whose name is not UTF-8 or lies outside `refs/heads/`.
pub fn push_plan(config: &ClientSyncConfig, listing: &Vec<BranchEntry>) -> (r: Result<
    Vec<PushStep>,
    SyncError,
>)
    ensures
        r is Ok <==> forall|i: int| 0 <= i < listing@.len() ==> is_pushable(#[trigger] listing@[i]),
        r is Ok ==> {
            let locals = listing@.filter(|entry: BranchEntry| entry.kind == BranchKind::Local);
            &&& r->Ok_0@.len() == locals.len()
            &&& forall|k: int|
                0 <= k < locals.len() ==> is_step_for(
                    #[trigger] r->Ok_0@[k],
                    config.repo_uuid@,
                    locals[k],
                )
        },
        r is Err ==> exists|j: int|
            {
                &&& 0 <= j < listing@.len()
                &&& !is_pushable(#[trigger] listing@[j])
                &&& forall|i: int| 0 <= i < j ==> is_pushable(#[trigger] listing@[i])
                &&& match listing@[j].reference {
                    None => r->Err_0 is BranchNameNotUtf8,
                    Some(name) => r->Err_0 is Format && r->Err_0->Format_0.kind
                        == FormatErrorKind::NotALocalBranch && r->Err_0->Format_0.input@ == name@,
                }
            },
{
    let ghost local = |entry: BranchEntry| entry.kind == BranchKind::Local;
    let mut steps: Vec<PushStep> = Vec::new();
    let mut i: usize = 0;
    assert(listing@.take(0).filter(local) =~= Seq::<BranchEntry>::empty());
    while i < listing.len()
        invariant
            i <= listing.len(),
            local == (|entry: BranchEntry| entry.kind == BranchKind::Local),
            forall|j: int| 0 <= j < i ==> is_pushable(#[trigger] listing@[j]),
            steps@.len() == listing@.take(i as int).filter(local).len(),
            forall|k: int|
                0 <= k < steps@.len() ==> is_step_for(
                    #[trigger] steps@[k],
                    config.repo_uuid@,
                    listing@.take(i as int).filter(local)[k],
                ),
        decreases listing.len() - i,
    {
        let entry = &listing[i];
        proof {
            assert(listing@.take(i + 1) =~= listing@.take(i as int).push(*entry));
            listing@.take(i as int).lemma_filter_push(*entry, local);
        }
        match entry.kind {
            BranchKind::Local => {
                let branch = match &entry.reference {
                    Some(name) => ReferencePath::new(name.as_str()),
                    None => {
                        return Err(SyncError::BranchNameNotUtf8);
                    },
                };
                let refspec = match push_refspec(config, &branch) {
                    Ok(refspec) => refspec,
                    Err(e) => {
                        return Err(SyncError::Format(e));
                    },
                };
                steps.push(PushStep { branch, refspec });
            },
            BranchKind::Remote => {},
        }
        i += 1;
    }
    assert(listing@.take(listing@.len() as int) =~= listing@);
    Ok(steps)
}

/// Whether `error` is one with which a synchronization can end: a push that
/// failed names the branch that was pushed, a reference of the client under
/// `refs/heads/`, and a branch that was refused is one outside `refs/heads/`.
pub open spec fn is_sync_failure(error: SyncError) -> bool {
    &&& error is Push ==> is_local_branch(error->Push_branch@)
    &&& error is Format ==> error->Format_0.kind == FormatErrorKind::NotALocalBranch
        && !is_local_branch(error->Format_0.input@)
}

/// The error of a synchronization that ends at the push `step`: it names the
/// branch whose push failed.
pub fn push_failure(step: &PushStep, failure: GitFailure) -> (e: SyncError)
    ensures
        e == (SyncError::Push { branch: step.branch.0, failure }),
{
    SyncError::Push { branch: step.branch.0.clone(), failure }
}

/// Makes the pushes `steps` in their order. The first push that fails ends
/// the run with the name of its branch; pushes made before it stay, and none
/// is made after it.
pub fn push_steps(repo: &git2::Repository, steps: &Vec<PushStep>) -> (r: Result<(), SyncError>)
    ensures
        steps@.len() == 0 ==> r is Ok,
        r is Err ==> r->Err_0 is Push && exists|k: int|
            0 <= k < steps@.len() && r->Err_0->Push_branch == (#[trigger] steps@[k]).branch.0,
{
    let mut i: usize = 0;
    while i < steps.len()
        invariant
            i <= steps.len(),
        decreases steps.len() - i,
    {
        match settle(push_to_remote(repo, GLOBALGRAPH_REPO_NAME, steps[i].refspec.as_str())) {
            Ok(_) => {},
            Err(failure) => {
                return Err(push_failure(&steps[i], failure));
            },
        }
        i += 1;
    }
    Ok(())
}

/// Mirrors every local branch of `repo` into the shared repository, and
/// returns the pushes that were made. The repository is given a uuid if it
/// has none. The first push that fails ends the synchronization, with the
/// name of its branch; pushes made before it stay.
pub fn push_local_branches(repo: &git2::Repository) -> (r: Result<Vec<PushStep>, SyncError>)
    ensures
        r is Ok ==> exists|repo_uuid: Seq<char>|
            repo_uuid.len() > 0 && forall|k: int|
                0 <= k < r->Ok_0@.len() ==> {
                    &&& is_local_branch((#[trigger] r->Ok_0@[k]).branch@)
                    &&& r->Ok_0@[k].refspec@ == refspec_text(repo_uuid, r->Ok_0@[k].branch@)
                },
        r is Err ==> is_sync_failure(r->Err_0),
{
    match get_or_create_client_uuid(repo) {
        Ok(_) => {},
        Err(e) => {
            return Err(SyncError::Config(e));
        },
    }
    match settle(remote_url(repo, GLOBALGRAPH_REPO_NAME)) {
        Ok(_) => {},
        Err(failure) => {
            return Err(SyncError::RemoteNotConfigured(failure));
        },
    }
    let config = match get_config(repo) {
        Ok(config) => config,
        Err(e) => {
            return Err(SyncError::Config(e));
        },
    };
    let listing = match settle(list_branches(repo)) {
        Ok(listing) => listing,
        Err(failure) => {
            return Err(SyncError::Repository(failure));
        },
    };
    let steps = match push_plan(&config, &listing) {
        Ok(steps) => steps,
        Err(e) => {
            return Err(e);
        },
    };
    proof {
        broadcast use vstd::seq_lib::group_filter_ensures;

        let locals = listing@.filter(|entry: BranchEntry| entry.kind == BranchKind::Local);
        assert forall|k: int| 0 <= k < steps@.len() implies is_local_branch(
            (#[trigger] steps@[k]).branch@,
        ) by {
            assert(is_step_for(steps@[k], config.repo_uuid@, locals[k]));
            assert(locals.contains(locals[k]));
            listing@.lemma_filter_contains_rev(
                |entry: BranchEntry| entry.kind == BranchKind::Local,
                locals[k],
            );
            assert(is_pushable(locals[k]));
        }
    }
    match push_steps(repo, &steps) {
        Ok(_) => Ok(steps),
        Err(e) => Err(e),
    }
}

/// Given the path of a repository on the local file system, mirrors the
/// repository into the shared repository: every branch `b` becomes the branch
/// `<repository uuid>/b` there. A push that fails ends the synchronization
/// with the name of its branch.
pub fn synchronize_local_repository(repository_path: &str) -> (r: Result<(), SyncError>)
    ensures
        r is Err ==> is_sync_failure(r->Err_0),
{
    let repo = match settle(open_repository(repository_path)) {
        Ok(repo) => repo,
        Err(failure) => {
            return Err(SyncError::Repository(failure));
        },
    };
    match push_local_branches(&repo) {
        Ok(_) => Ok(()),
        Err(e) => Err(e),
    }
}

} // verus!
