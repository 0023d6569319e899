//! The values that clients and the query service exchange, and the mapping
//! between a client's branches and their images in the shared repository.

use vstd::prelude::*;
use vstd::string::*;
use crate::git::{
    head_commit_id,
    is_commit_id,
    read_config_string,
    settle,
    GitFailure,
    GitFailureKind,
};
use crate::host::{fresh_uuid_text, is_lower_hex_char, machine_hostname};
use crate::text::{
    all_lower_alnum,
    ascii_alnum_of,
    chars_of,
    find_char,
    first_index,
    is_lower_alnum,
    keep_ascii_alnum,
    lemma_first_index,
    lemma_first_index_unique,
    lowercase,
    lowercase_of,
    starts_with,
    string_of,
};

verus! {

/// Name of the remote under which a client knows the shared repository.
pub const GLOBALGRAPH_REPO_NAME: &'static str = "globalgraph";

/// The full commit sha, as a string.
#[derive(Debug, PartialEq)]
pub struct CommitSha(pub String);

impl View for CommitSha {
    type V = Seq<char>;

    open spec fn view(&self) -> Seq<char> {
        self.0@
    }
}

impl CommitSha {
    pub fn new(sha: &str) -> (r: CommitSha)
        ensures
            r@ == sha@,
    {
        CommitSha(sha.to_owned())
    }

    pub fn as_str(&self) -> (s: &str)
        ensures
            s@ == self@,
    {
        self.0.as_str()
    }
}

impl Clone for CommitSha {
    fn clone(&self) -> (r: Self)
        ensures
            r@ == self@,
    {
        CommitSha(self.0.clone())
    }
}

/// The name of a branch, often called the 'friendly name': for the reference
/// `refs/heads/mynamespace/mybranch` it is `mynamespace/mybranch`.
#[derive(Debug, PartialEq)]
pub struct BranchName(pub String);

impl View for BranchName {
    type V = Seq<char>;

    open spec fn view(&self) -> Seq<char> {
        self.0@
    }
}

impl BranchName {
    pub fn new(path: &str) -> (r: BranchName)
        ensures
            r@ == path@,
    {
        BranchName(path.to_owned())
    }

    pub fn as_str(&self) -> (s: &str)
        ensures
            s@ == self@,
    {
        self.0.as_str()
    }
}

impl Clone for BranchName {
    fn clone(&self) -> (r: Self)
        ensures
            r@ == self@,
    {
        BranchName(self.0.clone())
    }
}

/// A full reference path, such as `refs/heads/branch_name`.
#[derive(Debug, PartialEq)]
pub struct ReferencePath(pub String);

impl View for ReferencePath {
    type V = Seq<char>;

    open spec fn view(&self) -> Seq<char> {
        self.0@
    }
}

impl ReferencePath {
    pub fn new(path: &str) -> (r: ReferencePath)
        ensures
            r@ == path@,
    {
        ReferencePath(path.to_owned())
    }

    pub fn as_str(&self) -> (s: &str)
        ensures
            s@ == self@,
    {
        self.0.as_str()
    }
}

impl Clone for ReferencePath {
    fn clone(&self) -> (r: Self)
        ensures
            r@ == self@,
    {
        ReferencePath(self.0.clone())
    }
}

/// The path by which git records a file in a commit's tree.
#[derive(Debug, PartialEq)]
pub struct GitPath(String);

impl View for GitPath {
    type V = Seq<char>;

    closed spec fn view(&self) -> Seq<char> {
        self.0@
    }
}

impl GitPath {
    pub fn new(file_path: &str) -> (r: GitPath)
        ensures
            r@ == file_path@,
    {
        GitPath(file_path.to_owned())
    }

    pub fn as_str(&self) -> (s: &str)
        ensures
            s@ == self@,
    {
        self.0.as_str()
    }
}

impl Clone for GitPath {
    fn clone(&self) -> (r: Self)
        ensures
            r@ == self@,
    {
        GitPath(self.0.clone())
    }
}

/// The head of a repository: `None` while the repository has no commit.
pub type HeadCommit = Option<CommitSha>;

/// What was wrong with a reference or a repository uuid.
#[derive(Debug, PartialEq, Eq, Clone, Copy, Structural)]
pub enum FormatErrorKind {
    /// The reference does not begin with `refs/heads/`.
    NotALocalBranch,
    /// The reference is not `refs/heads/<repository uuid>/<branch>`.
    NotAGlobalBranch,
    /// The text is not `<username>_<machine>_<id>`.
    NotARepositoryUuid,
}

/// A reference or repository uuid that could not be read, with the text that
/// was refused.
#[derive(Debug, PartialEq)]
pub struct FormatError {
    pub kind: FormatErrorKind,
    pub input: String,
}

/// The sentence that reports `input` as refused for the reason `kind`.
pub open spec fn format_error_message(kind: FormatErrorKind, input: Seq<char>) -> Seq<char> {
    match kind {
        FormatErrorKind::NotALocalBranch => "Branch ["@ + input
            + "] was not of the form refs/heads/branch_name"@,
        FormatErrorKind::NotAGlobalBranch => "The branch ["@ + input
            + "] is not a valid Global Graph branch name."@,
        FormatErrorKind::NotARepositoryUuid => "The string ["@ + input
            + "] is not a valid Repository UUID."@,
    }
}

impl FormatError {
    pub fn message(&self) -> (m: String)
        ensures
            m@ == format_error_message(self.kind, self.input@),
    {
        match self.kind {
            FormatErrorKind::NotALocalBranch => {
                String::from_str("Branch [").concat(self.input.as_str()).concat(
                    "] was not of the form refs/heads/branch_name",
                )
            },
            FormatErrorKind::NotAGlobalBranch => {
                String::from_str("The branch [").concat(self.input.as_str()).concat(
                    "] is not a valid Global Graph branch name.",
                )
            },
            FormatErrorKind::NotARepositoryUuid => {
                String::from_str("The string [").concat(self.input.as_str()).concat(
                    "] is not a valid Repository UUID.",
                )
            },
        }
    }
}

/// The prefix of every branch reference.
pub open spec fn branch_prefix() -> Seq<char> {
    "refs/heads/"@
}

/// Whether `reference` names a branch: whether it begins with `refs/heads/`.
pub open spec fn is_local_branch(reference: Seq<char>) -> bool {
    branch_prefix().is_prefix_of(reference)
}

/// What follows `refs/heads/` in a branch reference.
pub open spec fn friendly_name(reference: Seq<char>) -> Seq<char> {
    reference.skip(branch_prefix().len() as int)
}

/// Converts a branch of the format `refs/heads/branch_name` to the format
/// `branch_name`.
pub fn to_friendly_name(reference_path: &ReferencePath) -> (r: Result<BranchName, FormatError>)
    ensures
        r is Ok <==> is_local_branch(reference_path@),
        r is Ok ==> r->Ok_0@ == friendly_name(reference_path@),
        r is Err ==> r->Err_0.kind == FormatErrorKind::NotALocalBranch && r->Err_0.input@
            == reference_path@,
{
    let chars = chars_of(reference_path.as_str());
    let prefix = chars_of("refs/heads/");
    if starts_with(&chars, &prefix) {
        Ok(BranchName(string_of(&chars, prefix.len(), chars.len())))
    } else {
        Err(
            FormatError {
                kind: FormatErrorKind::NotALocalBranch,
                input: reference_path.0.clone(),
            },
        )
    }
}

/// Information related to the configuration of a client repository.
#[derive(Debug, PartialEq)]
pub struct ClientSyncConfig {
    pub repo_uuid: String,
}

/// The image of the client branch `reference` in the shared repository, for
/// the client `repo_uuid`: `refs/heads/<repo_uuid>/<branch>`.
pub open spec fn global_image(repo_uuid: Seq<char>, reference: Seq<char>) -> Seq<char> {
    branch_prefix() + repo_uuid + seq!['/'] + friendly_name(reference)
}

impl ClientSyncConfig {
    /// The place of the client branch `client_branch` in the shared
    /// repository.
    pub fn map_branch_to_global(&self, client_branch: &ReferencePath) -> (r: Result<
        ReferencePath,
        FormatError,
    >)
        ensures
            r is Ok <==> is_local_branch(client_branch@),
            r is Ok ==> r->Ok_0@ == global_image(self.repo_uuid@, client_branch@),
            r is Err ==> r->Err_0.kind == FormatErrorKind::NotALocalBranch && r->Err_0.input@
                == client_branch@,
    {
        match to_friendly_name(client_branch) {
            Ok(name) => {
                let global = String::from_str("refs/heads/").concat(self.repo_uuid.as_str()).concat(
                    "/",
                ).concat(name.as_str());
                proof {
                    reveal_strlit("/");
                    assert("/"@ =~= seq!['/']);
                }
                Ok(ReferencePath(global))
            },
            Err(e) => Err(e),
        }
    }
}

/// A field of a repository uuid: one or more digits and lower-case letters.
pub open spec fn is_uuid_field(s: Seq<char>) -> bool {
    s.len() > 0 && is_lower_alnum(s)
}

/// The repository uuid of a user, a machine and an id.
pub open spec fn format_repo_uuid(
    username: Seq<char>,
    machine_name: Seq<char>,
    repo_id: Seq<char>,
) -> Seq<char> {
    username + seq!['_'] + machine_name + seq!['_'] + repo_id
}

/// What stands before the first `_` of `token`.
pub open spec fn uuid_username(token: Seq<char>) -> Seq<char> {
    token.take(first_index(token, '_'))
}

/// What stands behind the first `_` of `token`.
pub open spec fn uuid_after_username(token: Seq<char>) -> Seq<char> {
    token.skip(first_index(token, '_') + 1)
}

/// What stands between the first and the second `_` of `token`.
pub open spec fn uuid_machine_name(token: Seq<char>) -> Seq<char> {
    uuid_after_username(token).take(first_index(uuid_after_username(token), '_'))
}

/// What stands behind the second `_` of `token`.
pub open spec fn uuid_repo_id(token: Seq<char>) -> Seq<char> {
    uuid_after_username(token).skip(first_index(uuid_after_username(token), '_') + 1)
}

/// Whether `token` is a repository uuid: three fields, each of one or more
/// digits and lower-case letters, with a `_` between them.
pub open spec fn is_repo_uuid(token: Seq<char>) -> bool {
    &&& first_index(token, '_') < token.len()
    &&& first_index(uuid_after_username(token), '_') < uuid_after_username(token).len()
    &&& is_uuid_field(uuid_username(token))
    &&& is_uuid_field(uuid_machine_name(token))
    &&& is_uuid_field(uuid_repo_id(token))
}

/// The parts of a repository uuid.
#[derive(Debug, PartialEq)]
pub struct RepoInformation {
    pub username: String,
    pub machine_name: String,
    pub repo_id: String,
}

impl RepoInformation {
    /// Whether the three parts can stand in a repository uuid: whether each
    /// is one or more digits and lower-case letters.
    pub open spec fn is_well_formed(&self) -> bool {
        &&& is_uuid_field(self.username@)
        &&& is_uuid_field(self.machine_name@)
        &&& is_uuid_field(self.repo_id@)
    }

    /// The repository uuid that is made of the three parts.
    pub fn repo_uuid(&self) -> (token: String)
        ensures
            token@ == format_repo_uuid(self.username@, self.machine_name@, self.repo_id@),
    {
        join_repo_uuid(self.username.as_str(), self.machine_name.as_str(), self.repo_id.as_str())
    }
}

impl Clone for RepoInformation {
    fn clone(&self) -> (r: Self)
        ensures
            r.username@ == self.username@,
            r.machine_name@ == self.machine_name@,
            r.repo_id@ == self.repo_id@,
    {
        RepoInformation {
            username: self.username.clone(),
            machine_name: self.machine_name.clone(),
            repo_id: self.repo_id.clone(),
        }
    }
}

/// Reads the repository uuid in `chars[from..to]`: the two positions of `_`
/// when that range is a repository uuid.
fn split_repo_uuid(chars: &Vec<char>, from: usize, to: usize) -> (r: Option<(usize, usize)>)
    requires
        from <= to <= chars.len(),
    ensures
        r is Some <==> is_repo_uuid(chars@.subrange(from as int, to as int)),
        r is Some ==> {
            let token = chars@.subrange(from as int, to as int);
            let (first, second) = r->Some_0;
            &&& from <= first < second < to
            &&& first - from == first_index(token, '_')
            &&& second - first - 1 == first_index(uuid_after_username(token), '_')
        },
{
    let ghost token = chars@.subrange(from as int, to as int);
    let first = find_char(chars, from, '_');
    proof {
        lemma_first_index(chars@.skip(from as int), '_');
        lemma_first_index(token, '_');
        if first < to {
            assert forall|i: int| 0 <= i < first - from implies token[i] != '_' by {
                assert(token[i] == chars@.skip(from as int)[i]);
            }
            assert(token[first - from] == chars@.skip(from as int)[first - from]);
            lemma_first_index_unique(token, '_', first - from);
        } else {
            assert forall|i: int| 0 <= i < token.len() implies token[i] != '_' by {
                assert(token[i] == chars@.skip(from as int)[i]);
            }
            lemma_first_index_unique(token, '_', token.len() as int);
        }
    }
    if first >= to {
        return None;
    }
    let ghost rest = uuid_after_username(token);
    assert(rest =~= chars@.subrange(first + 1, to as int));
    let second = find_char(chars, first + 1, '_');
    proof {
        lemma_first_index(chars@.skip(first + 1), '_');
        lemma_first_index(rest, '_');
        if second < to {
            assert forall|i: int| 0 <= i < second - first - 1 implies rest[i] != '_' by {
                assert(rest[i] == chars@.skip(first + 1)[i]);
            }
            assert(rest[second - first - 1] == chars@.skip(first + 1)[second - first - 1]);
            lemma_first_index_unique(rest, '_', second - first - 1);
        } else {
            assert forall|i: int| 0 <= i < rest.len() implies rest[i] != '_' by {
                assert(rest[i] == chars@.skip(first + 1)[i]);
            }
            lemma_first_index_unique(rest, '_', rest.len() as int);
        }
    }
    if second >= to {
        return None;
    }
    assert(uuid_username(token) =~= chars@.subrange(from as int, first as int));
    assert(uuid_machine_name(token) =~= chars@.subrange(first + 1, second as int));
    assert(uuid_repo_id(token) =~= chars@.subrange(second + 1, to as int));
    if first > from && second > first + 1 && to > second + 1 && all_lower_alnum(chars, from, first)
        && all_lower_alnum(chars, first + 1, second) && all_lower_alnum(chars, second + 1, to) {
        Some((first, second))
    } else {
        None
    }
}

/// Breaks apart a repository uuid into its components.
pub fn break_repo_uuid(repo_uuid: &str) -> (r: Result<RepoInformation, FormatError>)
    ensures
        r is Ok <==> is_repo_uuid(repo_uuid@),
        r is Ok ==> {
            &&& r->Ok_0.username@ == uuid_username(repo_uuid@)
            &&& r->Ok_0.machine_name@ == uuid_machine_name(repo_uuid@)
            &&& r->Ok_0.repo_id@ == uuid_repo_id(repo_uuid@)
            &&& r->Ok_0.is_well_formed()
        },
        r is Err ==> r->Err_0.kind == FormatErrorKind::NotARepositoryUuid && r->Err_0.input@
            == repo_uuid@,
{
    let chars = chars_of(repo_uuid);
    assert(chars@.subrange(0, chars@.len() as int) =~= chars@);
    match split_repo_uuid(&chars, 0, chars.len()) {
        Some((first, second)) => {
            let ghost token = repo_uuid@;
            assert(uuid_username(token) =~= chars@.subrange(0, first as int));
            assert(uuid_after_username(token) =~= chars@.subrange(first + 1, chars@.len() as int));
            assert(uuid_machine_name(token) =~= chars@.subrange(first + 1, second as int));
            assert(uuid_repo_id(token) =~= chars@.subrange(second + 1, chars@.len() as int));
            Ok(
                RepoInformation {
                    username: string_of(&chars, 0, first),
                    machine_name: string_of(&chars, first + 1, second),
                    repo_id: string_of(&chars, second + 1, chars.len()),
                },
            )
        },
        None => Err(
            FormatError {
                kind: FormatErrorKind::NotARepositoryUuid,
                input: repo_uuid.to_owned(),
            },
        ),
    }
}

/// The first path segment of a branch in the shared repository: the
/// repository uuid of the client that owns it.
pub open spec fn global_repo_uuid(global: Seq<char>) -> Seq<char> {
    friendly_name(global).take(first_index(friendly_name(global), '/'))
}

/// The client's own reference for a branch in the shared repository:
/// `refs/heads/` and what follows the first path segment.
pub open spec fn local_image(global: Seq<char>) -> Seq<char> {
    branch_prefix() + friendly_name(global).skip(first_index(friendly_name(global), '/') + 1)
}

/// Whether `global` is `refs/heads/<repository uuid>/<branch>`.
pub open spec fn is_global_branch(global: Seq<char>) -> bool {
    &&& is_local_branch(global)
    &&& first_index(friendly_name(global), '/') < friendly_name(global).len()
    &&& is_repo_uuid(global_repo_uuid(global))
}

/// Takes a branch of the shared repository and returns where it came from:
/// the client that owns it and that client's own reference for it.
pub fn map_branch_to_local(global_branch: &ReferencePath) -> (r: Result<
    (ClientSyncConfig, ReferencePath),
    FormatError,
>)
    ensures
        r is Ok <==> is_global_branch(global_branch@),
        r is Ok ==> r->Ok_0.0.repo_uuid@ == global_repo_uuid(global_branch@) && r->Ok_0.1@
            == local_image(global_branch@),
        r is Err ==> r->Err_0.kind == FormatErrorKind::NotAGlobalBranch && r->Err_0.input@
            == global_branch@,
{
    let chars = chars_of(global_branch.as_str());
    let prefix = chars_of("refs/heads/");
    if starts_with(&chars, &prefix) {
        let start = prefix.len();
        let ghost tail = friendly_name(global_branch@);
        assert(tail =~= chars@.skip(start as int));
        let slash = find_char(&chars, start, '/');
        if slash < chars.len() {
            assert(global_repo_uuid(global_branch@) =~= chars@.subrange(
                start as int,
                slash as int,
            ));
            if split_repo_uuid(&chars, start, slash).is_some() {
                let repo_uuid = string_of(&chars, start, slash);
                let branch = string_of(&chars, slash + 1, chars.len());
                let local = String::from_str("refs/heads/").concat(branch.as_str());
                assert(tail.skip(slash - start + 1) =~= chars@.subrange(
                    slash + 1,
                    chars@.len() as int,
                ));
                return Ok((ClientSyncConfig { repo_uuid }, ReferencePath(local)));
            }
        }
    }
    Err(FormatError { kind: FormatErrorKind::NotAGlobalBranch, input: global_branch.0.clone() })
}

/// A request to modify a set of files at a specific head commit on a client:
/// the answer says which changes to those files the head does not hold yet.
#[derive(Debug, PartialEq)]
pub struct ConflictsAfterCommitRequest {
    pub files: Vec<GitPath>,
    /// The head commit of the client repository, or `None` if it has none yet.
    pub repo_head_commit: HeadCommit,
    pub repo_uuid: String,
}

/// A change on another branch that a head does not hold yet, also known as a
/// conflict: the file, the latest commit on that branch that holds it, and
/// the client and the client's branch that the commit came from.
#[derive(Debug, PartialEq)]
pub struct UnintegratedChange {
    pub file: GitPath,
    pub commit: CommitSha,
    pub branch: ReferencePath,
    pub repo_uuid: String,
}

/// An `UnintegratedChange` as four texts.
pub struct UnintegratedChangeView {
    pub file: Seq<char>,
    pub commit: Seq<char>,
    pub branch: Seq<char>,
    pub repo_uuid: Seq<char>,
}

impl View for UnintegratedChange {
    type V = UnintegratedChangeView;

    open spec fn view(&self) -> UnintegratedChangeView {
        UnintegratedChangeView {
            file: self.file@,
            commit: self.commit@,
            branch: self.branch@,
            repo_uuid: self.repo_uuid@,
        }
    }
}

/// All the changes that a head does not hold yet.
#[derive(Debug, PartialEq)]
pub struct ConflictsAfterCommitResponse {
    pub conflicts: Vec<UnintegratedChange>,
}

/// Why a client could not be given a repository uuid.
#[derive(Debug, PartialEq)]
pub enum ConfigError {
    /// The setting `user.name` is not set, or cannot be read.
    MissingConfiguration(GitFailure),
    /// The machine has no host name.
    HostnameUnavailable,
    /// The user's name and the host name give a text that is no repository
    /// uuid: one of them holds no digit and no ASCII letter.
    InvalidIdentity(String),
    /// The repository's configuration could not be read or written.
    Unavailable(GitFailure),
    /// The repository uuid is set, to nothing.
    EmptyRepositoryUuid,
}

/// The three fields with a `_` between them.
pub fn join_repo_uuid(username: &str, machine_name: &str, repo_id: &str) -> (token: String)
    ensures
        token@ == format_repo_uuid(username@, machine_name@, repo_id@),
{
    let token = String::from_str(username).concat("_").concat(machine_name).concat("_").concat(
        repo_id,
    );
    proof {
        reveal_strlit("_");
        assert("_"@ =~= seq!['_']);
    }
    token
}

/// The text from which the repository uuid of the user `name` on the machine
/// `hostname` with the random id `id` is made: the name and the host name
/// without anything but digits and ASCII letters, and the id, with `_`
/// between them, all in lower case.
pub open spec fn repo_id_text(name: Seq<char>, hostname: Seq<char>, id: Seq<char>) -> Seq<char> {
    lowercase_of(
        format_repo_uuid(lowercase_of(ascii_alnum_of(name)), ascii_alnum_of(hostname), id),
    )
}

/// Puts the text of a repository uuid together from the user's name, the
/// machine's host name and a random id.
pub fn assemble_repo_id(name: &str, hostname: &str, id: &str) -> (repo_id: String)
    ensures
        repo_id@ == repo_id_text(name@, hostname@, id@),
{
    let name_cleaned = lowercase(keep_ascii_alnum(name).as_str());
    let host_cleaned = keep_ascii_alnum(hostname);
    let joined = join_repo_uuid(name_cleaned.as_str(), host_cleaned.as_str(), id);
    lowercase(joined.as_str())
}

/// Lets a text pass as a repository uuid only if it is one, so that every
/// uuid that a client is given can be broken up again.
pub fn checked_repo_id(token: String) -> (r: Result<String, ConfigError>)
    ensures
        r is Ok <==> is_repo_uuid(token@),
        r is Ok ==> r->Ok_0 == token,
        r is Err ==> r->Err_0 == ConfigError::InvalidIdentity(token),
{
    match break_repo_uuid(token.as_str()) {
        Ok(_) => Ok(token),
        Err(_) => Err(ConfigError::InvalidIdentity(token)),
    }
}

/// Whether `id` can end a repository uuid: eight lower-case hex digits.
pub open spec fn is_random_suffix(id: Seq<char>) -> bool {
    id.len() == 8 && forall|i: int| 0 <= i < 8 ==> is_lower_hex_char(#[trigger] id[i])
}

/// A fresh random id of eight lower-case hex digits: the first eight
/// characters of a random uuid.
pub fn random_suffix() -> (id: String)
    ensures
        is_random_suffix(id@),
{
    let text = fresh_uuid_text();
    let id = text.as_str().substring_char(0, 8).to_owned();
    assert forall|i: int| 0 <= i < 8 implies is_lower_hex_char(#[trigger] id@[i]) by {
        assert(id@[i] == text@[i]);
    }
    id
}

/// Makes a repository uuid for the client repository `repo` from the
/// `user.name` of its configuration, the machine's host name and a fresh
/// random id. What comes back is a repository uuid: a name or a host name
/// that leaves a field empty is refused.
pub fn generate_repo_id(repo: &git2::Repository) -> (r: Result<String, ConfigError>)
    ensures
        r is Ok ==> is_repo_uuid(r->Ok_0@),
        r is Ok ==> exists|name: Seq<char>, hostname: Seq<char>, id: Seq<char>|
            is_random_suffix(id) && r->Ok_0@ == #[trigger] repo_id_text(name, hostname, id),
        r is Err ==> r->Err_0 is MissingConfiguration || r->Err_0 is HostnameUnavailable
            || r->Err_0 is InvalidIdentity,
        r is Err && r->Err_0 is InvalidIdentity ==> !is_repo_uuid(r->Err_0->InvalidIdentity_0@),
{
    let name = match settle(read_config_string(repo, "user.name")) {
        Ok(name) => name,
        Err(failure) => {
            return Err(ConfigError::MissingConfiguration(failure));
        },
    };
    let id = random_suffix();
    let hostname = match machine_hostname() {
        Some(hostname) => hostname,
        None => {
            return Err(ConfigError::HostnameUnavailable);
        },
    };
    checked_repo_id(assemble_repo_id(name.as_str(), hostname.as_str(), id.as_str()))
}

/// The head of a repository, given how looking it up went: a head that
/// names a branch without a commit is no failure, but the absence of a head.
pub fn head_or_unborn(head: Result<String, GitFailure>) -> (r: Result<HeadCommit, GitFailure>)
    ensures
        match head {
            Ok(id) => r is Ok && r->Ok_0 == Some(CommitSha(id)),
            Err(failure) => if failure.kind == GitFailureKind::UnbornBranch {
                r is Ok && r->Ok_0 is None
            } else {
                r == Err::<HeadCommit, GitFailure>(failure)
            },
        },
{
    match head {
        Ok(id) => Ok(Some(CommitSha(id))),
        Err(failure) => match failure.kind {
            GitFailureKind::UnbornBranch => Ok(None),
            _ => Err(failure),
        },
    }
}

pub trait RepositoryExtensions {
    /// The commit that the head points at, or `None` for a repository whose
    /// head has no commit yet: a case that has to be handled, not a failure.
    /// So no failure that comes back is that of a head without a commit, and
    /// a head that comes back is the id of a commit.
    fn head_safe(&self) -> (r: Result<HeadCommit, GitFailure>)
        ensures
            r is Err ==> r->Err_0.kind != GitFailureKind::UnbornBranch,
            r is Ok && r->Ok_0 is Some ==> is_commit_id(r->Ok_0->Some_0@),
    ;
}

impl RepositoryExtensions for git2::Repository {
    fn head_safe(&self) -> (r: Result<HeadCommit, GitFailure>) {
        head_or_unborn(settle(head_commit_id(self)))
    }
}

} // verus!
