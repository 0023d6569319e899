//! Access to a git repository: the calls into `git2` that the rest of the
//! library is built on. Nothing is proved of what a repository answers; each
//! function here hands the answer on as plain values.

use vstd::prelude::*;
use crate::host::is_lower_hex_char;

verus! {

/// Whether `c` is a hex digit, in either case.
pub open spec fn is_hex_char(c: char) -> bool {
    is_lower_hex_char(c) || ('A' <= c && c <= 'F')
}

/// Whether `text` can be read as the id of an object: one to forty hex
/// digits.
pub open spec fn is_object_id_text(text: Seq<char>) -> bool {
    &&& 0 < text.len() <= 40
    &&& forall|i: int| 0 <= i < text.len() ==> is_hex_char(#[trigger] text[i])
}

/// Whether `text` is the id of a commit as the repository prints it: forty
/// lower-case hex digits.
pub open spec fn is_commit_id(text: Seq<char>) -> bool {
    &&& text.len() == 40
    &&& forall|i: int| 0 <= i < 40 ==> is_lower_hex_char(#[trigger] text[i])
}

/// `git2::Repository`, a handle on a repository on disk.
#[verifier::external_type_specification]
#[verifier::external_body]
pub struct ExRepository(git2::Repository);

/// `git2::Error`, the error of every call into `git2`.
#[verifier::external_type_specification]
#[verifier::external_body]
pub struct ExGitError(git2::Error);

/// The error codes of `git2` that decide what the library does next.
#[derive(Debug, PartialEq, Eq, Clone, Copy, Structural)]
pub enum GitFailureKind {
    /// The requested object or setting does not exist.
    NotFound,
    /// The head names a branch that has no commit yet.
    UnbornBranch,
    /// Any other code.
    Other,
}

/// A failed call into `git2`: its code and its message.
#[derive(Debug, PartialEq)]
pub struct GitFailure {
    pub kind: GitFailureKind,
    pub message: String,
}

/// Whether a branch belongs to the repository itself or tracks a remote.
#[derive(Debug, PartialEq, Eq, Clone, Copy, Structural)]
pub enum BranchKind {
    Local,
    Remote,
}

/// A branch as the repository lists it: its full reference name, absent when
/// the name is not UTF-8, and its kind.
#[derive(Debug, PartialEq)]
pub struct BranchEntry {
    pub reference: Option<String>,
    pub kind: BranchKind,
}

/// What a path's attribute is set to.
#[derive(Debug, PartialEq, Eq, Clone, Copy, Structural)]
pub enum AttributeState {
    True,
    False,
    Text,
    Unspecified,
}

/// A file as `git status` lists it: its path, absent when it is not UTF-8,
/// and the status flags of `git2::Status` as bits.
#[derive(Debug, PartialEq)]
pub struct StatusRecord {
    pub path: Option<String>,
    pub bits: u32,
}

/// `git2::Error::code` and `git2::Error::message`: the code, reduced to
/// the kinds that the library tells apart, and the message. Nothing is
/// claimed of either.
#[verifier::external_body]
pub(crate) fn failure_of(error: &git2::Error) -> GitFailure {
    GitFailure {
        kind: match error.code() {
            git2::ErrorCode::NotFound => GitFailureKind::NotFound,
            git2::ErrorCode::UnbornBranch => GitFailureKind::UnbornBranch,
            _ => GitFailureKind::Other,
        },
        message: error.message().to_owned(),
    }
}

/// `git2::Repository::open`: opens the repository at `path`, bare or not.
/// Whether it succeeds depends on what is on disk.
#[verifier::external_body]
pub(crate) fn open_repository(path: &str) -> Result<git2::Repository, git2::Error> {
    git2::Repository::open(path)
}

/// `git2::Repository::open_bare`: opens the bare repository at `path`.
/// Whether it succeeds depends on what is on disk.
#[verifier::external_body]
pub(crate) fn open_bare_repository(path: &str) -> Result<git2::Repository, git2::Error> {
    git2::Repository::open_bare(path)
}

/// `git2::Repository::init_bare`: creates a bare repository in the existing
/// directory `path`. Whether it succeeds depends on what is on disk.
#[verifier::external_body]
pub(crate) fn init_bare_repository(path: &str) -> Result<git2::Repository, git2::Error> {
    git2::Repository::init_bare(path)
}

/// `git2::Config::get_string` on `git2::Repository::config`: the value of
/// the setting `key`. The value is whatever the configuration files hold.
#[verifier::external_body]
pub(crate) fn read_config_string(repo: &git2::Repository, key: &str) -> Result<
    String,
    git2::Error,
> {
    repo.config()?.get_string(key)
}

/// `git2::Config::set_str` on `git2::Repository::config`: stores `value`
/// under `key` in the repository's configuration.
#[verifier::external_body]
pub(crate) fn write_config_string(repo: &git2::Repository, key: &str, value: &str) -> Result<
    (),
    git2::Error,
> {
    repo.config()?.set_str(key, value)
}

/// `git2::Repository::branches` without a filter: every branch with its
/// reference name (`git2::Reference::name` of `git2::Branch::get`) and its
/// `git2::BranchType`, in the order of the iterator, or the first error that
/// the iterator gave.
#[verifier::external_body]
pub(crate) fn list_branches(repo: &git2::Repository) -> Result<Vec<BranchEntry>, git2::Error> {
    repo.branches(None)?.map(
        |item| {
            item.map(
                |(branch, kind)| BranchEntry {
                    reference: branch.get().name().ok().map(str::to_owned),
                    kind: match kind {
                        git2::BranchType::Local => BranchKind::Local,
                        git2::BranchType::Remote => BranchKind::Remote,
                    },
                },
            )
        },
    ).collect()
}

/// `git2::Revwalk` from `git2::Repository::revwalk`, after
/// `git2::Revwalk::push_ref` of `reference`: the ids of the commits
/// that can be reached from the reference, as hex text, in the order in which
/// the walk gives them, or the first error of the walk. Which commits come
/// depends on the repository; what is claimed is the form in which
/// `git2::Oid` prints an id, forty lower-case hex digits.
#[verifier::external_body]
pub(crate) fn walk_from_reference(repo: &git2::Repository, reference: &str) -> (r: Result<
    Vec<String>,
    git2::Error,
>)
    ensures
        r is Ok ==> forall|i: int|
            0 <= i < r->Ok_0@.len() ==> is_commit_id((#[trigger] r->Ok_0@[i])@),
{
    let mut walk = repo.revwalk()?;
    walk.push_ref(reference)?;
    walk.map(|item| item.map(|oid| oid.to_string())).collect()
}

/// `git2::Repository::find_commit` of the id that `git2::Oid::from_str`
/// reads from `sha`: the id of the commit found, as hex text. Whether the
/// commit is found depends on the repository. What is claimed is that
/// `git2::Oid::from_str` refuses a text that is empty, longer than forty
/// characters or not made of hex digits, and the form in which `git2::Oid`
/// prints an id, forty lower-case hex digits.
#[verifier::external_body]
pub(crate) fn find_commit_id(repo: &git2::Repository, sha: &str) -> (r: Result<
    String,
    git2::Error,
>)
    ensures
        !is_object_id_text(sha@) ==> r is Err,
        r is Ok ==> is_commit_id(r->Ok_0@),
{
    Ok(repo.find_commit(git2::Oid::from_str(sha)?)?.id().to_string())
}

/// `git2::Tree::iter` on `git2::Commit::tree` of the commit `sha`: the
/// name of each entry of the commit's top-level tree
/// (`git2::TreeEntry::name`), absent where it is not UTF-8.
#[verifier::external_body]
pub(crate) fn tree_entry_names(repo: &git2::Repository, sha: &str) -> Result<
    Vec<Option<String>>,
    git2::Error,
> {
    let tree = repo.find_commit(git2::Oid::from_str(sha)?)?.tree()?;
    Ok(tree.iter().map(|entry| entry.name().ok().map(str::to_owned)).collect())
}

/// `git2::Repository::graph_descendant_of`: whether `commit` is a
/// descendant of `ancestor`. The answer depends on the repository's
/// history; a commit is no descendant of itself.
#[verifier::external_body]
pub(crate) fn is_descendant_of(repo: &git2::Repository, commit: &str, ancestor: &str) -> Result<
    bool,
    git2::Error,
> {
    repo.graph_descendant_of(git2::Oid::from_str(commit)?, git2::Oid::from_str(ancestor)?)
}

/// `git2::Remote::url` of `git2::Repository::find_remote`: the url of
/// the remote `name`.
#[verifier::external_body]
pub(crate) fn remote_url(repo: &git2::Repository, name: &str) -> Result<String, git2::Error> {
    repo.find_remote(name)?.url().map(str::to_owned)
}

/// `git2::Remote::push` on `git2::Repository::find_remote`: pushes the
/// one refspec to the remote `name`, with default options.
#[verifier::external_body]
pub(crate) fn push_to_remote(repo: &git2::Repository, name: &str, refspec: &str) -> Result<
    (),
    git2::Error,
> {
    repo.find_remote(name)?.push(&[refspec], None)
}

/// `git2::Reference::peel_to_commit` of `git2::Repository::head`: the id
/// of the commit that the head points at, as hex text. Which commit that is
/// depends on the repository; what is claimed is the form in which
/// `git2::Oid` prints an id, forty lower-case hex digits.
#[verifier::external_body]
pub(crate) fn head_commit_id(repo: &git2::Repository) -> (r: Result<String, git2::Error>)
    ensures
        r is Ok ==> is_commit_id(r->Ok_0@),
{
    Ok(repo.head()?.peel_to_commit()?.id().to_string())
}

/// `git2::Repository::statuses` with default options: every entry with
/// its path (`git2::StatusEntry::path`) and its flags
/// (`git2::Status::bits` of `git2::StatusEntry::status`).
#[verifier::external_body]
pub(crate) fn list_statuses(repo: &git2::Repository) -> Result<Vec<StatusRecord>, git2::Error> {
    Ok(
        repo.statuses(None)?.iter().map(
            |entry| StatusRecord {
                path: entry.path().ok().map(str::to_owned),
                bits: entry.status().bits(),
            },
        ).collect(),
    )
}

/// `git2::AttrValue::from_string` of `git2::Repository::get_attr`: what
/// the attribute `name` is set to for `path`, looked up in the working
/// directory, then the index.
#[verifier::external_body]
pub(crate) fn attribute_state(repo: &git2::Repository, path: &str, name: &str) -> Result<
    AttributeState,
    git2::Error,
> {
    let value = repo.get_attr(std::path::Path::new(path), name, git2::AttrCheckFlags::empty())?;
    Ok(
        match git2::AttrValue::from_string(value) {
            git2::AttrValue::True => AttributeState::True,
            git2::AttrValue::False => AttributeState::False,
            git2::AttrValue::Unspecified => AttributeState::Unspecified,
            _ => AttributeState::Text,
        },
    )
}

/// A call's result with its error as a value of the library.
pub(crate) fn settle<T>(outcome: Result<T, git2::Error>) -> (r: Result<T, GitFailure>)
    ensures
        r is Ok <==> outcome is Ok,
        r is Ok ==> r->Ok_0 == outcome->Ok_0,
{
    match outcome {
        Ok(value) => Ok(value),
        Err(error) => Err(failure_of(&error)),
    }
}

} // verus!
