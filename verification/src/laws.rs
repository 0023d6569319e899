//! What holds between the functions that map branches and repository uuids,
//! and of the rules by which the latest commit is chosen and a head holds a
//! change, stated over the same spec functions as their contracts.

use vstd::prelude::*;
use crate::server::{
    commit_at,
    finding,
    integrates,
    is_latest_holding,
    tree_holds,
    CommitListing,
};
use crate::shared::{
    branch_prefix,
    format_repo_uuid,
    friendly_name,
    global_image,
    global_repo_uuid,
    is_global_branch,
    is_local_branch,
    is_repo_uuid,
    is_uuid_field,
    local_image,
    UnintegratedChangeView,
    uuid_after_username,
    uuid_machine_name,
    uuid_repo_id,
    uuid_username,
};
use crate::text::{first_index, is_lower_alnum_char, lemma_first_index, lemma_first_index_unique};

verus! {

/// Position of the second `_` of `token`, where it has two.
pub open spec fn second_underscore(token: Seq<char>) -> int {
    first_index(token, '_') + 1 + first_index(uuid_after_username(token), '_')
}

/// Breaking up the repository uuid of three fields gives the three fields
/// back.
pub proof fn lemma_break_of_format(
    username: Seq<char>,
    machine_name: Seq<char>,
    repo_id: Seq<char>,
)
    requires
        is_uuid_field(username),
        is_uuid_field(machine_name),
        is_uuid_field(repo_id),
    ensures
        is_repo_uuid(format_repo_uuid(username, machine_name, repo_id)),
        uuid_username(format_repo_uuid(username, machine_name, repo_id)) == username,
        uuid_machine_name(format_repo_uuid(username, machine_name, repo_id)) == machine_name,
        uuid_repo_id(format_repo_uuid(username, machine_name, repo_id)) == repo_id,
{
    let token = format_repo_uuid(username, machine_name, repo_id);
    let rest = machine_name + seq!['_'] + repo_id;
    assert(token =~= username + seq!['_'] + rest);
    assert forall|i: int| 0 <= i < username.len() implies token[i] != '_' by {
        assert(is_lower_alnum_char(username[i]));
    }
    lemma_first_index_unique(token, '_', username.len() as int);
    assert(uuid_username(token) =~= username);
    assert(uuid_after_username(token) =~= rest);
    assert forall|i: int| 0 <= i < machine_name.len() implies rest[i] != '_' by {
        assert(is_lower_alnum_char(machine_name[i]));
    }
    lemma_first_index_unique(rest, '_', machine_name.len() as int);
    assert(uuid_machine_name(token) =~= machine_name);
    assert(uuid_repo_id(token) =~= repo_id);
}

/// A repository uuid is the uuid of its own three fields.
pub proof fn lemma_format_of_break(token: Seq<char>)
    requires
        is_repo_uuid(token),
    ensures
        format_repo_uuid(uuid_username(token), uuid_machine_name(token), uuid_repo_id(token))
            == token,
{
    lemma_first_index(token, '_');
    lemma_first_index(uuid_after_username(token), '_');
    assert(format_repo_uuid(uuid_username(token), uuid_machine_name(token), uuid_repo_id(token))
        =~= token);
}

/// A repository uuid holds exactly two `_`, and nothing else but digits and
/// lower-case letters: a text with an upper-case letter, with fewer than
/// three fields or with more is none.
pub proof fn lemma_repo_uuid_shape(token: Seq<char>)
    requires
        is_repo_uuid(token),
    ensures
        0 < first_index(token, '_') < second_underscore(token) - 1 < token.len() - 2,
        forall|i: int|
            0 <= i < token.len() ==> (token[i] == '_' <==> (i == first_index(token, '_') || i
                == second_underscore(token))),
        forall|i: int|
            0 <= i < token.len() ==> token[i] == '_' || is_lower_alnum_char(#[trigger] token[i]),
{
    let first = first_index(token, '_');
    let rest = uuid_after_username(token);
    let second = second_underscore(token);
    lemma_first_index(token, '_');
    lemma_first_index(rest, '_');
    assert(token[second] == rest[second - first - 1]);
    assert forall|i: int| 0 <= i < token.len() && i != first && i != second implies token[i] != '_'
        && is_lower_alnum_char(#[trigger] token[i]) by {
        if i < first {
            assert(is_lower_alnum_char(uuid_username(token)[i]));
        } else if i < second {
            assert(is_lower_alnum_char(uuid_machine_name(token)[i - first - 1]));
            assert(uuid_machine_name(token)[i - first - 1] == token[i]);
        } else {
            assert(is_lower_alnum_char(uuid_repo_id(token)[i - second - 1]));
            assert(uuid_repo_id(token)[i - second - 1] == token[i]);
        }
    }
}

/// Mapping a client's branch into the shared repository and back gives the
/// client's repository uuid and the branch itself, whatever the branch name
/// holds behind `refs/heads/`.
pub proof fn lemma_local_of_global(repo_uuid: Seq<char>, reference: Seq<char>)
    requires
        is_repo_uuid(repo_uuid),
        is_local_branch(reference),
    ensures
        is_global_branch(global_image(repo_uuid, reference)),
        global_repo_uuid(global_image(repo_uuid, reference)) == repo_uuid,
        local_image(global_image(repo_uuid, reference)) == reference,
{
    let global = global_image(repo_uuid, reference);
    let name = friendly_name(reference);
    let tail = repo_uuid + seq!['/'] + name;
    assert(global =~= branch_prefix() + tail);
    assert(global.subrange(0, branch_prefix().len() as int) =~= branch_prefix());
    assert(friendly_name(global) =~= tail);
    lemma_repo_uuid_shape(repo_uuid);
    assert forall|i: int| 0 <= i < repo_uuid.len() implies tail[i] != '/' by {
        assert(repo_uuid[i] == '_' || is_lower_alnum_char(repo_uuid[i]));
    }
    lemma_first_index_unique(tail, '/', repo_uuid.len() as int);
    assert(global_repo_uuid(global) =~= repo_uuid);
    assert(tail.skip(repo_uuid.len() as int + 1) =~= name);
    assert(branch_prefix() + name =~= reference);
}

/// A branch of the shared repository is the image of the branch and the
/// client that it maps back to.
pub proof fn lemma_global_of_local(global: Seq<char>)
    requires
        is_global_branch(global),
    ensures
        is_local_branch(local_image(global)),
        global_image(global_repo_uuid(global), local_image(global)) == global,
{
    let tail = friendly_name(global);
    let branch = tail.skip(first_index(tail, '/') + 1);
    let local = local_image(global);
    lemma_first_index(tail, '/');
    assert(local.subrange(0, branch_prefix().len() as int) =~= branch_prefix());
    assert(friendly_name(local) =~= branch);
    assert(global_repo_uuid(global) + seq!['/'] + branch =~= tail);
    assert(branch_prefix() + tail =~= global);
    assert(global_image(global_repo_uuid(global), local) =~= branch_prefix() + (
    global_repo_uuid(global) + seq!['/'] + branch));
}

/// No two clients share a place in the shared repository, and no two
/// branches of one client: branches with the same image are the same branch
/// of the same client.
pub proof fn lemma_images_do_not_collide(
    first_uuid: Seq<char>,
    first: Seq<char>,
    second_uuid: Seq<char>,
    second: Seq<char>,
)
    requires
        is_repo_uuid(first_uuid),
        is_repo_uuid(second_uuid),
        is_local_branch(first),
        is_local_branch(second),
        global_image(first_uuid, first) == global_image(second_uuid, second),
    ensures
        first_uuid == second_uuid,
        first == second,
{
    lemma_local_of_global(first_uuid, first);
    lemma_local_of_global(second_uuid, second);
}

/// A text that does not begin with `refs/heads/`, and a branch reference
/// with no `/` behind `refs/heads/`, is no branch of the shared repository.
pub proof fn lemma_without_namespace_not_global(reference: Seq<char>)
    requires
        !is_local_branch(reference) || !friendly_name(reference).contains('/'),
    ensures
        !is_global_branch(reference),
{
    if is_local_branch(reference) {
        let tail = friendly_name(reference);
        lemma_first_index(tail, '/');
        if first_index(tail, '/') < tail.len() {
            assert(tail.contains(tail[first_index(tail, '/')]));
        }
    }
}

/// A branch reference whose first path segment is no repository uuid is no
/// branch of the shared repository.
pub proof fn lemma_foreign_namespace_not_global(reference: Seq<char>)
    requires
        !is_repo_uuid(global_repo_uuid(reference)),
    ensures
        !is_global_branch(reference),
{
}

/// A branch on which no commit holds the file is no conflict for any head.
pub proof fn lemma_untouched_file_is_no_conflict(
    branch: Seq<char>,
    head: Option<Seq<char>>,
    file: Seq<char>,
    descends: bool,
)
    ensures
        finding(branch, head, file, None, descends) is None,
{
}

/// A head that descends from the commit that changed a file last holds the
/// change: there is no conflict.
pub proof fn lemma_integrated_change_is_no_conflict(
    branch: Seq<char>,
    head: Seq<char>,
    file: Seq<char>,
    latest: Seq<char>,
)
    ensures
        finding(branch, Some(head), file, Some(latest), true) is None,
{
}

/// A head holds its own change: the commit that changed a file last is no
/// conflict for a head that is this very commit, although the repository
/// counts no commit among its own descendants.
pub proof fn lemma_head_is_no_conflict_for_itself(
    branch: Seq<char>,
    head: Seq<char>,
    file: Seq<char>,
    descends: bool,
)
    ensures
        integrates(Some(head), head, descends),
        finding(branch, Some(head), file, Some(head), descends) is None,
{
}

/// A head that is another commit than the one that changed a file last, and
/// does not descend from it, has a conflict: that commit, under the client
/// and the client's own name for the branch.
pub proof fn lemma_unintegrated_change_is_a_conflict(
    branch: Seq<char>,
    head: Seq<char>,
    file: Seq<char>,
    latest: Seq<char>,
)
    requires
        head != latest,
    ensures
        finding(branch, Some(head), file, Some(latest), false) == Some(
            UnintegratedChangeView {
                file,
                commit: latest,
                branch: local_image(branch),
                repo_uuid: global_repo_uuid(branch),
            },
        ),
{
}

/// A repository that has no commit yet holds no change: every file that
/// some commit of a branch holds is a conflict for it, whatever the
/// repository says of ancestry.
pub proof fn lemma_unborn_head_always_conflicts(
    branch: Seq<char>,
    file: Seq<char>,
    latest: Seq<char>,
    descends: bool,
)
    ensures
        !integrates(None, latest, descends),
        finding(branch, None, file, Some(latest), descends) == Some(
            UnintegratedChangeView {
                file,
                commit: latest,
                branch: local_image(branch),
                repo_uuid: global_repo_uuid(branch),
            },
        ),
{
}

/// The commits of a walk and the file decide which commit is the latest
/// that holds the file: there is one place for it, or none.
pub proof fn lemma_latest_holding_is_unique(
    first: Option<int>,
    second: Option<int>,
    commits: Seq<CommitListing>,
    file: Seq<char>,
)
    requires
        is_latest_holding(first, commits, file),
        is_latest_holding(second, commits, file),
    ensures
        first == second,
{
    match (first, second) {
        (Some(i), Some(j)) => {
            if i < j {
                assert(!tree_holds(commits[i].entries@, file));
            } else if j < i {
                assert(!tree_holds(commits[j].entries@, file));
            }
        },
        (Some(i), None) => {
            assert(!tree_holds(commits[i].entries@, file));
        },
        (None, Some(j)) => {
            assert(!tree_holds(commits[j].entries@, file));
        },
        (None, None) => {},
    }
}

/// A branch on which no commit of the walk has the file in its top-level
/// tree is no conflict for any head: a path that is the name of no entry,
/// such as one that begins with `./`, conflicts with nothing.
pub proof fn lemma_file_in_no_tree_is_no_conflict(
    at: Option<int>,
    commits: Seq<CommitListing>,
    branch: Seq<char>,
    head: Option<Seq<char>>,
    file: Seq<char>,
    descends: bool,
)
    requires
        is_latest_holding(at, commits, file),
        forall|j: int| 0 <= j < commits.len() ==> !tree_holds((#[trigger] commits[j]).entries@, file),
    ensures
        at is None,
        finding(branch, head, file, commit_at(at, commits), descends) is None,
{
    if at is Some {
        assert(!tree_holds(commits[at->Some_0].entries@, file));
    }
}

/// A branch whose tip has the file in its top-level tree conflicts, with
/// the tip, for every head that does not hold the tip's change: the tip is
/// the latest commit that holds the file, and it is reported under the
/// client and the client's own name for the branch.
pub proof fn lemma_change_at_the_tip_is_a_conflict(
    at: Option<int>,
    commits: Seq<CommitListing>,
    branch: Seq<char>,
    head: Option<Seq<char>>,
    file: Seq<char>,
    descends: bool,
)
    requires
        is_latest_holding(at, commits, file),
        commits.len() > 0,
        tree_holds(commits[0].entries@, file),
        !integrates(head, commits[0].id@, descends),
    ensures
        at == Some(0int),
        finding(branch, head, file, commit_at(at, commits), descends) == Some(
            UnintegratedChangeView {
                file,
                commit: commits[0].id@,
                branch: local_image(branch),
                repo_uuid: global_repo_uuid(branch),
            },
        ),
{
    lemma_latest_holding_is_unique(at, Some(0int), commits, file);
}

/// A repository that has no commit yet conflicts with every branch on which
/// some commit of the walk has the file in its top-level tree, with the
/// latest such commit, whatever the repository says of ancestry.
pub proof fn lemma_unborn_head_conflicts_with_the_latest(
    at: Option<int>,
    commits: Seq<CommitListing>,
    branch: Seq<char>,
    file: Seq<char>,
    descends: bool,
    holder: int,
)
    requires
        is_latest_holding(at, commits, file),
        0 <= holder < commits.len(),
        tree_holds(commits[holder].entries@, file),
    ensures
        at is Some,
        at->Some_0 <= holder,
        finding(branch, None, file, commit_at(at, commits), descends) == Some(
            UnintegratedChangeView {
                file,
                commit: commits[at->Some_0].id@,
                branch: local_image(branch),
                repo_uuid: global_repo_uuid(branch),
            },
        ),
{
    match at {
        Some(i) => {
            if holder < i {
                assert(!tree_holds(commits[holder].entries@, file));
            }
        },
        None => {
            assert(!tree_holds(commits[holder].entries@, file));
        },
    }
}

/// A head that descends from the latest commit of a branch that holds the
/// file holds the change: the branch is no conflict for it, whichever
/// commit that is.
pub proof fn lemma_descendant_of_the_latest_has_no_conflict(
    at: Option<int>,
    commits: Seq<CommitListing>,
    branch: Seq<char>,
    head: Seq<char>,
    file: Seq<char>,
)
    requires
        is_latest_holding(at, commits, file),
    ensures
        finding(branch, Some(head), file, commit_at(at, commits), true) is None,
{
}

} // verus!
