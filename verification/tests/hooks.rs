use git2::{IndexEntry, IndexTime, Oid, Repository, RepositoryInitOptions, Signature};
use git_sync::client::SyncError;
use git_sync::git::{AttributeState, StatusRecord};
use git_sync::hooks::{
    conflict_report, conflicting_user, conflicts_of_answer, describe_conflict, endpoint_of,
    exit_status, is_clear, is_set, is_staged_change, lockable_files, lockable_staged_files,
    prepare_query, query_endpoint, staged_paths, HookError, CONFLICTS_ENDPOINT, EXIT_CLEAR, EXIT_CONFLICTS, EXIT_FAILURE,
    GLOBALGRAPH_SERVER_KEY, LOCKABLE_ATTRIBUTE,
};
use git_sync::installer::{
    dispatcher_script, hook_directory_name, is_hook_dispatcher, old_hook_action, parse_yes_or_no,
    should_move_old_hook, OldHookAction,
};
use git_sync::shared::{
    CommitSha, ConflictsAfterCommitRequest, ConflictsAfterCommitResponse, GitPath, ReferencePath,
    UnintegratedChange,
};
use tempfile::tempdir;

fn change(file: &str, commit: &str, branch: &str, client: &str) -> UnintegratedChange {
    UnintegratedChange {
        file: GitPath::new(file),
        commit: CommitSha::new(commit),
        branch: ReferencePath::new(branch),
        repo_uuid: client.to_owned(),
    }
}

#[test]
fn the_query_goes_below_the_server_url() {
    assert_eq!(CONFLICTS_ENDPOINT, "v1/conflicts_after_commit");
    assert_eq!(GLOBALGRAPH_SERVER_KEY, "globalgraph.server");
    assert_eq!(
        query_endpoint("https://server.com:12345").unwrap(),
        "https://server.com:12345/v1/conflicts_after_commit"
    );
    assert_eq!(
        query_endpoint("http://192.168.1.30:8080/graph/").unwrap(),
        "http://192.168.1.30:8080/graph/v1/conflicts_after_commit"
    );
    assert_eq!(
        query_endpoint("http://server.com/graph/index.html").unwrap(),
        "http://server.com/graph/v1/conflicts_after_commit"
    );
    for server in ["", "not a url", "server.com:x/y", "mailto:someone@server.com"] {
        assert_eq!(query_endpoint(server), Err(HookError::InvalidServerUrl(server.to_owned())));
    }
    assert_eq!(endpoint_of("a", Some("b".to_owned())), Ok("b".to_owned()));
    assert_eq!(endpoint_of("a", None), Err(HookError::InvalidServerUrl("a".to_owned())));
}

#[test]
fn only_changes_in_the_index_are_staged() {
    assert!(is_staged_change(git2::Status::INDEX_NEW.bits()));
    assert!(is_staged_change(git2::Status::INDEX_MODIFIED.bits()));
    assert!(is_staged_change(git2::Status::INDEX_DELETED.bits()));
    assert!(is_staged_change(git2::Status::INDEX_RENAMED.bits()));
    assert!(is_staged_change((git2::Status::INDEX_MODIFIED | git2::Status::WT_MODIFIED).bits()));
    assert!(!is_staged_change(git2::Status::CURRENT.bits()));
    assert!(!is_staged_change(git2::Status::INDEX_TYPECHANGE.bits()));
    assert!(!is_staged_change(git2::Status::WT_NEW.bits()));
    assert!(!is_staged_change(git2::Status::WT_MODIFIED.bits()));
    assert!(!is_staged_change(git2::Status::IGNORED.bits()));
    assert!(!is_staged_change(git2::Status::CONFLICTED.bits()));
    assert!(!is_staged_change(16));
    assert!(is_staged_change(u32::MAX));

    assert_eq!(LOCKABLE_ATTRIBUTE, "lockable");
    assert!(is_set(AttributeState::True));
    assert!(!is_set(AttributeState::False));
    assert!(!is_set(AttributeState::Text));
    assert!(!is_set(AttributeState::Unspecified));
}

fn stage(repo: &Repository, file: &str, text: &str) {
    let mut index = repo.index().unwrap();
    let entry = IndexEntry {
        ctime: IndexTime::new(0, 0),
        mtime: IndexTime::new(0, 0),
        dev: 0,
        ino: 0,
        mode: 0o100644,
        uid: 0,
        gid: 0,
        file_size: 0,
        id: Oid::zero(),
        flags: 0,
        flags_extended: 0,
        path: file.as_bytes().to_vec(),
    };
    index.add_frombuffer(&entry, text.as_bytes()).unwrap();
    index.write().unwrap();
    repo.checkout_index(Some(&mut index), Some(git2::build::CheckoutBuilder::new().force()))
        .unwrap();
}

fn commit_index(repo: &Repository) -> Oid {
    let mut index = repo.index().unwrap();
    let tree = repo.find_tree(index.write_tree().unwrap()).unwrap();
    let signature = Signature::now("Test User", "test@example.com").unwrap();
    let parents = match repo.head() {
        Ok(head) => vec![head.peel_to_commit().unwrap()],
        Err(_) => vec![],
    };
    let parents: Vec<&git2::Commit> = parents.iter().collect();
    repo.commit(Some("HEAD"), &signature, &signature, "Make some changes.", &tree, &parents)
        .unwrap()
}

fn names(files: &[GitPath]) -> Vec<&str> {
    let mut names: Vec<&str> = files.iter().map(|file| file.as_str()).collect();
    names.sort();
    names
}

#[test]
fn lockable_files_in_the_index_are_asked_about() {
    let dir = tempdir().unwrap();
    let global_path = dir.path().join("global").to_str().unwrap().to_owned();
    let local_path = dir.path().join("local").to_str().unwrap().to_owned();
    let mut options = RepositoryInitOptions::new();
    options.initial_head("master");
    Repository::init_opts(&global_path, options.bare(true)).unwrap();
    let repo = Repository::init_opts(&local_path, options.bare(false)).unwrap();
    repo.config().unwrap().set_str("user.name", "Test User").unwrap();

    assert_eq!(lockable_staged_files(&repo), Ok(vec![]));
    stage(&repo, ".gitattributes", "*.bin lockable\n*.raw -lockable\n*.dat lockable=yes\n");
    stage(&repo, "model.bin", "one");
    stage(&repo, "notes.txt", "two");
    stage(&repo, "sound.raw", "three");
    stage(&repo, "table.dat", "four");
    stage(&repo, "assets/texture.bin", "five");
    assert_eq!(
        names(&lockable_staged_files(&repo).unwrap()),
        vec!["assets/texture.bin", "model.bin"]
    );

    match prepare_query(&local_path) {
        Err(HookError::Synchronization(SyncError::RemoteNotConfigured(_))) => {}
        other => panic!("unexpected outcome: {:?}", other),
    }
    repo.remote("globalgraph", &global_path).unwrap();
    match prepare_query(&local_path) {
        Err(HookError::MissingServerUrl(_)) => {}
        other => panic!("unexpected outcome: {:?}", other),
    }
    repo.config().unwrap().set_str("globalgraph.server", "nonsense").unwrap();
    assert_eq!(
        prepare_query(&local_path),
        Err(HookError::InvalidServerUrl("nonsense".to_owned()))
    );
    repo.config().unwrap().set_str("globalgraph.server", "http://127.0.0.1:8080").unwrap();

    let query = prepare_query(&local_path).unwrap();
    assert_eq!(query.url, "http://127.0.0.1:8080/v1/conflicts_after_commit");
    assert_eq!(names(&query.payload.files), vec!["assets/texture.bin", "model.bin"]);
    assert_eq!(query.payload.repo_head_commit, None);
    assert_eq!(
        query.payload.repo_uuid,
        repo.config().unwrap().get_string("globalgraph.repouuid").unwrap()
    );

    let first = commit_index(&repo);
    assert_eq!(lockable_staged_files(&repo), Ok(vec![]));
    stage(&repo, "model.bin", "changed");
    stage(&repo, "fresh.bin", "new");
    let query = prepare_query(&local_path).unwrap();
    assert_eq!(names(&query.payload.files), vec!["fresh.bin", "model.bin"]);
    assert_eq!(query.payload.repo_head_commit, Some(CommitSha::new(&first.to_string())));

    match prepare_query(dir.path().join("missing").to_str().unwrap()) {
        Err(HookError::Synchronization(SyncError::Repository(_))) => {}
        other => panic!("unexpected outcome: {:?}", other),
    }
}

#[test]
fn only_success_carries_conflicts() {
    let one = || ConflictsAfterCommitResponse {
        conflicts: vec![change("filea.txt", "1234", "refs/heads/master", "a_b_c")],
    };
    assert_eq!(conflicts_of_answer(200, Some(one())), Ok(one().conflicts));
    assert_eq!(
        conflicts_of_answer(200, Some(ConflictsAfterCommitResponse { conflicts: vec![] })),
        Ok(vec![])
    );
    assert_eq!(conflicts_of_answer(200, None), Err(HookError::InvalidResponse));
    for status in [0, 199, 201, 204, 400, 404, 500, u16::MAX] {
        assert_eq!(conflicts_of_answer(status, Some(one())), Err(HookError::BadStatus(status)));
        assert_eq!(conflicts_of_answer(status, None), Err(HookError::BadStatus(status)));
    }
    assert!(is_clear(&vec![]));
    assert!(!is_clear(&one().conflicts));
}

#[test]
fn the_exit_status_stops_the_commit() {
    assert_eq!((EXIT_CLEAR, EXIT_FAILURE, EXIT_CONFLICTS), (0, 1, 2));
    for force in [false, true] {
        assert_eq!(exit_status(&Ok(true), force), 0);
        assert_eq!(exit_status(&Ok(false), force), 2);
    }
    for error in [
        || HookError::InvalidResponse,
        || HookError::BadStatus(500),
        || HookError::Transport("connection refused".to_owned()),
        || HookError::CurrentDirectory("gone".to_owned()),
        || HookError::Synchronization(SyncError::BranchNameNotUtf8),
    ] {
        assert_eq!(exit_status(&Err(error()), false), 1);
        assert_eq!(exit_status(&Err(error()), true), 0);
    }
}

#[test]
fn conflicts_are_reported_with_their_user() {
    assert_eq!(conflicting_user("testusera_desktop_29d519f0"), "testusera");
    assert_eq!(conflicting_user("a_b_c"), "a");
    for other in ["", "a_b", "TestUserA_Desktop_29d519f0", "xx_testusera_desktop_29d519f0"] {
        assert_eq!(conflicting_user(other), "<Unknown User>");
    }

    let first = change("filea.txt", "1234abcd", "refs/heads/master", "testusera_desktop_29d519f0");
    let second = change("dir/fileb.bin", "ffff", "refs/heads/ns/feature", "Somebody Else");
    assert_eq!(
        describe_conflict(&first),
        vec![
            "    Local file [filea.txt] is in conflict with another version of the file, committed by user [testusera]. Conflicting version:",
            "      Repository UUID: [testusera_desktop_29d519f0]",
            "      Branch: [refs/heads/master]",
            "      Commit: [1234abcd]",
        ]
    );
    assert_eq!(conflict_report(&vec![]), Vec::<String>::new());
    assert_eq!(
        conflict_report(&vec![first, second]),
        vec![
            "    Local file [filea.txt] is in conflict with another version of the file, committed by user [testusera]. Conflicting version:",
            "      Repository UUID: [testusera_desktop_29d519f0]",
            "      Branch: [refs/heads/master]",
            "      Commit: [1234abcd]",
            "    Local file [dir/fileb.bin] is in conflict with another version of the file, committed by user [<Unknown User>]. Conflicting version:",
            "      Repository UUID: [Somebody Else]",
            "      Branch: [refs/heads/ns/feature]",
            "      Commit: [ffff]",
        ]
    );
}

#[test]
fn the_dispatcher_is_known_by_its_first_line() {
    assert!(is_hook_dispatcher("#HOOK_DISPATCH\nfor file in ./pre-commit.d/*; do $file; done"));
    assert!(is_hook_dispatcher("#HOOK_DISPATCH\r\nanything"));
    assert!(is_hook_dispatcher("#HOOK_DISPATCH\r"));
    assert!(is_hook_dispatcher("#HOOK_DISPATCH\n"));
    assert!(!is_hook_dispatcher("#HOOK_DISPATCH"));
    assert!(!is_hook_dispatcher("#HOOK_DISPATCH "));
    assert!(!is_hook_dispatcher("#HOOK_DISPATCHER\n"));
    assert!(!is_hook_dispatcher("\n#HOOK_DISPATCH\n"));
    assert!(!is_hook_dispatcher("#!/bin/sh\n#HOOK_DISPATCH\n"));
    assert!(!is_hook_dispatcher("#hook_dispatch\n"));
    assert!(!is_hook_dispatcher(""));

    assert_eq!(
        dispatcher_script("pre-commit"),
        "#HOOK_DISPATCH\nfor file in ./pre-commit.d/*; do $file; done"
    );
    assert_eq!(hook_directory_name("post-commit"), "post-commit.d/");
    for name in ["pre-commit", "post-commit", "", "x"] {
        assert!(is_hook_dispatcher(&dispatcher_script(name)));
        assert!(!should_move_old_hook(Some(&dispatcher_script(name))));
    }
    assert!(should_move_old_hook(Some("#!/bin/sh\nexit 0\n")));
    assert!(should_move_old_hook(Some("")));
    assert!(!should_move_old_hook(None));
}

#[test]
fn answers_are_yes_or_no() {
    for yes in ["Y", "y", "yes", "Yes", "YES"] {
        assert_eq!(parse_yes_or_no(yes), Some(true));
    }
    for no in ["N", "n", "no", "No", "NO"] {
        assert_eq!(parse_yes_or_no(no), Some(false));
    }
    for other in ["", " y", "y ", "yEs", "nO", "yes\n", "ja", "0", "1", "true"] {
        assert_eq!(parse_yes_or_no(other), None);
    }
}

/// The paths of the commit to come are those with a change in the index,
/// whatever else their status holds, each as often as it is listed.
#[test]
fn staged_paths_are_those_with_a_change_in_the_index() {
    let record = |path: Option<&str>, bits: u32| StatusRecord { path: path.map(str::to_owned), bits };
    let index_new = git2::Status::INDEX_NEW.bits();
    let index_modified = git2::Status::INDEX_MODIFIED.bits();
    let worktree_modified = git2::Status::WT_MODIFIED.bits();
    let records = vec![
        record(Some("new.bin"), index_new),
        record(Some("untouched.bin"), git2::Status::CURRENT.bits()),
        record(Some("both.bin"), index_modified | worktree_modified),
        record(None, index_modified),
        record(Some("worktree.bin"), worktree_modified),
        record(Some("deleted.txt"), git2::Status::INDEX_DELETED.bits()),
        record(Some("new.bin"), git2::Status::INDEX_RENAMED.bits()),
        record(Some("ignored.bin"), git2::Status::IGNORED.bits()),
    ];
    assert_eq!(staged_paths(&records), vec!["new.bin", "both.bin", "deleted.txt", "new.bin"]);
    assert_eq!(staged_paths(&vec![]), Vec::<String>::new());
}

/// The files to ask about are the paths whose attribute is set to true, in
/// their order.
#[test]
fn lockable_files_are_those_with_the_attribute_set() {
    let candidates = vec![
        ("new.bin".to_owned(), AttributeState::True),
        ("notes.txt".to_owned(), AttributeState::Unspecified),
        ("sound.raw".to_owned(), AttributeState::False),
        ("table.dat".to_owned(), AttributeState::Text),
        ("assets/texture.bin".to_owned(), AttributeState::True),
        ("new.bin".to_owned(), AttributeState::True),
    ];
    assert_eq!(
        lockable_files(&candidates),
        vec![GitPath::new("new.bin"), GitPath::new("assets/texture.bin"), GitPath::new("new.bin")]
    );
    assert_eq!(lockable_files(&vec![]), vec![]);
    assert_eq!(lockable_files(&vec![("a".to_owned(), AttributeState::False)]), vec![]);
}

/// A hook that is no dispatcher is moved aside, but never onto another file;
/// the dispatcher and a hook that cannot be read stay.
#[test]
fn an_old_hook_is_moved_only_to_a_free_place() {
    let dispatcher = dispatcher_script("pre-commit");
    for taken in [false, true] {
        assert_eq!(old_hook_action(Some(&dispatcher), taken), OldHookAction::Keep);
        assert_eq!(old_hook_action(None, taken), OldHookAction::Keep);
    }
    assert_eq!(old_hook_action(Some("#!/bin/sh\nexit 0\n"), false), OldHookAction::Move);
    assert_eq!(old_hook_action(Some("#!/bin/sh\nexit 0\n"), true), OldHookAction::Refuse);
    assert_eq!(old_hook_action(Some(""), false), OldHookAction::Move);
    assert_eq!(old_hook_action(Some(""), true), OldHookAction::Refuse);
}
