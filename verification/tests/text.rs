use git_sync::server::decide_finding;
use git_sync::shared::{
    CommitSha, FormatErrorKind, GitPath, ReferencePath, UnintegratedChange,
};
use git_sync::text::{chars_of, keep_ascii_alnum, same_text, starts_with};

#[test]
fn strings_give_their_characters() {
    assert_eq!(chars_of(""), Vec::<char>::new());
    assert_eq!(chars_of("a/ü_"), vec!['a', '/', 'ü', '_']);
    assert_eq!(chars_of("refs/heads/ü").len(), 12);
}

#[test]
fn prefixes_and_equal_texts() {
    assert!(starts_with(&chars_of("refs/heads/x"), &chars_of("refs/heads/")));
    assert!(starts_with(&chars_of("refs/heads/"), &chars_of("refs/heads/")));
    assert!(starts_with(&chars_of("x"), &chars_of("")));
    assert!(!starts_with(&chars_of("refs/heads"), &chars_of("refs/heads/")));
    assert!(!starts_with(&chars_of("xrefs/heads/"), &chars_of("refs/heads/")));
    assert!(same_text("", ""));
    assert!(same_text("filea.txt", "filea.txt"));
    assert!(!same_text("filea.txt", "fileb.txt"));
    assert!(!same_text("filea.txt", "filea.tx"));
    assert!(!same_text("a", "A"));
}

#[test]
fn names_keep_their_digits_and_letters() {
    assert_eq!(keep_ascii_alnum("Test User A"), "TestUserA");
    assert_eq!(keep_ascii_alnum("j.r.r. O'Neil-3rd_[x]"), "jrrONeil3rdx");
    assert_eq!(keep_ascii_alnum("Zoë 09 `{@[/:"), "Zo09");
    assert_eq!(keep_ascii_alnum(""), "");
}

#[test]
fn a_finding_follows_from_the_latest_commit_and_the_ancestry() {
    let branch = ReferencePath::new("refs/heads/a_b_c/ns/feature");
    let file = GitPath::new("filea.txt");
    let head = Some(CommitSha::new("1111"));
    let conflict = || UnintegratedChange {
        file: GitPath::new("filea.txt"),
        commit: CommitSha::new("2222"),
        branch: ReferencePath::new("refs/heads/ns/feature"),
        repo_uuid: "a_b_c".to_owned(),
    };
    let latest = || Some(CommitSha::new("2222"));

    for descends in [false, true] {
        assert_eq!(decide_finding(&branch, &head, &file, None, descends), Ok(None));
        assert_eq!(decide_finding(&branch, &None, &file, None, descends), Ok(None));
        assert_eq!(decide_finding(&branch, &None, &file, latest(), descends), Ok(Some(conflict())));
        assert_eq!(decide_finding(&branch, &latest(), &file, latest(), descends), Ok(None));
    }
    assert_eq!(decide_finding(&branch, &head, &file, latest(), true), Ok(None));
    assert_eq!(decide_finding(&branch, &head, &file, latest(), false), Ok(Some(conflict())));

    let stray = ReferencePath::new("refs/heads/master");
    assert_eq!(decide_finding(&stray, &head, &file, None, false), Ok(None));
    assert_eq!(decide_finding(&stray, &head, &file, latest(), true), Ok(None));
    let refused = decide_finding(&stray, &head, &file, latest(), false).unwrap_err();
    assert_eq!(refused.kind, FormatErrorKind::NotAGlobalBranch);
    assert_eq!(refused.input, "refs/heads/master");
}
