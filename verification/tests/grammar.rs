use git_sync::installer::is_hook_dispatcher;
use git_sync::shared::{break_repo_uuid, map_branch_to_local, to_friendly_name, ReferencePath};
use regex::Regex;

/// Every text over `alphabet` of at most `length` characters.
fn texts(alphabet: &[char], length: usize) -> Vec<String> {
    let mut all = vec![String::new()];
    let mut last = vec![String::new()];
    for _ in 0..length {
        let mut next = Vec::new();
        for text in &last {
            for c in alphabet {
                let mut longer = text.clone();
                longer.push(*c);
                next.push(longer);
            }
        }
        all.extend(next.iter().cloned());
        last = next;
    }
    all
}

/// A repository uuid is what the pattern of three fields matches, and its
/// parts are what the pattern captures.
#[test]
fn repository_uuids_follow_the_pattern() {
    let pattern =
        Regex::new(r"^(?P<username>[0-9a-z]+)_(?P<machine_name>[0-9a-z]+)_(?P<repo_id>[0-9a-z]+)$")
            .unwrap();
    let mut accepted = 0;
    for token in texts(&['a', 'z', '0', '_', 'A', '/', '\n'], 6) {
        match (pattern.captures(&token), break_repo_uuid(&token)) {
            (Some(captures), Ok(info)) => {
                assert_eq!(info.username, &captures["username"]);
                assert_eq!(info.machine_name, &captures["machine_name"]);
                assert_eq!(info.repo_id, &captures["repo_id"]);
                accepted += 1;
            }
            (None, Err(refused)) => assert_eq!(refused.input, token),
            (expected, got) => panic!("[{:?}]: {:?} but {:?}", token, expected, got),
        }
    }
    assert_eq!(accepted, 3 * 3 * 3 + 3 * 27 * 2 + 3 * 9 * 3);
}

/// A branch of the shared repository is what the pattern of a repository
/// uuid and a rest matches.
#[test]
fn global_branches_follow_the_pattern() {
    let pattern =
        Regex::new(r"(?s)^refs/heads/(?P<repo_uuid>[0-9a-z]+_[0-9a-z]+_[0-9a-z]+)/(?P<branch_name>.*)$")
            .unwrap();
    let mut accepted = 0;
    let mut tails = texts(&['a', '_', '/', 'A'], 8);
    tails.extend(texts(&['a', '0', '_', '/', '\n', 'é'], 6));
    for tail in tails {
        for prefix in ["refs/heads/", "refs/heads", "refs/head/", ""] {
            let reference = format!("{}{}", prefix, tail);
            let found = map_branch_to_local(&ReferencePath::new(&reference));
            match (pattern.captures(&reference), found) {
                (Some(captures), Ok((owner, local))) => {
                    assert_eq!(owner.repo_uuid, &captures["repo_uuid"]);
                    assert_eq!(local.as_str(), format!("refs/heads/{}", &captures["branch_name"]));
                    accepted += 1;
                }
                (None, Err(refused)) => assert_eq!(refused.input, reference),
                (expected, got) => panic!("[{:?}]: {:?} but {:?}", reference, expected, got),
            }
        }
    }
    assert_eq!(accepted, 21 + 15 + 6 + 8 + 5 + 3);
}

/// A friendly name is what follows `refs/heads/` at the start.
#[test]
fn local_branches_follow_the_pattern() {
    let pattern = Regex::new(r"(?s)^refs/heads/(?P<name>.*)$").unwrap();
    for tail in texts(&['r', 'e', 'f', 's', '/', 'h', 'a', 'd'], 4) {
        for prefix in ["refs/heads/", "refs/heads", "refs/", "", "xrefs/heads/", "refs/heads/refs/heads/"] {
            let reference = format!("{}{}", prefix, tail);
            let found = to_friendly_name(&ReferencePath::new(&reference));
            match (pattern.captures(&reference), found) {
                (Some(captures), Ok(name)) => assert_eq!(name.as_str(), &captures["name"]),
                (None, Err(refused)) => assert_eq!(refused.input, reference),
                (expected, got) => panic!("[{:?}]: {:?} but {:?}", reference, expected, got),
            }
        }
    }
}

/// The dispatcher is what the pattern of the marker and an end of line
/// matches.
#[test]
fn dispatchers_follow_the_pattern() {
    let pattern = Regex::new(r"^#HOOK_DISPATCH(\r\n|\r|\n)").unwrap();
    for tail in texts(&['\r', '\n', ' ', '#', 'x'], 4) {
        for prefix in ["#HOOK_DISPATCH", "#HOOK_DISPATC", "#HOOK_DISPATCHX", "", "\n#HOOK_DISPATCH"] {
            let contents = format!("{}{}", prefix, tail);
            assert_eq!(is_hook_dispatcher(&contents), pattern.is_match(&contents), "{:?}", contents);
        }
    }
}
