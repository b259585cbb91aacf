use exoskeleton_host::git_context::{
    git_state_from_outputs, render_git_context, render_git_context_optional, GitState,
};

fn bytes(text: &str) -> Vec<u8> {
    text.as_bytes().to_vec()
}

#[test]
fn git_state_from_what_git_prints() {
    let state = git_state_from_outputs(
        true,
        &bytes("main\n"),
        &bytes(" M a.rs\nM  b.rs\nMM c.rs\n?? d.rs\n"),
        &bytes("abc1234 Fix parser bug\ndef5678 Add test\n"),
    );
    assert!(state.is_some(), "should detect git repo");
    let state = state.unwrap();
    assert!(!state.branch.is_empty());
    assert!(!state.recent_commits.is_empty());
    assert_eq!(state.branch, "main");
    assert_eq!((state.modified, state.staged, state.untracked), (2, 2, 1));
    assert_eq!(state.recent_commits.len(), 2);
}

#[test]
fn no_git_state_without_a_branch() {
    let state = git_state_from_outputs(false, &bytes(""), &bytes(""), &bytes(""));
    assert!(state.is_none(), "should return None for non-git dirs");
    assert!(git_state_from_outputs(true, &bytes(" \n"), &bytes(""), &bytes("")).is_none());
}

#[test]
fn render_git_state() {
    let state = GitState {
        branch: "main".into(),
        modified: 2,
        staged: 1,
        untracked: 3,
        recent_commits: vec![
            "abc1234 Fix parser bug".into(),
            "def5678 Add test for config".into(),
        ],
    };
    let rendered = render_git_context(&state);
    assert!(rendered.contains("=== GIT CONTEXT ==="));
    assert!(rendered.contains("Branch: main"));
    assert!(rendered.contains("2 modified"));
    assert!(rendered.contains("1 staged"));
    assert!(rendered.contains("3 untracked"));
    assert!(rendered.contains("abc1234"));
    assert!(rendered.contains("Fix parser bug"));
}

#[test]
fn render_clean_status() {
    let state = GitState {
        branch: "feature/test".into(),
        modified: 0,
        staged: 0,
        untracked: 0,
        recent_commits: vec!["abc1234 Initial commit".into()],
    };
    let rendered = render_git_context(&state);
    assert!(rendered.contains("Branch: feature/test"));
    assert!(rendered.contains("clean"));
}

#[test]
fn render_empty_state_returns_empty() {
    let rendered = render_git_context_optional(None);
    assert!(rendered.is_empty());
}
