use exoskeleton_host::repo_analysis::{
    analyze_repo, summarize_config, ProbedFile, RepoAnalysis, RepoFiles,
};

fn absent() -> ProbedFile {
    ProbedFile { exists: false, content: None }
}

fn present(text: &str) -> ProbedFile {
    ProbedFile { exists: true, content: Some(text.into()) }
}

fn empty() -> RepoFiles {
    RepoFiles {
        cargo_toml: false,
        package_json: absent(),
        pyproject_toml: false,
        requirements_txt: false,
        go_mod: false,
        rustfmt_toml: absent(),
        dot_rustfmt_toml: absent(),
        prettierrc: false,
        prettierrc_json: false,
        editorconfig: false,
        eslintrc: false,
        eslintrc_js: false,
        workflows: vec![],
    }
}

#[test]
fn detect_rust_from_cargo_toml() {
    let analysis = analyze_repo(&RepoFiles { cargo_toml: true, ..empty() });
    assert!(analysis.languages.contains(&"Rust".to_string()));
    assert!(analysis.build_command.is_some());
    assert!(analysis.build_command.unwrap().contains("cargo"));
}

#[test]
fn detect_node_from_package_json() {
    let files = RepoFiles {
        package_json: present(r#"{"name":"test","scripts":{"build":"tsc","test":"jest"}}"#),
        ..empty()
    };
    let analysis = analyze_repo(&files);
    assert!(analysis.languages.contains(&"JavaScript/TypeScript".to_string()));
    assert!(analysis.test_command.is_some());
}

#[test]
fn detect_python_from_pyproject() {
    let analysis = analyze_repo(&RepoFiles { pyproject_toml: true, ..empty() });
    assert!(analysis.languages.contains(&"Python".to_string()));
}

#[test]
fn detect_go_from_go_mod() {
    let analysis = analyze_repo(&RepoFiles { go_mod: true, ..empty() });
    assert!(analysis.languages.contains(&"Go".to_string()));
    assert!(analysis.build_command.is_some());
}

#[test]
fn detect_formatter_config() {
    let files = RepoFiles {
        cargo_toml: true,
        rustfmt_toml: present("max_width = 100\ntab_spaces = 4\n"),
        ..empty()
    };
    let analysis = analyze_repo(&files);
    assert!(!analysis.formatter_config.is_empty());
    assert!(analysis.formatter_config.contains("rustfmt"));
    assert_eq!(
        summarize_config("# a comment\nmax_width = 100\n\ntab_spaces = 4\n"),
        "max_width = 100, tab_spaces = 4"
    );
}

#[test]
fn detect_ci_commands() {
    let files = RepoFiles {
        workflows: vec![
            "name: CI\non: push\njobs:\n  test:\n    steps:\n      - run: cargo test --workspace\n      - run: cargo clippy -- -D warnings\n".into(),
        ],
        ..empty()
    };
    let analysis = analyze_repo(&files);
    assert!(!analysis.ci_commands.is_empty());
    assert_eq!(
        analysis.ci_commands,
        vec!["cargo test --workspace".to_string(), "cargo clippy -- -D warnings".to_string()]
    );
}

#[test]
fn render_analysis_output() {
    let analysis = RepoAnalysis {
        languages: vec!["Rust".into()],
        build_command: Some("cargo build --workspace".into()),
        test_command: Some("cargo test --workspace".into()),
        lint_command: Some("cargo clippy --all -- -D warnings".into()),
        formatter_config: "rustfmt.toml: max_width=100, tab_spaces=4".into(),
        ci_commands: vec!["cargo test --workspace".into()],
    };
    let rendered = analysis.render();
    assert!(rendered.contains("Rust"));
    assert!(rendered.contains("cargo build"));
    assert!(rendered.contains("cargo test"));
    assert!(rendered.contains("clippy"));
}

#[test]
fn empty_directory_produces_empty_analysis() {
    let analysis = analyze_repo(&empty());
    assert!(analysis.languages.is_empty());
    assert!(analysis.build_command.is_none());
    assert!(analysis.render().is_empty());
}
