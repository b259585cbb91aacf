use exoskeleton_host::prompts::{
    load_project_prompt_overrides, load_prompt_overrides, prompt_files, PromptRegistry,
    PromptSources,
};

fn defaults() -> PromptRegistry {
    let mut registry = PromptRegistry::new();
    for (key, _) in prompt_files() {
        let text = format!("You are a vessel. ({key})");
        registry.insert(&key, text);
    }
    registry
}

/// What is read if the data directory and the project hold the given files.
fn sources(data_dir: &[(&str, &str)], project: &[(&str, &str)]) -> Vec<PromptSources> {
    let find = |files: &[(&str, &str)], name: &str| {
        files.iter().find(|(f, _)| *f == name).map(|(_, text)| text.to_string())
    };
    prompt_files()
        .iter()
        .map(|(_, file)| PromptSources {
            data_dir: find(data_dir, file),
            project: find(project, file),
        })
        .collect()
}

#[test]
fn load_from_data_dir_overrides_default() {
    let mut registry = defaults();
    let original = registry.get("decide-system").unwrap();
    assert_ne!(original, "Custom decide prompt from data_dir");

    let found = sources(&[("decide-system.md", "Custom decide prompt from data_dir")], &[]);
    load_prompt_overrides(&mut registry, found);

    assert_eq!(registry.get("decide-system").unwrap(), "Custom decide prompt from data_dir");
    assert_eq!(registry.len(), 9);
}

#[test]
fn load_from_project_dir_overrides_default() {
    let mut registry = defaults();
    let found = sources(&[], &[("decide-system.md", "Project prompt of the vessel")]);
    load_prompt_overrides(&mut registry, found);
    let after_load = registry.get("decide-system").unwrap();
    assert!(!after_load.is_empty());
    assert!(after_load.contains("vessel"));
    assert_eq!(after_load, "Project prompt of the vessel");
}

#[test]
fn data_dir_takes_precedence_over_project() {
    let mut registry = defaults();
    let found = sources(
        &[("decide-system.md", "Data dir override wins")],
        &[("decide-system.md", "Project")],
    );
    load_prompt_overrides(&mut registry, found);
    assert_eq!(registry.get("decide-system").unwrap(), "Data dir override wins");
}

#[test]
fn missing_files_use_compiled_default() {
    let mut registry = defaults();
    let before = registry.get("decide-system").unwrap();
    load_prompt_overrides(&mut registry, sources(&[], &[]));
    let after = registry.get("decide-system").unwrap();
    assert!(!after.is_empty());
    assert_eq!(registry.len(), 9);
    assert_eq!(after, before);
}

#[test]
fn data_dir_charter_subdirectory_loading() {
    let mut registry = defaults();
    let found = sources(&[("charters/threat-monitor.md", "Custom threat charter")], &[]);
    load_prompt_overrides(&mut registry, found);
    assert_eq!(registry.get("charter-threat-monitor").unwrap(), "Custom threat charter");
}

#[test]
fn project_files_alone() {
    let mut registry = defaults();
    let texts: Vec<Option<String>> = prompt_files()
        .iter()
        .map(|(_, file)| if file == "thread-execution.md" { Some("mine".into()) } else { None })
        .collect();
    load_project_prompt_overrides(&mut registry, texts);
    assert_eq!(registry.get("thread-execution").unwrap(), "mine");
    assert_eq!(registry.len(), 9);
    assert_eq!(registry.get("no-such-prompt"), None);
}
