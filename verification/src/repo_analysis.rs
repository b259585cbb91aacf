//! What the files of a repository tell about its languages and commands.
//!
//! The files are read outside; what they hold comes in as data.

use vstd::prelude::*;
use vstd::string::*;

use crate::json::{parse_json, parsed, Json, JsonView};
use crate::text::{
    begins_with, behind_prefix, first_n, join, joined, lines_of, opt_text, split_lines,
    starts_with, strip_prefix, texts, trim, trimmed,
};

verus! {

/// What is known of a repository.
#[derive(Debug, PartialEq, Eq)]
pub struct RepoAnalysis {
    pub languages: Vec<String>,
    pub build_command: Option<String>,
    pub test_command: Option<String>,
    pub lint_command: Option<String>,
    pub formatter_config: String,
    pub ci_commands: Vec<String>,
}

impl Default for RepoAnalysis {
    /// Nothing is known.
    fn default() -> (r: Self)
        ensures
            r.languages@.len() == 0,
            r.build_command is None,
            r.test_command is None,
            r.lint_command is None,
            r.formatter_config@.len() == 0,
            r.ci_commands@.len() == 0,
    {
        RepoAnalysis {
            languages: Vec::new(),
            build_command: None,
            test_command: None,
            lint_command: None,
            formatter_config: String::new(),
            ci_commands: Vec::new(),
        }
    }
}

/// A file that may exist, with its content if that could be read.
#[derive(Debug, PartialEq, Eq)]
pub struct ProbedFile {
    pub exists: bool,
    pub content: Option<String>,
}

/// The files of a repository that the analysis looks at.
#[derive(Debug, PartialEq, Eq)]
pub struct RepoFiles {
    pub cargo_toml: bool,
    pub package_json: ProbedFile,
    pub pyproject_toml: bool,
    pub requirements_txt: bool,
    pub go_mod: bool,
    pub rustfmt_toml: ProbedFile,
    pub dot_rustfmt_toml: ProbedFile,
    pub prettierrc: bool,
    pub prettierrc_json: bool,
    pub editorconfig: bool,
    pub eslintrc: bool,
    pub eslintrc_js: bool,
    /// The contents of the workflow files.
    pub workflows: Vec<String>,
}

// ---------------------------------------------------------------------------
// Rendering
// ---------------------------------------------------------------------------

/// The line `label` with an optional text.
pub open spec fn labelled(label: Seq<char>, text: Option<String>) -> Seq<char> {
    match text {
        Some(t) => label + t@ + "\n"@,
        None => Seq::empty(),
    }
}

/// The lines of the commands.
pub open spec fn command_lines(commands: Seq<Seq<char>>) -> Seq<char>
    decreases commands.len(),
{
    if commands.len() == 0 {
        Seq::empty()
    } else {
        command_lines(commands.drop_last()) + ("  - "@ + commands.last() + "\n"@)
    }
}

/// The rendering of an analysis. Without a language there is nothing to say.
pub open spec fn rendered(a: RepoAnalysis) -> Seq<char> {
    if a.languages@.len() == 0 {
        Seq::empty()
    } else {
        "Languages: "@ + joined(texts(a.languages@), ", "@) + "\n"@ + labelled(
            "Build: "@,
            a.build_command,
        ) + labelled("Test: "@, a.test_command) + labelled("Lint: "@, a.lint_command) + (
        if a.formatter_config@.len() > 0 {
            "Formatting: "@ + a.formatter_config@ + "\n"@
        } else {
            Seq::empty()
        }) + (if a.ci_commands@.len() > 0 {
            "CI commands:\n"@ + command_lines(texts(a.ci_commands@))
        } else {
            Seq::empty()
        })
    }
}

fn labelled_text(label: &str, text: &Option<String>) -> (r: String)
    ensures
        r@ == labelled(label@, *text),
{
    match text {
        Some(t) => {
            let mut line = label.to_owned();
            line.append(t.as_str());
            line.append("\n");
            line
        },
        None => String::new(),
    }
}

impl RepoAnalysis {
    /// Renders the analysis for the context of the vessel.
    pub fn render(&self) -> (r: String)
        ensures
            r@ == rendered(*self),
    {
        if self.languages.len() == 0 {
            return String::new();
        }
        let mut out = "Languages: ".to_owned();
        out.append(join(&self.languages, ", ").as_str());
        out.append("\n");
        out.append(labelled_text("Build: ", &self.build_command).as_str());
        out.append(labelled_text("Test: ", &self.test_command).as_str());
        out.append(labelled_text("Lint: ", &self.lint_command).as_str());
        let mut formatting = String::new();
        if !self.formatter_config.as_str().is_empty() {
            formatting = "Formatting: ".to_owned();
            formatting.append(self.formatter_config.as_str());
            formatting.append("\n");
        }
        out.append(formatting.as_str());
        let mut ci = String::new();
        if self.ci_commands.len() > 0 {
            let mut lines = String::new();
            let ghost all = texts(self.ci_commands@);
            let mut i: usize = 0;
            assert(lines@ =~= command_lines(all.subrange(0, 0)));
            while i < self.ci_commands.len()
                invariant
                    all == texts(self.ci_commands@),
                    i <= self.ci_commands@.len(),
                    lines@ == command_lines(all.subrange(0, i as int)),
                decreases self.ci_commands@.len() - i,
            {
                assert(all.subrange(0, i + 1).drop_last() =~= all.subrange(0, i as int));
                let mut line = "  - ".to_owned();
                line.append(self.ci_commands[i].as_str());
                line.append("\n");
                lines.append(line.as_str());
                i = i + 1;
            }
            assert(all.subrange(0, all.len() as int) =~= all);
            ci = "CI commands:\n".to_owned();
            ci.append(lines.as_str());
        }
        out.append(ci.as_str());
        out
    }
}

// ---------------------------------------------------------------------------
// Languages and commands
// ---------------------------------------------------------------------------

/// The name, if the language is there.
pub open spec fn if_there(there: bool, name: Seq<char>) -> Seq<Seq<char>> {
    if there {
        seq![name]
    } else {
        Seq::empty()
    }
}

/// There are files of a Python project.
pub open spec fn has_python(f: RepoFiles) -> bool {
    f.pyproject_toml || f.requirements_txt
}

/// The languages of a repository, in alphabetical order.
pub open spec fn languages_of(f: RepoFiles) -> Seq<Seq<char>> {
    if_there(f.go_mod, "Go"@) + if_there(f.package_json.exists, "JavaScript/TypeScript"@)
        + if_there(has_python(f), "Python"@) + if_there(f.cargo_toml, "Rust"@)
}

/// The scripts of a package description, if it is one.
pub open spec fn scripts_of(f: ProbedFile) -> Option<JsonView> {
    match f.content {
        Some(text) => if f.exists {
            match parsed(text@) {
                Ok(j) => match j.field("scripts"@) {
                    Some(JsonView::Object(m)) => Some(JsonView::Object(m)),
                    _ => None,
                },
                Err(_) => None,
            }
        } else {
            None
        },
        None => None,
    }
}

/// The command that runs a script of a package, with the script as a comment.
pub open spec fn script_command(
    scripts: Option<JsonView>,
    name: Seq<char>,
    command: Seq<char>,
) -> Option<Seq<char>> {
    match scripts {
        Some(s) => match s.field_text(name) {
            Some(script) => Some(command + script),
            None => None,
        },
        None => None,
    }
}

/// The first of the commands that is there.
pub open spec fn first_command(
    a: Option<Seq<char>>,
    b: Option<Seq<char>>,
    c: Option<Seq<char>>,
    d: Option<Seq<char>>,
) -> Option<Seq<char>> {
    if a is Some {
        a
    } else if b is Some {
        b
    } else if c is Some {
        c
    } else {
        d
    }
}

/// The command, if its language is there.
pub open spec fn command_if(there: bool, command: Seq<char>) -> Option<Seq<char>> {
    if there {
        Some(command)
    } else {
        None
    }
}

/// The command that builds the project.
pub open spec fn build_command_of(f: RepoFiles) -> Option<Seq<char>> {
    first_command(
        command_if(f.cargo_toml, "cargo build --workspace"@),
        script_command(scripts_of(f.package_json), "build"@, "npm run build  # "@),
        command_if(has_python(f), "python -m build"@),
        command_if(f.go_mod, "go build ./..."@),
    )
}

/// The command that tests the project.
pub open spec fn test_command_of(f: RepoFiles) -> Option<Seq<char>> {
    first_command(
        command_if(f.cargo_toml, "cargo test --workspace"@),
        script_command(scripts_of(f.package_json), "test"@, "npm test  # "@),
        command_if(has_python(f), "pytest"@),
        command_if(f.go_mod, "go test ./..."@),
    )
}

/// The command that checks the style of the project.
pub open spec fn lint_command_of(f: RepoFiles) -> Option<Seq<char>> {
    first_command(
        command_if(f.cargo_toml, "cargo clippy --all-targets -- -D warnings"@),
        script_command(scripts_of(f.package_json), "lint"@, "npm run lint  # "@),
        None,
        None,
    )
}

/// The model of the scripts that were found.
pub open spec fn opt_scripts(o: Option<Json>) -> Option<JsonView> {
    match o {
        Some(j) => Some(j@),
        None => None,
    }
}

fn read_scripts(f: &ProbedFile) -> (r: Option<Json>)
    ensures
        opt_scripts(r) == scripts_of(*f),
{
    if !f.exists {
        return None;
    }
    match &f.content {
        Some(text) => match parse_json(text.as_str()) {
            Ok(j) => match j.get("scripts") {
                Some(s) => match s {
                    Json::Object(_) => Some(s.clone()),
                    _ => None,
                },
                None => None,
            },
            Err(_) => None,
        },
        None => None,
    }
}

fn read_script(scripts: &Option<Json>, name: &str, command: &str) -> (r: Option<String>)
    ensures
        opt_text(r) == script_command(opt_scripts(*scripts), name@, command@),
{
    match scripts {
        Some(s) => match s.get_str(name) {
            Some(script) => {
                let mut c = command.to_owned();
                c.append(script.as_str());
                Some(c)
            },
            None => None,
        },
        None => None,
    }
}

fn command_when(there: bool, command: &str) -> (r: Option<String>)
    ensures
        opt_text(r) == command_if(there, command@),
{
    if there {
        Some(command.to_owned())
    } else {
        None
    }
}

fn choose_command(
    a: Option<String>,
    b: Option<String>,
    c: Option<String>,
    d: Option<String>,
) -> (r: Option<String>)
    ensures
        opt_text(r) == first_command(opt_text(a), opt_text(b), opt_text(c), opt_text(d)),
{
    if a.is_some() {
        a
    } else if b.is_some() {
        b
    } else if c.is_some() {
        c
    } else {
        d
    }
}

fn push_if(list: &mut Vec<String>, there: bool, name: &str)
    ensures
        texts(final(list)@) == texts(old(list)@) + if_there(there, name@),
{
    let ghost before = list@;
    if there {
        list.push(name.to_owned());
    }
    assert(texts(list@) =~= texts(before) + if_there(there, name@));
}

// ---------------------------------------------------------------------------
// Configuration
// ---------------------------------------------------------------------------

/// The line of a configuration says something: it is neither blank nor a comment.
pub open spec fn says_something(line: Seq<char>) -> bool {
    line.len() > 0 && !begins_with(line, "#"@)
}

/// The lines that say something, without the white space around them.
pub open spec fn telling_lines(lines: Seq<Seq<char>>) -> Seq<Seq<char>>
    decreases lines.len(),
{
    if lines.len() == 0 {
        lines
    } else if says_something(trimmed(lines.last())) {
        telling_lines(lines.drop_last()).push(trimmed(lines.last()))
    } else {
        telling_lines(lines.drop_last())
    }
}

/// The summary of a configuration: its first two lines that say something.
pub open spec fn config_summary(content: Seq<char>) -> Seq<char> {
    joined(first_n(telling_lines(lines_of(content)), 2), ", "@)
}

/// Summarises a configuration by its first two lines that say something.
pub fn summarize_config(content: &str) -> (r: String)
    ensures
        r@ == config_summary(content@),
{
    let lines = split_lines(content);
    let ghost all = lines_of(content@);
    let mut found: Vec<String> = Vec::new();
    let mut i: usize = 0;
    assert(texts(found@) =~= telling_lines(all.subrange(0, 0)));
    assert(texts(lines@).len() == lines@.len());
    while i < lines.len()
        invariant
            texts(lines@) == all,
            lines@.len() == all.len(),
            i <= lines@.len(),
            texts(found@) == telling_lines(all.subrange(0, i as int)),
        decreases lines@.len() - i,
    {
        assert(all.subrange(0, i + 1).drop_last() =~= all.subrange(0, i as int));
        assert(texts(lines@)[i as int] == lines@[i as int]@);
        let line = trim(lines[i].as_str());
        let ghost before = found@;
        if !line.as_str().is_empty() && !starts_with(line.as_str(), "#") {
            found.push(line);
            assert(texts(found@) =~= texts(before).push(line@));
        }
        i = i + 1;
    }
    assert(all.subrange(0, all.len() as int) =~= all);
    let ghost list = found@;
    if found.len() > 2 {
        found.truncate(2);
    }
    assert(texts(found@) =~= first_n(texts(list), 2));
    join(&found, ", ")
}

/// What is said of a rustfmt configuration, if it is there.
pub open spec fn rustfmt_note(f: ProbedFile, filename: Seq<char>) -> Seq<Seq<char>> {
    if f.exists {
        seq![
            "rustfmt ("@ + filename + "): "@ + (match f.content {
                Some(c) => config_summary(c@),
                None => Seq::empty(),
            }),
        ]
    } else {
        Seq::empty()
    }
}

/// What is said of the formatters.
pub open spec fn formatter_notes(f: RepoFiles) -> Seq<Seq<char>> {
    rustfmt_note(f.rustfmt_toml, "rustfmt.toml"@) + rustfmt_note(
        f.dot_rustfmt_toml,
        ".rustfmt.toml"@,
    ) + if_there(f.prettierrc, ".prettierrc"@) + if_there(f.prettierrc_json, ".prettierrc.json"@)
        + if_there(f.editorconfig, ".editorconfig"@) + if_there(f.eslintrc, ".eslintrc"@)
        + if_there(f.eslintrc_js, ".eslintrc.js"@)
}

fn push_rustfmt(list: &mut Vec<String>, f: &ProbedFile, filename: &str)
    ensures
        texts(final(list)@) == texts(old(list)@) + rustfmt_note(*f, filename@),
{
    let ghost before = list@;
    if f.exists {
        let preview = match &f.content {
            Some(c) => summarize_config(c.as_str()),
            None => String::new(),
        };
        let mut note = "rustfmt (".to_owned();
        note.append(filename);
        note.append("): ");
        note.append(preview.as_str());
        list.push(note);
        assert(preview@ =~= (match f.content {
            Some(c) => config_summary(c@),
            None => Seq::empty(),
        }));
    }
    assert(texts(list@) =~= texts(before) + rustfmt_note(*f, filename@));
}

/// Describes the formatters that are configured.
pub fn detect_formatter_config(files: &RepoFiles) -> (r: String)
    ensures
        r@ == joined(formatter_notes(*files), "; "@),
{
    let mut found: Vec<String> = Vec::new();
    assert(texts(found@) =~= Seq::<Seq<char>>::empty());
    push_rustfmt(&mut found, &files.rustfmt_toml, "rustfmt.toml");
    push_rustfmt(&mut found, &files.dot_rustfmt_toml, ".rustfmt.toml");
    push_if(&mut found, files.prettierrc, ".prettierrc");
    push_if(&mut found, files.prettierrc_json, ".prettierrc.json");
    push_if(&mut found, files.editorconfig, ".editorconfig");
    push_if(&mut found, files.eslintrc, ".eslintrc");
    push_if(&mut found, files.eslintrc_js, ".eslintrc.js");
    assert(texts(found@) =~= formatter_notes(*files));
    join(&found, "; ")
}

// ---------------------------------------------------------------------------
// Workflows
// ---------------------------------------------------------------------------

/// The command that a line of a workflow runs.
pub open spec fn run_command(line: Seq<char>) -> Option<Seq<char>> {
    match behind_prefix(trimmed(line), "- run:"@) {
        Some(rest) => Some(trimmed(rest)),
        None => None,
    }
}

/// The commands that the lines of a workflow run, in order.
pub open spec fn run_commands(lines: Seq<Seq<char>>) -> Seq<Seq<char>>
    decreases lines.len(),
{
    if lines.len() == 0 {
        lines
    } else {
        match run_command(lines.last()) {
            Some(c) => run_commands(lines.drop_last()).push(c),
            None => run_commands(lines.drop_last()),
        }
    }
}

/// The commands that the workflows run, in order.
pub open spec fn all_run_commands(workflows: Seq<Seq<char>>) -> Seq<Seq<char>>
    decreases workflows.len(),
{
    if workflows.len() == 0 {
        workflows
    } else {
        all_run_commands(workflows.drop_last()) + run_commands(lines_of(workflows.last()))
    }
}

fn workflow_commands(content: &str) -> (r: Vec<String>)
    ensures
        texts(r@) == run_commands(lines_of(content@)),
{
    let lines = split_lines(content);
    let ghost all = lines_of(content@);
    let mut out: Vec<String> = Vec::new();
    let mut i: usize = 0;
    assert(texts(out@) =~= run_commands(all.subrange(0, 0)));
    assert(texts(lines@).len() == lines@.len());
    while i < lines.len()
        invariant
            texts(lines@) == all,
            lines@.len() == all.len(),
            i <= lines@.len(),
            texts(out@) == run_commands(all.subrange(0, i as int)),
        decreases lines@.len() - i,
    {
        assert(all.subrange(0, i + 1).drop_last() =~= all.subrange(0, i as int));
        assert(texts(lines@)[i as int] == lines@[i as int]@);
        let ghost before = out@;
        let line = trim(lines[i].as_str());
        match strip_prefix(line.as_str(), "- run:") {
            Some(rest) => {
                out.push(trim(rest.as_str()));
                assert(texts(out@) =~= texts(before).push(trimmed(rest@)));
            },
            None => {},
        }
        i = i + 1;
    }
    assert(all.subrange(0, all.len() as int) =~= all);
    out
}

/// Lists the commands that the workflows run.
pub fn extract_ci_commands(workflows: &Vec<String>) -> (r: Vec<String>)
    ensures
        texts(r@) == all_run_commands(texts(workflows@)),
{
    let mut out: Vec<String> = Vec::new();
    let ghost all = texts(workflows@);
    let mut i: usize = 0;
    assert(texts(out@) =~= all_run_commands(all.subrange(0, 0)));
    while i < workflows.len()
        invariant
            all == texts(workflows@),
            i <= workflows@.len(),
            texts(out@) == all_run_commands(all.subrange(0, i as int)),
        decreases workflows@.len() - i,
    {
        assert(all.subrange(0, i + 1).drop_last() =~= all.subrange(0, i as int));
        let mut more = workflow_commands(workflows[i].as_str());
        let ghost before = out@;
        let ghost m = more@;
        out.append(&mut more);
        assert(texts(out@) =~= texts(before) + texts(m));
        i = i + 1;
    }
    assert(all.subrange(0, all.len() as int) =~= all);
    out
}

// ---------------------------------------------------------------------------
// The analysis
// ---------------------------------------------------------------------------

/// Infers the languages, commands and configuration of a repository from its files.
///
/// Where several languages suggest a command, Rust comes first, then the scripts of
/// the package, then Python, then Go.
pub fn analyze_repo(files: &RepoFiles) -> (r: RepoAnalysis)
    ensures
        texts(r.languages@) == languages_of(*files),
        opt_text(r.build_command) == build_command_of(*files),
        opt_text(r.test_command) == test_command_of(*files),
        opt_text(r.lint_command) == lint_command_of(*files),
        r.formatter_config@ == joined(formatter_notes(*files), "; "@),
        texts(r.ci_commands@) == all_run_commands(texts(files.workflows@)),
{
    let python = files.pyproject_toml || files.requirements_txt;
    let mut languages: Vec<String> = Vec::new();
    assert(texts(languages@) =~= Seq::<Seq<char>>::empty());
    push_if(&mut languages, files.go_mod, "Go");
    push_if(&mut languages, files.package_json.exists, "JavaScript/TypeScript");
    push_if(&mut languages, python, "Python");
    push_if(&mut languages, files.cargo_toml, "Rust");
    assert(texts(languages@) =~= languages_of(*files));
    let scripts = read_scripts(&files.package_json);
    let build_command = choose_command(
        command_when(files.cargo_toml, "cargo build --workspace"),
        read_script(&scripts, "build", "npm run build  # "),
        command_when(python, "python -m build"),
        command_when(files.go_mod, "go build ./..."),
    );
    let test_command = choose_command(
        command_when(files.cargo_toml, "cargo test --workspace"),
        read_script(&scripts, "test", "npm test  # "),
        command_when(python, "pytest"),
        command_when(files.go_mod, "go test ./..."),
    );
    let lint_command = choose_command(
        command_when(files.cargo_toml, "cargo clippy --all-targets -- -D warnings"),
        read_script(&scripts, "lint", "npm run lint  # "),
        None,
        None,
    );
    RepoAnalysis {
        languages,
        build_command,
        test_command,
        lint_command,
        formatter_config: detect_formatter_config(files),
        ci_commands: extract_ci_commands(&files.workflows),
    }
}

} // verus!
