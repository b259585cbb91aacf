//! Prompts and their overrides.
//!
//! Each prompt has a compiled-in text. A file of the project overrides it, and a file
//! in the data directory of the vessel overrides both. Files are read outside.

use vstd::prelude::*;
use vstd::string::*;

use crate::text::{opt_text, str_eq};

verus! {

/// The texts of the prompts by their keys. No key stands there twice.
#[derive(Debug)]
pub struct PromptRegistry {
    pub entries: Vec<(String, String)>,
}

/// What was read for a prompt. A file that cannot be read counts as absent.
#[derive(Debug)]
pub struct PromptSources {
    /// The file in the data directory of the vessel.
    pub data_dir: Option<String>,
    /// The file of the project.
    pub project: Option<String>,
}

/// The text for a key, if there is one.
pub open spec fn text_for(entries: Seq<(String, String)>, key: Seq<char>) -> Option<Seq<char>>
    decreases entries.len(),
{
    if entries.len() == 0 {
        None
    } else if entries.last().0@ == key {
        Some(entries.last().1@)
    } else {
        text_for(entries.drop_last(), key)
    }
}

/// No key stands there twice.
pub open spec fn keys_differ(entries: Seq<(String, String)>) -> bool {
    forall|i: int, j: int|
        0 <= i < j < entries.len() ==> (#[trigger] entries[i]).0@ != (#[trigger] entries[j]).0@
}

proof fn absent_key(entries: Seq<(String, String)>, key: Seq<char>)
    ensures
        text_for(entries, key) is None <==> forall|i: int|
            0 <= i < entries.len() ==> (#[trigger] entries[i]).0@ != key,
    decreases entries.len(),
{
    if entries.len() > 0 {
        let rest = entries.drop_last();
        absent_key(rest, key);
        if entries.last().0@ != key {
            if text_for(rest, key) is None {
                assert forall|i: int| 0 <= i < entries.len() implies (#[trigger] entries[i]).0@
                    != key by {
                    if i < rest.len() {
                        assert(rest[i] == entries[i]);
                    }
                }
            } else {
                let i = choose|i: int| 0 <= i < rest.len() && (#[trigger] rest[i]).0@ == key;
                assert(entries[i].0@ == key);
            }
        } else {
            assert(entries[entries.len() - 1].0@ == key);
        }
    }
}

proof fn present_key(entries: Seq<(String, String)>, i: int)
    requires
        keys_differ(entries),
        0 <= i < entries.len(),
    ensures
        text_for(entries, entries[i].0@) == Some(entries[i].1@),
    decreases entries.len(),
{
    if i < entries.len() - 1 {
        let rest = entries.drop_last();
        assert(keys_differ(rest)) by {
            assert forall|a: int, b: int| 0 <= a < b < rest.len() implies (#[trigger] rest[a]).0@
                != (#[trigger] rest[b]).0@ by {
                assert(entries[a].0@ != entries[b].0@);
            }
        }
        present_key(rest, i);
        assert(entries[i].0@ != entries[entries.len() - 1].0@);
    }
}

proof fn changed_key(entries: Seq<(String, String)>, i: int, entry: (String, String), key: Seq<char>)
    requires
        0 <= i < entries.len(),
        entry.0@ == entries[i].0@,
        key != entry.0@,
    ensures
        text_for(entries.update(i, entry), key) == text_for(entries, key),
    decreases entries.len(),
{
    let new = entries.update(i, entry);
    if i == entries.len() - 1 {
        assert(new.drop_last() =~= entries.drop_last());
    } else {
        assert(new.drop_last() =~= entries.drop_last().update(i, entry));
        changed_key(entries.drop_last(), i, entry, key);
    }
}

impl PromptRegistry {
    /// No key stands there twice.
    pub open spec fn wf(self) -> bool {
        keys_differ(self.entries@)
    }

    /// The text for a key, if there is one.
    pub open spec fn lookup(self, key: Seq<char>) -> Option<Seq<char>> {
        text_for(self.entries@, key)
    }

    /// A registry without prompts.
    pub fn new() -> (r: PromptRegistry)
        ensures
            r.wf(),
            r.entries@.len() == 0,
    {
        PromptRegistry { entries: Vec::new() }
    }

    /// How many prompts there are.
    pub fn len(&self) -> (n: usize)
        ensures
            n == self.entries@.len(),
    {
        self.entries.len()
    }

    fn index_of(&self, key: &str) -> (r: Option<usize>)
        ensures
            match r {
                Some(i) => i < self.entries@.len() && self.entries@[i as int].0@ == key@,
                None => self.lookup(key@) is None,
            },
    {
        let mut i: usize = 0;
        while i < self.entries.len()
            invariant
                i <= self.entries@.len(),
                forall|k: int| 0 <= k < i ==> (#[trigger] self.entries@[k]).0@ != key@,
            decreases self.entries@.len() - i,
        {
            if str_eq(self.entries[i].0.as_str(), key) {
                return Some(i);
            }
            i = i + 1;
        }
        proof {
            absent_key(self.entries@, key@);
        }
        None
    }

    /// The text for a key, if there is one.
    pub fn get(&self, key: &str) -> (r: Option<String>)
        requires
            self.wf(),
        ensures
            opt_text(r) == self.lookup(key@),
    {
        match self.index_of(key) {
            Some(i) => {
                proof {
                    present_key(self.entries@, i as int);
                }
                Some(self.entries[i].1.clone())
            },
            None => None,
        }
    }

    /// Sets the text for a key.
    pub fn insert(&mut self, key: &str, text: String)
        requires
            old(self).wf(),
        ensures
            final(self).wf(),
            final(self).lookup(key@) == Some(text@),
            forall|k: Seq<char>| k != key@ ==> #[trigger] final(self).lookup(k) == old(self).lookup(
                k,
            ),
            final(self).entries@.len() == old(self).entries@.len() + if old(self).lookup(
                key@,
            ) is None {
                1int
            } else {
                0int
            },
    {
        let ghost before = self.entries@;
        let entry = (key.to_owned(), text);
        match self.index_of(key) {
            Some(i) => {
                self.entries.set(i, entry);
                proof {
                    let now = before.update(i as int, entry);
                    assert(keys_differ(now)) by {
                        assert forall|a: int, b: int| 0 <= a < b < now.len() implies (
                        #[trigger] now[a]).0@ != (#[trigger] now[b]).0@ by {
                            assert(before[a].0@ != before[b].0@);
                        }
                    }
                    present_key(before, i as int);
                    present_key(now, i as int);
                    assert forall|k: Seq<char>| k != key@ implies #[trigger] self.lookup(k)
                        == text_for(before, k) by {
                        changed_key(before, i as int, entry, k);
                    }
                }
            },
            None => {
                self.entries.push(entry);
                proof {
                    absent_key(before, key@);
                    let now = before.push(entry);
                    assert(now.drop_last() =~= before);
                    assert forall|a: int, b: int| 0 <= a < b < now.len() implies (
                    #[trigger] now[a]).0@ != (#[trigger] now[b]).0@ by {
                        assert(now[a] == before[a]);
                        if b < before.len() {
                            assert(before[a].0@ != before[b].0@);
                        }
                    }
                }
            },
        }
    }
}

// ---------------------------------------------------------------------------
// Files
// ---------------------------------------------------------------------------

/// The keys of the prompts, each with its file.
pub open spec fn prompt_table() -> Seq<(Seq<char>, Seq<char>)> {
    seq![
        ("decide-system"@, "decide-system.md"@),
        ("context-system-section"@, "context-system-section.md"@),
        ("thread-execution"@, "thread-execution.md"@),
        ("thread-user-message"@, "thread-user-message.md"@),
        ("charter-threat-monitor"@, "charters/threat-monitor.md"@),
        ("charter-self-critique"@, "charters/self-critique.md"@),
        ("charter-memory-consolidation"@, "charters/memory-consolidation.md"@),
        ("bootstrap-first-contact"@, "bootstrap/first-contact.md"@),
        ("bootstrap-identity-extraction"@, "bootstrap/identity-extraction.md"@),
    ]
}

/// The models of a list of pairs of texts.
pub open spec fn pair_views(pairs: Seq<(String, String)>) -> Seq<(Seq<char>, Seq<char>)> {
    Seq::new(pairs.len(), |i: int| (pairs[i].0@, pairs[i].1@))
}

fn entry(key: &str, file: &str) -> (r: (String, String))
    ensures
        r.0@ == key@,
        r.1@ == file@,
{
    (key.to_owned(), file.to_owned())
}

/// The keys of the prompts, each with its file.
pub fn prompt_files() -> (r: Vec<(String, String)>)
    ensures
        pair_views(r@) == prompt_table(),
{
    let r = vec![
        entry("decide-system", "decide-system.md"),
        entry("context-system-section", "context-system-section.md"),
        entry("thread-execution", "thread-execution.md"),
        entry("thread-user-message", "thread-user-message.md"),
        entry("charter-threat-monitor", "charters/threat-monitor.md"),
        entry("charter-self-critique", "charters/self-critique.md"),
        entry("charter-memory-consolidation", "charters/memory-consolidation.md"),
        entry("bootstrap-first-contact", "bootstrap/first-contact.md"),
        entry("bootstrap-identity-extraction", "bootstrap/identity-extraction.md"),
    ];
    assert(pair_views(r@) =~= prompt_table());
    r
}

/// The text that overrides a prompt, if there is one: the vessel's own comes first.
pub open spec fn override_of(s: PromptSources) -> Option<Seq<char>> {
    match s.data_dir {
        Some(t) => Some(t@),
        None => opt_text(s.project),
    }
}

/// The text for a key after the overrides of the first `n` prompts.
pub open spec fn overridden(
    before: Option<Seq<char>>,
    sources: Seq<PromptSources>,
    n: int,
    key: Seq<char>,
) -> Option<Seq<char>>
    decreases n,
{
    if n <= 0 || n > sources.len() || n > prompt_table().len() {
        before
    } else if prompt_table()[n - 1].0 == key && override_of(sources[n - 1]) is Some {
        override_of(sources[n - 1])
    } else {
        overridden(before, sources, n - 1, key)
    }
}

/// How many prompts there are to be overridden, given what was read.
pub open spec fn override_count(sources: Seq<PromptSources>) -> int {
    if sources.len() < prompt_table().len() {
        sources.len() as int
    } else {
        prompt_table().len() as int
    }
}

/// Overrides the prompts for which a file was read. `sources` holds what was read for
/// each prompt, in the order of their keys.
pub fn load_prompt_overrides(registry: &mut PromptRegistry, sources: Vec<PromptSources>)
    requires
        old(registry).wf(),
    ensures
        final(registry).wf(),
        forall|key: Seq<char>| #[trigger]
            final(registry).lookup(key) == overridden(
                old(registry).lookup(key),
                sources@,
                override_count(sources@),
                key,
            ),
{
    let files = prompt_files();
    let ghost before = *registry;
    let mut i: usize = 0;
    while i < files.len() && i < sources.len()
        invariant
            pair_views(files@) == prompt_table(),
            i <= files@.len(),
            i <= sources@.len(),
            registry.wf(),
            forall|key: Seq<char>| #[trigger]
                registry.lookup(key) == overridden(before.lookup(key), sources@, i as int, key),
        decreases files@.len() - i,
    {
        assert(prompt_table()[i as int] == (files@[i as int].0@, files@[i as int].1@));
        assert(prompt_table().len() == files@.len());
        let found = match &sources[i].data_dir {
            Some(t) => Some(t.clone()),
            None => match &sources[i].project {
                Some(t) => Some(t.clone()),
                None => None,
            },
        };
        let ghost now = *registry;
        match found {
            Some(t) => {
                registry.insert(files[i].0.as_str(), t);
            },
            None => {},
        }
        assert forall|key: Seq<char>| #[trigger] registry.lookup(key) == overridden(
            before.lookup(key),
            sources@,
            i + 1,
            key,
        ) by {
            assert(now.lookup(key) == overridden(before.lookup(key), sources@, i as int, key));
        }
        i = i + 1;
    }
    assert(pair_views(files@).len() == files@.len());
}

/// Overrides the prompts for which the project has a file. `texts` holds what was read
/// for each prompt, in the order of their keys.
pub fn load_project_prompt_overrides(registry: &mut PromptRegistry, texts: Vec<Option<String>>)
    requires
        old(registry).wf(),
    ensures
        final(registry).wf(),
        ({
            let sources = project_only(texts@);
            forall|key: Seq<char>| #[trigger]
                final(registry).lookup(key) == overridden(
                    old(registry).lookup(key),
                    sources,
                    override_count(sources),
                    key,
                )
        }),
{
    let ghost all = texts@;
    let mut rest = texts;
    let mut sources: Vec<PromptSources> = Vec::new();
    assert(all.subrange(0, all.len() as int) =~= all);
    while rest.len() > 0
        invariant
            sources@.len() <= all.len(),
            rest@ == all.subrange(sources@.len() as int, all.len() as int),
            forall|k: int|
                0 <= k < sources@.len() ==> #[trigger] sources@[k] == (PromptSources {
                    data_dir: None,
                    project: all[k],
                }),
        decreases rest@.len(),
    {
        let ghost n = sources@.len() as int;
        let project = rest.remove(0);
        assert(project == all[n]);
        assert(rest@ =~= all.subrange(n + 1, all.len() as int));
        sources.push(PromptSources { data_dir: None, project });
    }
    assert(sources@ =~= project_only(all));
    load_prompt_overrides(registry, sources);
}

/// What was read if there is no data directory.
pub open spec fn project_only(texts: Seq<Option<String>>) -> Seq<PromptSources> {
    Seq::new(texts.len(), |i: int| PromptSources { data_dir: None, project: texts[i] })
}

// ---------------------------------------------------------------------------
// Laws
// ---------------------------------------------------------------------------

/// A prompt whose files are all absent keeps its text.
pub proof fn absent_files_keep_the_default(
    before: Option<Seq<char>>,
    sources: Seq<PromptSources>,
    n: int,
    key: Seq<char>,
)
    requires
        forall|i: int|
            0 <= i < sources.len() && i < prompt_table().len() && (#[trigger] prompt_table()[i]).0
                == key ==> override_of(sources[i]) is None,
    ensures
        overridden(before, sources, n, key) == before,
    decreases n,
{
    if 0 < n <= sources.len() && n <= prompt_table().len() {
        assert(prompt_table()[n - 1].0 == key ==> override_of(sources[n - 1]) is None);
        absent_files_keep_the_default(before, sources, n - 1, key);
    }
}

/// The keys of the prompts are all different.
pub proof fn prompt_keys_differ(i: int, j: int)
    requires
        0 <= i < j < prompt_table().len(),
    ensures
        prompt_table()[i].0 != prompt_table()[j].0,
{
    reveal_strlit("decide-system");
    reveal_strlit("context-system-section");
    reveal_strlit("thread-execution");
    reveal_strlit("thread-user-message");
    reveal_strlit("charter-threat-monitor");
    reveal_strlit("charter-self-critique");
    reveal_strlit("charter-memory-consolidation");
    reveal_strlit("bootstrap-first-contact");
    reveal_strlit("bootstrap-identity-extraction");
    assert("decide-system"@.len() == 13);
    assert("context-system-section"@.len() == 22);
    assert("thread-execution"@.len() == 16);
    assert("thread-user-message"@.len() == 19);
    assert("charter-threat-monitor"@.len() == 22);
    assert("charter-self-critique"@.len() == 21);
    assert("charter-memory-consolidation"@.len() == 28);
    assert("bootstrap-first-contact"@.len() == 23);
    assert("bootstrap-identity-extraction"@.len() == 29);
    assert("context-system-section"@[1] != "charter-threat-monitor"@[1]);
}

/// The vessel's own file wins over the project's, which wins over the default.
pub proof fn own_files_win(
    before: Option<Seq<char>>,
    sources: Seq<PromptSources>,
    n: int,
    i: int,
)
    requires
        0 <= i < n <= sources.len(),
        n <= prompt_table().len(),
    ensures
        ({
            let now = overridden(before, sources, n, prompt_table()[i].0);
            match (sources[i].data_dir, sources[i].project) {
                (Some(own), _) => now == Some(own@),
                (None, Some(project)) => now == Some(project@),
                (None, None) => now == before,
            }
        }),
    decreases n,
{
    let key = prompt_table()[i].0;
    if i < n - 1 {
        prompt_keys_differ(i, n - 1);
        own_files_win(before, sources, n - 1, i);
    } else {
        below_is_untouched(before, sources, i, i);
    }
}

proof fn below_is_untouched(before: Option<Seq<char>>, sources: Seq<PromptSources>, n: int, i: int)
    requires
        0 <= n <= i < prompt_table().len(),
        n <= sources.len(),
    ensures
        overridden(before, sources, n, prompt_table()[i].0) == before,
    decreases n,
{
    if n > 0 {
        prompt_keys_differ(n - 1, i);
        below_is_untouched(before, sources, n - 1, i);
    }
}

/// A prompt is found under its key, and nothing is found under any other.
pub proof fn prompts_are_found(entries: Seq<(String, String)>, i: int, other: Seq<char>)
    requires
        keys_differ(entries),
        0 <= i < entries.len(),
        forall|k: int| 0 <= k < entries.len() ==> (#[trigger] entries[k]).0@ != other,
    ensures
        text_for(entries, entries[i].0@) == Some(entries[i].1@),
        text_for(entries, other) is None,
{
    present_key(entries, i);
    absent_key(entries, other);
}

/// If something was read for every prompt, every prompt has what was read for it: the
/// vessel's own file, or else the project's.
pub proof fn every_prompt_can_be_overridden(
    before: Option<Seq<char>>,
    sources: Seq<PromptSources>,
    i: int,
)
    requires
        sources.len() == 9,
        0 <= i < 9,
    ensures
        ({
            let now = overridden(before, sources, override_count(sources), prompt_table()[i].0);
            match (sources[i].data_dir, sources[i].project) {
                (Some(own), _) => now == Some(own@),
                (None, Some(project)) => now == Some(project@),
                (None, None) => now == before,
            }
        }),
{
    own_files_win(before, sources, 9, i);
}

} // verus!
