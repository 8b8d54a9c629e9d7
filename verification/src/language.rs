//! Language descriptors and the registry that serves them.

use crate::error::{DomainError, ErrorKind};
use crate::process::{unexpected_reply, CommandView, ProcessExecutor, Reply, Request, Step};
use crate::process::unexpected_reply_text;
use crate::text::{join_path, joined_path};
use vstd::prelude::*;
use vstd::string::StringExecFns;

verus! {

/// A language the service can run: its name, the suffix of its source
/// files, and the directory that holds its `setup.sh`, `compiler` and
/// `runner`.
#[derive(Debug)]
pub struct Language {
    pub name: String,
    pub extension: String,
    pub config_dir: String,
}

/// A language descriptor as plain text.
pub struct LanguageView {
    pub name: Seq<char>,
    pub extension: Seq<char>,
    pub config_dir: Seq<char>,
}

impl View for Language {
    type V = LanguageView;

    open spec fn view(&self) -> LanguageView {
        LanguageView {
            name: self.name@,
            extension: self.extension@,
            config_dir: self.config_dir@,
        }
    }
}

/// The source-file suffix of the language of the given name.
pub open spec fn extension_of(name: Seq<char>) -> Seq<char> {
    if name == "python"@ {
        "py"@
    } else if name == "javascript"@ {
        "js"@
    } else if name == "typescript"@ {
        "ts"@
    } else {
        "txt"@
    }
}

/// The source-file suffix of the language of the given name.
pub fn source_extension(name: &str) -> (ext: String)
    ensures
        ext@ == extension_of(name@),
{
    let owned = String::from_str(name);
    if owned == String::from_str("python") {
        String::from_str("py")
    } else if owned == String::from_str("javascript") {
        String::from_str("js")
    } else if owned == String::from_str("typescript") {
        String::from_str("ts")
    } else {
        String::from_str("txt")
    }
}

impl Language {
    /// A descriptor of the given name, suffix and directory.
    pub fn new(name: String, extension: String, config_dir: String) -> (l: Self)
        ensures
            l.name == name,
            l.extension == extension,
            l.config_dir == config_dir,
    {
        Language { name, extension, config_dir }
    }

    /// The path of the one-time setup script.
    pub fn setup_script(&self) -> (p: String)
        ensures
            p@ == joined_path(self.config_dir@, "setup.sh"@),
    {
        join_path(self.config_dir.as_str(), "setup.sh")
    }

    /// The path of the compiler script.
    pub fn compiler_path(&self) -> (p: String)
        ensures
            p@ == joined_path(self.config_dir@, "compiler"@),
    {
        join_path(self.config_dir.as_str(), "compiler")
    }

    /// The path of the runner script.
    pub fn runner_path(&self) -> (p: String)
        ensures
            p@ == joined_path(self.config_dir@, "runner"@),
    {
        join_path(self.config_dir.as_str(), "runner")
    }

    /// A copy of this descriptor.
    pub fn duplicate(&self) -> (l: Self)
        ensures
            l@ == self@,
    {
        Language {
            name: self.name.clone(),
            extension: self.extension.clone(),
            config_dir: self.config_dir.clone(),
        }
    }
}

/// An entry of the configuration directory: its path, its file name where
/// that is readable text, and whether it is a directory.
pub struct ConfigEntry {
    pub path: String,
    pub name: Option<String>,
    pub is_dir: bool,
}

/// The descriptor that a directory entry stands for: named after the
/// directory, with the suffix that goes with that name.
pub open spec fn language_at(entry: ConfigEntry) -> LanguageView {
    let name = match entry.name {
        Some(n) => n@,
        None => Seq::empty(),
    };
    LanguageView { name, extension: extension_of(name), config_dir: entry.path@ }
}

/// The directories among the entries, in order.
pub open spec fn directories(entries: Seq<ConfigEntry>) -> Seq<ConfigEntry>
    decreases entries.len(),
{
    if entries.len() == 0 {
        Seq::empty()
    } else if entries.last().is_dir {
        directories(entries.drop_last()).push(entries.last())
    } else {
        directories(entries.drop_last())
    }
}

/// Every directory among the entries has a readable name.
pub open spec fn all_named(entries: Seq<ConfigEntry>) -> bool {
    forall|i: int| 0 <= i < entries.len() && entries[i].is_dir ==> (#[trigger] entries[i]).name is Some
}

/// The languages that the entries of a configuration directory stand for:
/// one for each subdirectory, named after it, in the order of the entries.
/// A subdirectory whose name is not readable text fails the discovery with
/// `Internal`.
pub fn discover_languages(entries: &Vec<ConfigEntry>) -> (r: Result<Vec<Language>, DomainError>)
    ensures
        r is Ok <==> all_named(entries@),
        r matches Ok(languages) ==> {
            &&& languages@.len() == directories(entries@).len()
            &&& forall|i: int|
                0 <= i < languages@.len() ==> (#[trigger] languages@[i])@ == language_at(
                    directories(entries@)[i],
                )
        },
        r matches Err(e) ==> e.kind_of() == ErrorKind::Internal && e.detail()
            == "Invalid directory name"@,
{
    let mut languages: Vec<Language> = Vec::new();
    let mut i: usize = 0;
    while i < entries.len()
        invariant
            i <= entries.len(),
            all_named(entries@.take(i as int)),
            languages@.len() == directories(entries@.take(i as int)).len(),
            forall|k: int|
                0 <= k < languages@.len() ==> (#[trigger] languages@[k])@ == language_at(
                    directories(entries@.take(i as int))[k],
                ),
        decreases entries.len() - i,
    {
        let entry = &entries[i];
        let ghost prev = directories(entries@.take(i as int));
        let ghost cur = directories(entries@.take(i + 1));
        let ghost before = languages@;
        proof {
            assert(entries@.take(i + 1).drop_last() =~= entries@.take(i as int));
            assert(entries@.take(i + 1).last() == entries@[i as int]);
            assert(cur == if entry.is_dir {
                prev.push(*entry)
            } else {
                prev
            });
        }
        if entry.is_dir {
            match &entry.name {
                Some(name) => {
                    let extension = source_extension(name.as_str());
                    languages.push(Language::new(name.clone(), extension, entry.path.clone()));
                },
                None => {
                    return Err(DomainError::Internal(String::from_str("Invalid directory name")));
                },
            }
        }
        proof {
            assert forall|k: int| 0 <= k < i + 1 && entries@.take(i + 1)[k].is_dir implies (
            #[trigger] entries@.take(i + 1)[k]).name is Some by {
                if k < i {
                    assert(entries@.take(i as int)[k] == entries@.take(i + 1)[k]);
                }
            }
            assert forall|k: int| 0 <= k < languages@.len() implies (#[trigger] languages@[k])@
                == language_at(cur[k]) by {
                if k < before.len() {
                    assert(languages@[k] == before[k]);
                    assert(cur[k] == prev[k]);
                }
            }
        }
        i = i + 1;
    }
    proof {
        assert(entries@.take(entries@.len() as int) =~= entries@);
    }
    Ok(languages)
}

/// The views of a list of descriptors.
pub open spec fn language_views(items: Seq<Language>) -> Seq<LanguageView> {
    Seq::new(items.len(), |i: int| items[i]@)
}

/// No two entries bear the same name.
pub open spec fn names_unique(entries: Seq<LanguageView>) -> bool {
    forall|i: int, j: int|
        0 <= i < entries.len() && 0 <= j < entries.len() && i != j ==> (#[trigger] entries[i]).name
            != (#[trigger] entries[j]).name
}

/// Some entry bears the name.
pub open spec fn has_name(entries: Seq<LanguageView>, name: Seq<char>) -> bool {
    exists|i: int| 0 <= i < entries.len() && (#[trigger] entries[i]).name == name
}

/// The entries after `language` is stored: it takes the place of the entry
/// of the same name, or joins at the end when there is none.
pub open spec fn with_language(entries: Seq<LanguageView>, language: LanguageView) -> Seq<
    LanguageView,
>
    decreases entries.len(),
{
    if entries.len() == 0 {
        seq![language]
    } else if entries[0].name == language.name {
        seq![language] + entries.drop_first()
    } else {
        seq![entries[0]] + with_language(entries.drop_first(), language)
    }
}

/// The entries after each of `languages` is stored, in order.
pub open spec fn with_languages(entries: Seq<LanguageView>, languages: Seq<LanguageView>) -> Seq<
    LanguageView,
>
    decreases languages.len(),
{
    if languages.len() == 0 {
        entries
    } else {
        with_language(with_languages(entries, languages.drop_last()), languages.last())
    }
}

/// Storing a language whose name first stands at position `i` replaces
/// that entry; storing one whose name stands nowhere appends it.
pub proof fn lemma_with_language_at(entries: Seq<LanguageView>, language: LanguageView, i: int)
    requires
        0 <= i <= entries.len(),
        forall|k: int| 0 <= k < i ==> (#[trigger] entries[k]).name != language.name,
        i < entries.len() ==> entries[i].name == language.name,
    ensures
        with_language(entries, language) == if i < entries.len() {
            entries.update(i, language)
        } else {
            entries.push(language)
        },
    decreases entries.len(),
{
    if entries.len() == 0 {
        assert(seq![language] =~= entries.push(language));
    } else if i == 0 {
        assert(seq![language] + entries.drop_first() =~= entries.update(0, language));
    } else {
        let rest = entries.drop_first();
        assert(entries[0].name != language.name);
        assert forall|k: int| 0 <= k < i - 1 implies (#[trigger] rest[k]).name
            != language.name by {
            assert(rest[k] == entries[k + 1]);
        }
        lemma_with_language_at(rest, language, i - 1);
        if i < entries.len() {
            assert(seq![entries[0]] + rest.update(i - 1, language) =~= entries.update(i, language));
        } else {
            assert(seq![entries[0]] + rest.push(language) =~= entries.push(language));
        }
    }
}

/// Storing a language keeps the names unique, and afterwards the name is
/// served.
pub proof fn lemma_with_language_unique(entries: Seq<LanguageView>, language: LanguageView)
    requires
        names_unique(entries),
    ensures
        names_unique(with_language(entries, language)),
        has_name(with_language(entries, language), language.name),
    decreases entries.len(),
{
    let next = with_language(entries, language);
    if has_name(entries, language.name) {
        let i = choose|i: int| 0 <= i < entries.len() && (#[trigger] entries[i]).name
            == language.name;
        lemma_with_language_at(entries, language, i);
        assert(next[i].name == language.name);
        assert forall|a: int, b: int|
            0 <= a < next.len() && 0 <= b < next.len() && a != b implies (#[trigger] next[a]).name
            != (#[trigger] next[b]).name by {
            assert(next[a].name == entries[a].name);
            assert(next[b].name == entries[b].name);
        }
    } else {
        lemma_with_language_at(entries, language, entries.len() as int);
        assert(next[entries.len() as int].name == language.name);
        assert forall|a: int, b: int|
            0 <= a < next.len() && 0 <= b < next.len() && a != b implies (#[trigger] next[a]).name
            != (#[trigger] next[b]).name by {
            if a < entries.len() {
                assert(next[a] == entries[a]);
            }
            if b < entries.len() {
                assert(next[b] == entries[b]);
            }
        }
    }
}

/// What a lookup of `name` among `entries` may answer: the descriptor of
/// that name, or `LanguageNotFound` with the name when there is none.
pub open spec fn lookup_answer(
    entries: Seq<LanguageView>,
    name: Seq<char>,
    r: Result<Language, DomainError>,
) -> bool {
    match r {
        Ok(language) => language@.name == name && entries.contains(language@),
        Err(e) => !has_name(entries, name) && e.kind_of() == ErrorKind::LanguageNotFound
            && e.detail() == name,
    }
}

/// A source of language descriptors.
pub trait LanguageRepository {
    /// The descriptors that are served.
    spec fn served(&self) -> Seq<LanguageView>;

    /// The descriptor of the language of the given name.
    fn find_by_name(&self, name: &str) -> (r: Result<Language, DomainError>)
        ensures
            lookup_answer(self.served(), name@, r),
    ;

    /// Every descriptor.
    fn list_all(&self) -> (all: Vec<Language>)
        ensures
            language_views(all@) == self.served(),
    ;
}

/// The registry of languages: filled once at startup, read-only after.
pub struct FileSystemLanguageRepository {
    config_dir: String,
    languages: Vec<Language>,
    process_executor: ProcessExecutor,
}

impl FileSystemLanguageRepository {
    #[verifier::type_invariant]
    spec fn well_formed(self) -> bool {
        names_unique(language_views(self.languages@))
    }

    /// The descriptors the registry holds.
    pub closed spec fn entries(&self) -> Seq<LanguageView> {
        language_views(self.languages@)
    }

    /// The directory the registry is filled from.
    pub closed spec fn directory(&self) -> Seq<char> {
        self.config_dir@
    }

    /// No two descriptors bear the same name.
    pub open spec fn inv(&self) -> bool {
        names_unique(self.entries())
    }

    /// An empty registry for the given configuration directory.
    pub fn new(config_dir: String) -> (r: Self)
        ensures
            r.inv(),
            r.entries() == Seq::<LanguageView>::empty(),
            r.directory() == config_dir@,
    {
        let languages: Vec<Language> = Vec::new();
        assert(language_views(languages@) =~= Seq::<LanguageView>::empty());
        FileSystemLanguageRepository {
            config_dir,
            languages,
            process_executor: ProcessExecutor::new(),
        }
    }

    /// The directory the registry is filled from.
    pub fn config_dir(&self) -> (d: &str)
        ensures
            d@ == self.directory(),
    {
        self.config_dir.as_str()
    }

    /// Stores a descriptor under its name, in place of an earlier one of
    /// the same name.
    pub fn insert(&mut self, language: Language)
        ensures
            final(self).inv(),
            final(self).directory() == old(self).directory(),
            final(self).entries() == with_language(old(self).entries(), language@),
    {
        proof {
            use_type_invariant(&*self);
        }
        let ghost before = self.entries();
        let mut i: usize = 0;
        let mut found: bool = false;
        while i < self.languages.len() && !found
            invariant
                i <= self.languages.len(),
                self.entries() == before,
                *self == *old(self),
                forall|k: int| 0 <= k < i ==> (#[trigger] before[k]).name != language@.name,
                found ==> i < self.languages.len() && before[i as int].name == language@.name,
            decreases self.languages.len() - i + if found { 0int } else { 1int },
        {
            if self.languages[i].name == language.name {
                found = true;
            } else {
                i = i + 1;
            }
        }
        proof {
            lemma_with_language_at(before, language@, i as int);
            lemma_with_language_unique(before, language@);
        }
        // The list is taken out while it changes: the registry itself is
        // well-formed at every step.
        let mut languages: Vec<Language> = Vec::new();
        proof {
            assert(language_views(languages@) =~= Seq::<LanguageView>::empty());
        }
        std::mem::swap(&mut self.languages, &mut languages);
        if i < languages.len() {
            languages.set(i, language);
            assert(language_views(languages@) =~= before.update(i as int, language@));
        } else {
            languages.push(language);
            assert(language_views(languages@) =~= before.push(language@));
        }
        std::mem::swap(&mut self.languages, &mut languages);
    }

    /// Stores every descriptor of `discovered`, in order.
    pub fn store(&mut self, discovered: Vec<Language>)
        ensures
            final(self).inv(),
            final(self).directory() == old(self).directory(),
            final(self).entries() == with_languages(
                old(self).entries(),
                language_views(discovered@),
            ),
    {
        let ghost views = language_views(discovered@);
        let mut i: usize = 0;
        while i < discovered.len()
            invariant
                i <= discovered.len(),
                self.directory() == old(self).directory(),
                views == language_views(discovered@),
                self.entries() == with_languages(old(self).entries(), views.take(i as int)),
            decreases discovered.len() - i,
        {
            proof {
                assert(views.take(i + 1).drop_last() =~= views.take(i as int));
                assert(views.take(i + 1).last() == discovered@[i as int]@);
            }
            self.insert(discovered[i].duplicate());
            i = i + 1;
        }
        proof {
            use_type_invariant(&*self);
            assert(views.take(discovered@.len() as int) =~= views);
        }
    }
}

impl LanguageRepository for FileSystemLanguageRepository {
    open spec fn served(&self) -> Seq<LanguageView> {
        self.entries()
    }

    fn find_by_name(&self, name: &str) -> (r: Result<Language, DomainError>) {
        let wanted = String::from_str(name);
        let mut i: usize = 0;
        while i < self.languages.len()
            invariant
                i <= self.languages.len(),
                wanted@ == name@,
                forall|k: int| 0 <= k < i ==> (#[trigger] self.entries()[k]).name != name@,
            decreases self.languages.len() - i,
        {
            if self.languages[i].name == wanted {
                let language = self.languages[i].duplicate();
                assert(self.entries()[i as int] == language@);
                return Ok(language);
            }
            i = i + 1;
        }
        Err(DomainError::LanguageNotFound(wanted))
    }

    /// Every descriptor, in the order in which the names were first stored.
    fn list_all(&self) -> (all: Vec<Language>) {
        let mut all: Vec<Language> = Vec::new();
        let mut i: usize = 0;
        while i < self.languages.len()
            invariant
                i <= self.languages.len(),
                all@.len() == i,
                language_views(all@) == self.entries().take(i as int),
            decreases self.languages.len() - i,
        {
            let ghost prev = all@;
            all.push(self.languages[i].duplicate());
            proof {
                assert forall|k: int| 0 <= k < i + 1 implies language_views(all@)[k]
                    == self.entries().take(i + 1)[k] by {
                    if k < i {
                        assert(all@[k] == prev[k]);
                        assert(language_views(prev)[k] == self.entries().take(i as int)[k]);
                    }
                }
                assert(language_views(all@) =~= self.entries().take(i + 1));
            }
            i = i + 1;
        }
        assert(self.entries().take(self.languages@.len() as int) =~= self.entries());
        all
    }
}

/// Where the startup of the registry stands.
#[derive(Clone, Copy, Debug, PartialEq, Eq, Structural)]
pub enum SetupStage {
    /// Waiting to learn whether the next language has a setup script.
    Probe,
    /// Waiting for the setup script of the next language to terminate.
    Run,
    Finished,
}

/// The startup of the registry in progress: the languages discovered, and
/// which of them is set up next.
pub struct LanguageSetup {
    pub stage: SetupStage,
    pub discovered: Vec<Language>,
    pub next: usize,
}

impl LanguageSetup {
    /// While the startup runs, a language is waiting for its setup.
    pub open spec fn inv(&self) -> bool {
        self.stage != SetupStage::Finished ==> self.next < self.discovered@.len()
    }
}

/// The command that runs a setup script.
pub open spec fn script_command(path: Seq<char>) -> CommandView {
    CommandView { program: "bash"@, args: seq![path] }
}

/// The startup goes on with the language at position `next`: its setup
/// script is looked for, and the registry stays as it is. With no language
/// left, every discovered language is stored, and the startup ends.
pub open spec fn setup_proceeds(
    discovered: Seq<LanguageView>,
    next: int,
    entries_before: Seq<LanguageView>,
    after: LanguageSetup,
    entries_after: Seq<LanguageView>,
    step: Step<()>,
) -> bool {
    if next < discovered.len() {
        &&& after.stage == SetupStage::Probe
        &&& after.next == next
        &&& entries_after == entries_before
        &&& step.asks_exists(joined_path(discovered[next].config_dir, "setup.sh"@))
    } else {
        &&& after.stage == SetupStage::Finished
        &&& entries_after == with_languages(entries_before, discovered)
        &&& step matches Step::Done(Ok(_))
    }
}

/// The startup ends in the given failure, and the registry stays as it is.
pub open spec fn setup_fails(
    entries_before: Seq<LanguageView>,
    after: LanguageSetup,
    entries_after: Seq<LanguageView>,
    step: Step<()>,
    detail: Seq<char>,
) -> bool {
    &&& after.stage == SetupStage::Finished
    &&& entries_after == entries_before
    &&& step.fails_with(ErrorKind::Internal, detail)
}

/// What `resume_setup` decides, for each stage and reply. A language
/// without a setup script is skipped; a setup script that fails ends the
/// startup. A startup whose state is not one that the registry made is
/// ended like one that got a reply out of turn.
pub open spec fn setup_decision(
    before: LanguageSetup,
    entries_before: Seq<LanguageView>,
    reply: Reply,
    after: LanguageSetup,
    entries_after: Seq<LanguageView>,
    step: Step<()>,
) -> bool {
    let discovered = language_views(before.discovered@);
    &&& language_views(after.discovered@) == discovered
    &&& if !before.inv() {
        setup_fails(entries_before, after, entries_after, step, unexpected_reply_text())
    } else {
        match (before.stage, reply) {
        (SetupStage::Probe, Reply::Exists(present)) => if present {
            &&& after.stage == SetupStage::Run
            &&& after.next == before.next
            &&& entries_after == entries_before
            &&& step.asks_run(
                script_command(
                    joined_path(discovered[before.next as int].config_dir, "setup.sh"@),
                ),
            )
        } else {
            setup_proceeds(discovered, before.next + 1, entries_before, after, entries_after, step)
        },
        (SetupStage::Run, Reply::Exited(out)) => if out.exit_code == 0 {
            setup_proceeds(discovered, before.next + 1, entries_before, after, entries_after, step)
        } else {
            setup_fails(
                entries_before,
                after,
                entries_after,
                step,
                "Script execution failed: "@ + out.stderr@,
            )
        },
        (SetupStage::Run, Reply::Failed(reason)) => setup_fails(
            entries_before,
            after,
            entries_after,
            step,
            "Failed to execute script: "@ + reason@,
        ),
        _ => setup_fails(entries_before, after, entries_after, step, unexpected_reply_text()),
        }
    }
}

/// The number of requests that a startup can still make: two for each
/// language that waits for its setup, less the one already made for the
/// language whose script is running.
pub open spec fn setup_requests_left(setup: LanguageSetup) -> int {
    match setup.stage {
        SetupStage::Probe => 2 * (setup.discovered@.len() - setup.next),
        SetupStage::Run => 2 * (setup.discovered@.len() - setup.next) - 1,
        SetupStage::Finished => 0,
    }
}

/// Every decision takes a startup strictly nearer to its end, and the
/// registry changes only with the decision that ends the startup well.
pub proof fn lemma_setup_advances(
    before: LanguageSetup,
    entries_before: Seq<LanguageView>,
    reply: Reply,
    after: LanguageSetup,
    entries_after: Seq<LanguageView>,
    step: Step<()>,
)
    requires
        before.inv(),
        setup_decision(before, entries_before, reply, after, entries_after, step),
    ensures
        before.stage != SetupStage::Finished ==> 0 <= setup_requests_left(after)
            < setup_requests_left(before),
        before.stage == SetupStage::Finished ==> after.stage == SetupStage::Finished,
        step is Done ==> after.stage == SetupStage::Finished,
        !(step matches Step::Done(Ok(_))) ==> entries_after == entries_before,
{
    assert(language_views(after.discovered@).len() == language_views(before.discovered@).len());
}

impl FileSystemLanguageRepository {
    fn proceed(&mut self, setup: &mut LanguageSetup, next: usize) -> (step: Step<()>)
        requires
            next <= old(setup).discovered@.len(),
        ensures
            final(self).directory() == old(self).directory(),
            final(setup).inv(),
            language_views(final(setup).discovered@) == language_views(old(setup).discovered@),
            setup_proceeds(
                language_views(old(setup).discovered@),
                next as int,
                old(self).entries(),
                *final(setup),
                final(self).entries(),
                step,
            ),
    {
        if next < setup.discovered.len() {
            setup.stage = SetupStage::Probe;
            setup.next = next;
            Step::Ask(Request::Exists(setup.discovered[next].setup_script()))
        } else {
            setup.stage = SetupStage::Finished;
            let mut all: Vec<Language> = Vec::new();
            let mut i: usize = 0;
            while i < setup.discovered.len()
                invariant
                    i <= setup.discovered.len(),
                    all@.len() == i,
                    language_views(all@) == language_views(setup.discovered@).take(i as int),
                decreases setup.discovered.len() - i,
            {
                let ghost prev = all@;
                all.push(setup.discovered[i].duplicate());
                proof {
                    assert forall|k: int| 0 <= k < i + 1 implies language_views(all@)[k]
                        == language_views(setup.discovered@).take(i + 1)[k] by {
                        if k < i {
                            assert(all@[k] == prev[k]);
                            assert(language_views(prev)[k] == language_views(
                                setup.discovered@,
                            ).take(i as int)[k]);
                        }
                    }
                    assert(language_views(all@) =~= language_views(setup.discovered@).take(i + 1));
                }
                i = i + 1;
            }
            proof {
                assert(language_views(setup.discovered@).take(setup.discovered@.len() as int)
                    =~= language_views(setup.discovered@));
            }
            self.store(all);
            Step::Done(Ok(()))
        }
    }

    /// Begins the startup of the registry from the entries of its
    /// configuration directory. A discovery that fails ends the startup;
    /// otherwise the languages are set up one after the other, and stored
    /// when the last is done.
    pub fn setup_all(&mut self, entries: &Vec<ConfigEntry>) -> (r: (LanguageSetup, Step<()>))
        ensures
            final(self).directory() == old(self).directory(),
            r.0.inv(),
            if all_named(entries@) {
                &&& r.0.discovered@.len() == directories(entries@).len()
                &&& forall|i: int|
                    0 <= i < r.0.discovered@.len() ==> (#[trigger] r.0.discovered@[i])@
                        == language_at(directories(entries@)[i])
                &&& setup_proceeds(
                    language_views(r.0.discovered@),
                    0,
                    old(self).entries(),
                    r.0,
                    final(self).entries(),
                    r.1,
                )
            } else {
                setup_fails(
                    old(self).entries(),
                    r.0,
                    final(self).entries(),
                    r.1,
                    "Invalid directory name"@,
                )
            },
    {
        match discover_languages(entries) {
            Ok(discovered) => {
                let mut setup = LanguageSetup { stage: SetupStage::Finished, discovered, next: 0 };
                let step = self.proceed(&mut setup, 0);
                proof {
                    assert forall|i: int| 0 <= i < setup.discovered@.len() implies (
                    #[trigger] setup.discovered@[i])@ == language_at(directories(entries@)[i]) by {
                        assert(language_views(setup.discovered@)[i] == language_views(
                            discovered@,
                        )[i]);
                    }
                }
                (setup, step)
            },
            Err(e) => {
                let setup = LanguageSetup {
                    stage: SetupStage::Finished,
                    discovered: Vec::new(),
                    next: 0,
                };
                (setup, Step::Done(Err(e)))
            },
        }
    }

    /// Takes the startup one decision further, given the answer to its
    /// last request.
    pub fn resume_setup(&mut self, setup: &mut LanguageSetup, reply: Reply) -> (step: Step<()>)
        ensures
            final(self).directory() == old(self).directory(),
            final(setup).inv(),
            setup_decision(
                *old(setup),
                old(self).entries(),
                reply,
                *final(setup),
                final(self).entries(),
                step,
            ),
    {
        let stage = setup.stage;
        let current: usize = setup.next;
        let count: usize = setup.discovered.len();
        setup.stage = SetupStage::Finished;
        if stage != SetupStage::Finished && current >= count {
            return Step::Done(Err(unexpected_reply()));
        }
        match (stage, reply) {
            (SetupStage::Probe, Reply::Exists(present)) => {
                if present {
                    let script = setup.discovered[current].setup_script();
                    setup.stage = SetupStage::Run;
                    let command = self.process_executor.script_command(script.as_str());
                    assert(language_views(setup.discovered@)[current as int]
                        == setup.discovered@[current as int]@);
                    Step::Ask(Request::Run(command))
                } else {
                    assert(current < count);
                    self.proceed(setup, current + 1)
                }
            },
            (SetupStage::Run, Reply::Exited(out)) => {
                match self.process_executor.script_result(
                    out.exit_code == 0,
                    out.stderr.as_str(),
                ) {
                    Ok(_) => {
                        assert(current < count);
                        self.proceed(setup, current + 1)
                    },
                    Err(e) => Step::Done(Err(e)),
                }
            },
            (SetupStage::Run, Reply::Failed(reason)) => {
                Step::Done(Err(self.process_executor.script_spawn_failure(reason.as_str())))
            },
            _ => Step::Done(Err(unexpected_reply())),
        }
    }
}

/// Two answers to the same lookup on the same registry are the same
/// answer: serving a request changes nothing that a later one could see.
pub proof fn lemma_lookup_is_stable(
    registry: FileSystemLanguageRepository,
    name: Seq<char>,
    first: Result<Language, DomainError>,
    second: Result<Language, DomainError>,
)
    requires
        registry.inv(),
        lookup_answer(registry.entries(), name, first),
        lookup_answer(registry.entries(), name, second),
    ensures
        first is Ok <==> second is Ok,
        first is Ok ==> first->Ok_0@ == second->Ok_0@,
        first is Err ==> first->Err_0.kind_of() == second->Err_0.kind_of() && first->Err_0.detail()
            == second->Err_0.detail(),
{
    let entries = registry.entries();
    if first is Ok {
        let a = first->Ok_0@;
        let i = entries.index_of(a);
        assert(entries[i].name == name);
        if second is Ok {
            let b = second->Ok_0@;
            let j = entries.index_of(b);
            assert(entries[j].name == name);
        }
    } else if second is Ok {
        let b = second->Ok_0@;
        let j = entries.index_of(b);
        assert(entries[j].name == name);
    }
}

/// Two listings of the same registry hold the same descriptors in the
/// same order.
pub proof fn lemma_listing_is_stable(
    registry: FileSystemLanguageRepository,
    first: Vec<Language>,
    second: Vec<Language>,
)
    requires
        language_views(first@) == registry.entries(),
        language_views(second@) == registry.entries(),
    ensures
        language_views(first@) == language_views(second@),
{
}

} // verus!
