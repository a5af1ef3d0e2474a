//! The configuration of a project: a TOML file in the dot directory of the
//! project that names its tasks.
//!
//! What the `toml` crate makes of a text goes by the names of
//! [`crate::adapters::toml_document`]; which configuration a text stands
//! for is stated over them.

use crate::adapters::file_journal::{FileExchange, JournaledFiles};
use crate::adapters::toml_document::{
    raw_tasks_of, raw_views, read_tasks, table_key_names, toml_document, RawTask, RawTaskView,
};
use crate::domain::models::{texts, Command, CommandView, TaskConfig};
use crate::errors::{ConfigError, FileSystemError};
use crate::ports::config_port::ConfigPort;
use crate::ports::filesystem_port::FileSystemPort;
use crate::text::{join_path, joined_path};
use vstd::prelude::*;

verus! {

/// The configuration that a new project starts with.
pub const DEFAULT_CONFIG: &'static str = r#"# WezBits Configuration

# Common tasks
[build]
program = "npm"
args = ["run", "build"]

[format]
program = ""
args = []

[run]
program = ""
args = []

[test]
program = ""
args = []

[check]
program = ""
args = []

# Non-interactive registers
[q]
program = ""
args = []

[w]
program = ""
args = []

[e]
program = ""
args = []

[y]
program = ""
args = []

# Interactive registers
[Q]
program = ""
args = []

[W]
program = ""
args = []

[E]
program = ""
args = []

[Y]
program = ""
args = []
"#;

/// Whether the entry reads as a task: it has a program and arguments.
pub open spec fn is_complete(task: RawTaskView) -> bool {
    task.program is Some && task.args is Some
}

/// The command of an entry that reads as a task.
pub open spec fn command_of(task: RawTaskView) -> CommandView {
    CommandView { program: task.program->0, args: task.args->0 }
}

/// The configuration that the entries `tasks` make: each name maps to the
/// command of its entry, and of two entries with one name the later counts.
pub open spec fn config_of(tasks: Seq<RawTaskView>) -> Map<Seq<char>, CommandView>
    decreases tasks.len(),
{
    if tasks.len() == 0 {
        Map::empty()
    } else {
        config_of(tasks.drop_last()).insert(tasks.last().name, command_of(tasks.last()))
    }
}

/// The names of the entries `tasks`, each once, in the order in which
/// they first occur.
pub open spec fn names_of(tasks: Seq<RawTaskView>) -> Seq<Seq<char>>
    decreases tasks.len(),
{
    if tasks.len() == 0 {
        Seq::empty()
    } else if config_of(tasks.drop_last()).contains_key(tasks.last().name) {
        names_of(tasks.drop_last())
    } else {
        names_of(tasks.drop_last()).push(tasks.last().name)
    }
}

/// The names of the entries `tasks`, one for one.
pub open spec fn entry_names(tasks: Seq<RawTaskView>) -> Seq<Seq<char>> {
    Seq::new(tasks.len(), |i: int| tasks[i].name)
}

/// Entries whose names are pairwise distinct make a configuration that
/// holds each of them, with the names in the order of the entries.
pub proof fn lemma_distinct_entries_all_count(tasks: Seq<RawTaskView>)
    requires
        entry_names(tasks).no_duplicates(),
    ensures
        names_of(tasks) == entry_names(tasks),
        config_of(tasks).dom() == entry_names(tasks).to_set(),
        forall|i: int|
            0 <= i < tasks.len() ==> config_of(tasks)[(#[trigger] tasks[i]).name] == command_of(
                tasks[i],
            ),
    decreases tasks.len(),
{
    if tasks.len() == 0 {
        assert(names_of(tasks) =~= entry_names(tasks));
        assert(config_of(tasks).dom() =~= entry_names(tasks).to_set());
    } else {
        let rest = tasks.drop_last();
        let last = tasks.last();
        assert(entry_names(rest) =~= entry_names(tasks).drop_last());
        assert(entry_names(rest).no_duplicates()) by {
            assert forall|i: int, j: int|
                0 <= i < rest.len() && 0 <= j < rest.len() && i != j implies entry_names(rest)[i]
                != entry_names(rest)[j] by {
                assert(entry_names(tasks)[i] != entry_names(tasks)[j]);
            }
        }
        lemma_distinct_entries_all_count(rest);
        assert(!config_of(rest).contains_key(last.name)) by {
            if entry_names(rest).to_set().contains(last.name) {
                let i = choose|i: int| 0 <= i < rest.len() && entry_names(rest)[i] == last.name;
                assert(entry_names(tasks)[i] == entry_names(tasks)[tasks.len() - 1]);
            }
        }
        assert(names_of(tasks) =~= entry_names(tasks));
        assert(config_of(tasks).dom() =~= entry_names(tasks).to_set()) by {
            assert forall|name: Seq<char>|
                config_of(tasks).dom().contains(name) == entry_names(tasks).to_set().contains(
                    name,
                ) by {
                if entry_names(tasks).to_set().contains(name) {
                    let i = choose|i: int| 0 <= i < tasks.len() && entry_names(tasks)[i] == name;
                    if i < rest.len() {
                        assert(entry_names(rest)[i] == name);
                    }
                }
                if entry_names(rest).to_set().contains(name) {
                    let i = choose|i: int| 0 <= i < rest.len() && entry_names(rest)[i] == name;
                    assert(entry_names(tasks)[i] == name);
                }
                if name == last.name {
                    assert(entry_names(tasks)[tasks.len() - 1] == name);
                }
            }
        }
        assert forall|i: int| 0 <= i < tasks.len() implies config_of(tasks)[(
        #[trigger] tasks[i]).name] == command_of(tasks[i]) by {
            if i < rest.len() {
                assert(tasks[i] == rest[i]);
                assert(entry_names(tasks)[i] != entry_names(tasks)[tasks.len() - 1]);
            }
        }
    }
}

/// Whether every one of the entries `tasks` reads as a task.
pub open spec fn all_complete(tasks: Seq<RawTaskView>) -> bool {
    forall|i: int| 0 <= i < tasks.len() ==> is_complete(#[trigger] tasks[i])
}

/// The entries that the text `text` reads as, if it reads as a
/// configuration: it has to be TOML, and every entry of the document has
/// to read as a task.
pub open spec fn config_entries(text: Seq<char>) -> Option<Seq<RawTaskView>> {
    match toml_document(text) {
        Ok(document) => if all_complete(raw_tasks_of(document)) {
            Some(raw_tasks_of(document))
        } else {
            None
        },
        Err(_) => None,
    }
}

/// Whether `result` is what the text `text` of the file at `path` reads
/// as: the configuration that its entries make, with one task for each
/// key of the document and the names in the order of those keys, or the
/// parse error for that file.
pub open spec fn is_parse_outcome(
    text: Seq<char>,
    path: Seq<char>,
    result: Result<TaskConfig, ConfigError>,
) -> bool {
    match result {
        Ok(config) => {
            &&& config_entries(text) matches Some(entries)
            &&& config@ == config_of(entries)
            &&& toml_document(text) matches Ok(document)
            &&& config.names() == table_key_names(document)
            &&& config@.dom() == table_key_names(document).to_set()
        },
        Err(error) => {
            &&& config_entries(text) is None
            &&& error matches ConfigError::Parse(detail)
            &&& detail@ == parse_failure(path)
        },
    }
}

/// The detail of the error for a configuration file at `path` that does
/// not read as a configuration.
pub open spec fn parse_failure(path: Seq<char>) -> Seq<char> {
    "Failed to parse TOML config file: "@ + path
}

/// `parts` one after the other, with `separator` between each two.
pub open spec fn joined(parts: Seq<Seq<char>>, separator: Seq<char>) -> Seq<char>
    decreases parts.len(),
{
    if parts.len() == 0 {
        Seq::empty()
    } else if parts.len() == 1 {
        parts[0]
    } else {
        joined(parts.drop_last(), separator) + separator + parts.last()
    }
}

/// The line that shows the task `name` with its command: the name in
/// square brackets, the program, and the arguments with a blank between
/// each two.
pub open spec fn rendered_task(name: Seq<char>, command: CommandView) -> Seq<char> {
    "["@ + name + "] "@ + command.program + " "@ + joined(command.args, " "@) + "\n"@
}

/// The lines that show the tasks `names` of `config`, in that order.
pub open spec fn rendered(names: Seq<Seq<char>>, config: Map<Seq<char>, CommandView>) -> Seq<char>
    decreases names.len(),
{
    if names.len() == 0 {
        Seq::empty()
    } else {
        rendered(names.drop_last(), config) + rendered_task(names.last(), config[names.last()])
    }
}

/// Makes the configuration out of the entries `tasks` of the file at
/// `path`. Every entry has to read as a task; if one does not, the file
/// does not read as a configuration.
pub fn tasks_from_raw(tasks: Vec<RawTask>, path: &str) -> (result: Result<TaskConfig, ConfigError>)
    ensures
        match result {
            Ok(config) => {
                &&& forall|i: int| 0 <= i < tasks@.len() ==> is_complete(#[trigger] tasks@[i]@)
                &&& config@ == config_of(raw_views(tasks@))
                &&& config.names() == names_of(raw_views(tasks@))
            },
            Err(error) => {
                &&& exists|i: int| 0 <= i < tasks@.len() && !is_complete(#[trigger] tasks@[i]@)
                &&& error matches ConfigError::Parse(detail)
                &&& detail@ == parse_failure(path@)
            },
        },
{
    let mut config = TaskConfig::new();
    let ghost all = tasks@;
    let mut rest = tasks;
    let mut i: usize = 0;
    assert(raw_views(all).subrange(0, 0) =~= Seq::<RawTaskView>::empty());
    while i < rest.len()
        invariant
            i <= rest.len(),
            all == tasks@,
            rest@.len() == all.len(),
            forall|j: int| i <= j < all.len() ==> rest@[j] == all[j],
            forall|j: int| 0 <= j < i ==> is_complete(#[trigger] all[j]@),
            config@ == config_of(raw_views(all).subrange(0, i as int)),
            config.names() == names_of(raw_views(all).subrange(0, i as int)),
        decreases rest.len() - i,
    {
        let mut task = RawTask { name: String::new(), program: None, args: None };
        core::mem::swap(&mut task, &mut rest[i]);
        assert(task == all[i as int]);
        let RawTask { name, program, args } = task;
        match (program, args) {
            (Some(program), Some(args)) => {
                let ghost known = config@.contains_key(name@);
                let previous = config.insert(name, Command { program, args });
                proof {
                    let done = raw_views(all).subrange(0, i + 1);
                    assert(done.drop_last() =~= raw_views(all).subrange(0, i as int));
                    assert(done.last() == all[i as int]@);
                    assert(previous is Some == known);
                }
            },
            _ => {
                assert(!is_complete(all[i as int]@));
                return Err(
                    ConfigError::Parse(
                        String::from_str("Failed to parse TOML config file: ").concat(path),
                    ),
                );
            },
        }
        i += 1;
    }
    assert(raw_views(all).subrange(0, all.len() as int) =~= raw_views(all));
    Ok(config)
}

/// `parts` one after the other, with `separator` between each two.
pub fn join(parts: &Vec<String>, separator: &str) -> (text: String)
    ensures
        text@ == joined(texts(parts@), separator@),
{
    let ghost all = texts(parts@);
    let mut text = String::new();
    let mut i: usize = 0;
    assert(all.subrange(0, 0) =~= Seq::<Seq<char>>::empty());
    while i < parts.len()
        invariant
            i <= parts.len(),
            all == texts(parts@),
            text@ == joined(all.subrange(0, i as int), separator@),
        decreases parts.len() - i,
    {
        proof {
            let done = all.subrange(0, i + 1);
            assert(done.drop_last() =~= all.subrange(0, i as int));
            assert(done.last() == parts@[i as int]@);
        }
        if i > 0 {
            text.append(separator);
        }
        text.append(parts[i].as_str());
        i += 1;
    }
    assert(all.subrange(0, all.len() as int) =~= all);
    text
}

/// Shows the tasks of `config`, one line for each, in the order of their
/// names.
pub fn render_config(config: &TaskConfig) -> (text: String)
    ensures
        text@ == rendered(config.names(), config@),
{
    let count = config.len();
    let mut text = String::new();
    let mut i: usize = 0;
    assert(config.names().subrange(0, 0) =~= Seq::<Seq<char>>::empty());
    while i < count
        invariant
            i <= count,
            count == config.names().len(),
            text@ == rendered(config.names().subrange(0, i as int), config@),
        decreases count - i,
    {
        let (name, command) = config.entry(i);
        proof {
            let done = config.names().subrange(0, i + 1);
            assert(done.drop_last() =~= config.names().subrange(0, i as int));
            assert(done.last() == name@);
        }
        text.append("[");
        text.append(name.as_str());
        text.append("] ");
        text.append(command.program.as_str());
        text.append(" ");
        text.append(join(&command.args, " ").as_str());
        text.append("\n");
        i += 1;
    }
    assert(config.names().subrange(0, count as int) =~= config.names());
    text
}

/// Reads the text `content` of the configuration file at `path` as a
/// configuration. The text has to be TOML, and every entry of it a table
/// with a string `program` and an array of strings `args`; anything else
/// is a parse error.
pub fn parse_config(content: &str, path: &str) -> (result: Result<TaskConfig, ConfigError>)
    ensures
        is_parse_outcome(content@, path@, result),
{
    match read_tasks(content) {
        Ok(tasks) => {
            assert(all_complete(raw_views(tasks@)) <==> forall|i: int|
                0 <= i < tasks@.len() ==> is_complete(#[trigger] tasks@[i]@)) by {
                if all_complete(raw_views(tasks@)) {
                    assert forall|i: int| 0 <= i < tasks@.len() implies is_complete(
                        #[trigger] tasks@[i]@,
                    ) by {
                        assert(raw_views(tasks@)[i] == tasks@[i]@);
                    }
                }
            }
            proof {
                let document = toml_document(content@)->Ok_0;
                assert(entry_names(raw_views(tasks@)) =~= table_key_names(document));
                lemma_distinct_entries_all_count(raw_views(tasks@));
            }
            tasks_from_raw(tasks, path)
        },
        Err(_) => Err(
            ConfigError::Parse(String::from_str("Failed to parse TOML config file: ").concat(path)),
        ),
    }
}

/// The detail of the error for a dot directory `dot_dir` that cannot be
/// created.
pub open spec fn directory_failure(dot_dir: Seq<char>) -> Seq<char> {
    "Failed to create directory: "@ + dot_dir
}

/// The detail of the error for a configuration file at `path` that cannot
/// be written.
pub open spec fn write_failure(path: Seq<char>) -> Seq<char> {
    "Failed to write config file: "@ + path
}

/// The detail of the error for a configuration that cannot be viewed
/// because it cannot be loaded.
pub open spec fn view_failure() -> Seq<char> {
    "Failed to load configuration for viewing"@
}

/// Whether `result` is what loading comes to once the file system has
/// answered the request for the text of the file at `path` with `reply`:
/// what the text reads as, or a load error that carries the message of
/// the file system.
pub open spec fn is_load_outcome(
    reply: Result<String, FileSystemError>,
    path: Seq<char>,
    result: Result<TaskConfig, ConfigError>,
) -> bool {
    match reply {
        Ok(content) => is_parse_outcome(content@, path, result),
        Err(failure) => result matches Err(ConfigError::Load(detail)) && detail@
            == failure.spec_message(),
    }
}

/// Whether `result` is what viewing comes to once the file system has
/// answered the request for the text of the configuration file with
/// `reply`: the tasks that the text stands for, one line for each, or the
/// error for a configuration that cannot be viewed.
pub open spec fn is_view_outcome(
    reply: Result<String, FileSystemError>,
    result: Result<String, ConfigError>,
) -> bool {
    match reply {
        Ok(content) => match config_entries(content@) {
            Some(entries) => {
                &&& result matches Ok(text)
                &&& toml_document(content@) matches Ok(document)
                &&& text@ == rendered(table_key_names(document), config_of(entries))
            },
            None => result matches Err(ConfigError::Load(detail)) && detail@ == view_failure(),
        },
        Err(_) => result matches Err(ConfigError::Load(detail)) && detail@ == view_failure(),
    }
}

/// Whether `run` is what creating the default configuration in the file
/// `config_file` of the directory `dot_dir` asks of a file system, with
/// `result` as the outcome.
///
/// The directory is created first. If that fails, nothing is written and
/// the outcome is the error for the directory. Otherwise the default
/// configuration is written to the file, and the outcome is success if
/// that went well and the error for the file if not.
pub open spec fn is_config_creation(
    dot_dir: Seq<char>,
    config_file: Seq<char>,
    run: Seq<FileExchange>,
    result: Result<(), ConfigError>,
) -> bool {
    &&& run.len() >= 1
    &&& run[0] matches FileExchange::CreateDirectory { path: directory, reply: made }
    &&& directory == dot_dir
    &&& match made {
        Err(_) => {
            &&& run.len() == 1
            &&& result matches Err(ConfigError::Create(detail))
            &&& detail@ == directory_failure(dot_dir)
        },
        Ok(_) => {
            &&& run.len() == 2
            &&& run[1] matches FileExchange::WriteFile { path: file, content, reply: written }
            &&& file == joined_path(dot_dir, config_file)
            &&& content == DEFAULT_CONFIG@
            &&& match written {
                Ok(_) => result is Ok,
                Err(_) => result matches Err(ConfigError::Create(detail)) && detail@
                    == write_failure(joined_path(dot_dir, config_file)),
            }
        },
    }
}

/// The configuration adapter: it keeps the configuration in the file
/// `config_file` of the directory `dot_dir`, through the file system `F`.
pub struct ConfigAdapter<F: FileSystemPort> {
    file_system: JournaledFiles<F>,
    dot_dir: String,
    config_file: String,
}

impl<F: FileSystemPort> ConfigAdapter<F> {
    /// The directory that holds the configuration file, as text.
    pub closed spec fn dot_dir(&self) -> Seq<char> {
        self.dot_dir@
    }

    /// The name of the configuration file, as text.
    pub closed spec fn config_file(&self) -> Seq<char> {
        self.config_file@
    }

    /// The file system the adapter works through, as a value.
    pub closed spec fn spec_file_system(&self) -> F {
        self.file_system.spec_port()
    }

    /// Everything the adapter has asked of its file system so far, with
    /// the answers, oldest first.
    pub closed spec fn file_journal(&self) -> Seq<FileExchange> {
        self.file_system.journal()
    }

    /// Whether `after` is this adapter but for what has been asked of the
    /// file system in between.
    pub open spec fn same_setup(&self, after: &Self) -> bool {
        &&& after.dot_dir() == self.dot_dir()
        &&& after.config_file() == self.config_file()
        &&& after.spec_file_system() == self.spec_file_system()
    }

    /// An adapter for the file `config_file` in the directory `dot_dir`. It
    /// has asked nothing of the file system yet.
    pub fn new(file_system: F, dot_dir: String, config_file: String) -> (adapter: Self)
        ensures
            adapter.spec_file_system() == file_system,
            adapter.dot_dir() == dot_dir@,
            adapter.config_file() == config_file@,
            adapter.file_journal() == Seq::<FileExchange>::empty(),
    {
        Self { file_system: JournaledFiles::new(file_system), dot_dir, config_file }
    }

    /// Gives back the file system the adapter worked through.
    pub fn into_file_system(self) -> (file_system: F)
        ensures
            file_system == self.spec_file_system(),
    {
        self.file_system.into_port()
    }

    /// The path of the configuration file.
    pub fn config_path(&self) -> (path: String)
        ensures
            path@ == joined_path(self.dot_dir(), self.config_file()),
    {
        join_path(self.dot_dir.as_str(), self.config_file.as_str())
    }
}

impl<F: FileSystemPort> ConfigPort for ConfigAdapter<F> {
    /// Asks the file system for the text of the configuration file and
    /// reads it as a configuration. A file that cannot be read is a load
    /// error that carries the message of the file system; a text that does
    /// not read as a configuration is a parse error.
    fn load_config(&mut self) -> (result: Result<TaskConfig, ConfigError>)
        ensures
            old(self).same_setup(final(self)),
            exists|reply: Result<String, FileSystemError>|
                {
                    &&& final(self).file_journal() == old(self).file_journal().push(
                        FileExchange::ReadFile {
                            path: joined_path(old(self).dot_dir(), old(self).config_file()),
                            reply,
                        },
                    )
                    &&& is_load_outcome(
                        reply,
                        joined_path(old(self).dot_dir(), old(self).config_file()),
                        result,
                    )
                },
    {
        let path = self.config_path();
        let reply = self.file_system.read_from_file(path.as_str());
        let result = match &reply {
            Ok(content) => parse_config(content.as_str(), path.as_str()),
            Err(error) => Err(ConfigError::Load(error.message())),
        };
        assert(is_load_outcome(reply, path@, result));
        result
    }

    /// Creates the dot directory and writes the default configuration into
    /// the configuration file. Either step that fails is a create error
    /// that names the directory or the file; if the directory cannot be
    /// created, nothing is written.
    fn create_default_config(&mut self) -> (result: Result<(), ConfigError>)
        ensures
            old(self).same_setup(final(self)),
            exists|run: Seq<FileExchange>|
                {
                    &&& is_config_creation(
                        old(self).dot_dir(),
                        old(self).config_file(),
                        run,
                        result,
                    )
                    &&& final(self).file_journal() == old(self).file_journal() + run
                },
    {
        let ghost before = self.file_journal();
        match self.file_system.create_directory(self.dot_dir.as_str()) {
            Ok(()) => {},
            Err(_) => {
                let result = Err(
                    ConfigError::Create(
                        String::from_str("Failed to create directory: ").concat(
                            self.dot_dir.as_str(),
                        ),
                    ),
                );
                proof {
                    let run = seq![self.file_journal().last()];
                    assert(self.file_journal() =~= before + run);
                    assert(is_config_creation(self.dot_dir(), self.config_file(), run, result));
                }
                return result;
            },
        }
        let ghost made = self.file_journal().last();
        let path = self.config_path();
        let result = match self.file_system.write_to_file(path.as_str(), DEFAULT_CONFIG) {
            Ok(()) => Ok(()),
            Err(_) => Err(
                ConfigError::Create(
                    String::from_str("Failed to write config file: ").concat(path.as_str()),
                ),
            ),
        };
        proof {
            let run = seq![made, self.file_journal().last()];
            assert(self.file_journal() =~= before + run);
            assert(is_config_creation(self.dot_dir(), self.config_file(), run, result));
        }
        result
    }

    /// Loads the configuration and shows its tasks, one line for each, in
    /// the order in which the parsed document keeps its keys. The `toml`
    /// crate keeps them sorted unless it is built to preserve the order of
    /// the file, so the lines do not follow the file. A configuration that
    /// cannot be loaded, for whatever reason, is a load error that says so.
    fn view_config(&mut self) -> (result: Result<String, ConfigError>)
        ensures
            old(self).same_setup(final(self)),
            exists|reply: Result<String, FileSystemError>|
                {
                    &&& final(self).file_journal() == old(self).file_journal().push(
                        FileExchange::ReadFile {
                            path: joined_path(old(self).dot_dir(), old(self).config_file()),
                            reply,
                        },
                    )
                    &&& is_view_outcome(reply, result)
                },
    {
        let ghost before = self.file_journal();
        let ghost path = joined_path(self.dot_dir(), self.config_file());
        let loaded = self.load_config();
        let result = match loaded {
            Ok(config) => Ok(render_config(&config)),
            Err(_) => Err(
                ConfigError::Load(String::from_str("Failed to load configuration for viewing")),
            ),
        };
        proof {
            let reply = choose|reply: Result<String, FileSystemError>|
                {
                    &&& self.file_journal() == before.push(
                        FileExchange::ReadFile { path, reply },
                    )
                    &&& is_load_outcome(reply, path, loaded)
                };
            assert(is_view_outcome(reply, result));
        }
        result
    }
}

} // verus!
