//! Commands, tasks and the settings that govern how a task is run.

use vstd::prelude::*;

verus! {

/// Where a new pane is placed relative to the current one.
#[derive(Debug, Clone, Copy, PartialEq, Eq, Structural)]
pub enum Direction {
    Right,
    Down,
}

impl Direction {
    /// The lower-case name of the direction, as text.
    pub open spec fn spec_name(&self) -> Seq<char> {
        match self {
            Direction::Right => "right"@,
            Direction::Down => "down"@,
        }
    }

    /// The lower-case name of the direction: `right` or `down`.
    pub fn name(&self) -> (text: String)
        ensures
            text@ == self.spec_name(),
    {
        match self {
            Direction::Right => String::from_str("right"),
            Direction::Down => String::from_str("down"),
        }
    }
}

/// Whether the pane of a task is closed once the task has run.
#[derive(Debug, Clone, Copy, PartialEq, Eq, Structural)]
pub enum TaskClose {
    /// Close the pane whatever the outcome.
    Always,
    /// Close the pane only if the command reported success.
    OnSuccess,
    /// Leave the pane open.
    Never,
}

/// How a task is run: where its pane opens and when that pane is closed.
#[derive(Debug, Clone, Copy, PartialEq, Eq, Structural)]
pub struct TaskSettings {
    pub close: TaskClose,
    pub direction: Direction,
}

/// How a command ended: with an exit code, or without one when it was
/// terminated from outside.
#[derive(Debug, Clone, Copy, PartialEq, Eq, Structural)]
pub struct ExitStatus {
    code: Option<i32>,
}

impl ExitStatus {
    /// The exit code as a mathematical value, if the command exited with one.
    pub closed spec fn spec_code(&self) -> Option<i32> {
        self.code
    }

    /// A command succeeded exactly when it exited with code zero.
    pub open spec fn spec_success(&self) -> bool {
        self.spec_code() == Some(0i32)
    }

    /// The status of a command that exited with `code`.
    pub fn from_code(code: i32) -> (status: Self)
        ensures
            status.spec_code() == Some(code),
    {
        ExitStatus { code: Some(code) }
    }

    /// The status of a command that ended without an exit code.
    pub fn without_code() -> (status: Self)
        ensures
            status.spec_code() == None::<i32>,
    {
        ExitStatus { code: None }
    }

    /// The exit code, if the command exited with one.
    #[verifier::when_used_as_spec(spec_code)]
    pub fn code(&self) -> (code: Option<i32>)
        ensures
            code == self.spec_code(),
    {
        self.code
    }

    /// Whether the command exited with code zero.
    #[verifier::when_used_as_spec(spec_success)]
    pub fn success(&self) -> (ok: bool)
        ensures
            ok == self.spec_success(),
    {
        match self.code {
            Some(code) => code == 0,
            None => false,
        }
    }
}

/// The texts of a sequence of strings, one for one.
pub open spec fn texts(strings: Seq<String>) -> Seq<Seq<char>> {
    Seq::new(strings.len(), |i: int| strings[i]@)
}

/// What a [`Command`] is, as plain text.
pub struct CommandView {
    pub program: Seq<char>,
    pub args: Seq<Seq<char>>,
}

/// An invocable external process: the program and its arguments in order.
///
/// An empty `program` stands for a command that is not configured; it is
/// kept as it is and only fails where the process is started.
#[derive(Debug)]
pub struct Command {
    pub program: String,
    pub args: Vec<String>,
}

impl View for Command {
    type V = CommandView;

    open spec fn view(&self) -> CommandView {
        CommandView { program: self.program@, args: texts(self.args@) }
    }
}

impl Clone for Command {
    fn clone(&self) -> (copy: Self)
        ensures
            copy@ == self@,
    {
        let mut args: Vec<String> = Vec::new();
        let mut i: usize = 0;
        while i < self.args.len()
            invariant
                i <= self.args.len(),
                args.len() == i,
                forall|j: int| 0 <= j < i ==> args[j]@ == self.args[j]@,
            decreases self.args.len() - i,
        {
            args.push(self.args[i].clone());
            i += 1;
        }
        assert(texts(args@) =~= texts(self.args@));
        Command { program: self.program.clone(), args }
    }
}

/// What a [`Task`] is, as plain values.
pub struct TaskView {
    pub command: CommandView,
    pub settings: TaskSettings,
}

/// A command bound to the settings it is to be run with.
#[derive(Debug)]
pub struct Task {
    pub command: Command,
    pub settings: TaskSettings,
}

impl View for Task {
    type V = TaskView;

    open spec fn view(&self) -> TaskView {
        TaskView { command: self.command@, settings: self.settings }
    }
}

impl Clone for Task {
    fn clone(&self) -> (copy: Self)
        ensures
            copy@ == self@,
    {
        Task { command: self.command.clone(), settings: self.settings }
    }
}

impl Task {
    /// Binds `command` to `settings`.
    pub fn new(command: Command, settings: TaskSettings) -> (task: Self)
        ensures
            task.command == command,
            task.settings == settings,
    {
        Self { command, settings }
    }
}

/// The named commands of a project: each task name maps to one command.
///
/// Names are matched exactly and case-sensitively, and no name occurs
/// twice. Entries are kept in the order in which their names first came in.
/// They are kept as a list, so that what the configuration holds under a
/// name, as text, and the order of the names can both be stated and
/// proved; a configuration is small, and looking a name up walks the list.
#[derive(Debug)]
pub struct TaskConfig {
    entries: Vec<(String, Command)>,
}

/// Whether no two entries of the sequence carry the same name.
pub open spec fn names_distinct(entries: Seq<(String, Command)>) -> bool {
    forall|i: int, j: int|
        0 <= i < entries.len() && 0 <= j < entries.len() && i != j ==> entries[i].0@
            != entries[j].0@
}

/// Whether `name` is the name of the entry at position `i`.
pub open spec fn names_entry(entries: Seq<(String, Command)>, name: Seq<char>, i: int) -> bool {
    0 <= i < entries.len() && entries[i].0@ == name
}

impl View for TaskConfig {
    type V = Map<Seq<char>, CommandView>;

    closed spec fn view(&self) -> Map<Seq<char>, CommandView> {
        Map::new(
            |name: Seq<char>| exists|i: int| names_entry(self.entries@, name, i),
            |name: Seq<char>| self.entries@[choose|i: int| names_entry(self.entries@, name, i)].1@,
        )
    }
}

impl TaskConfig {
    #[verifier::type_invariant]
    spec fn names_are_distinct(&self) -> bool {
        names_distinct(self.entries@)
    }

    /// The names of the entries, in the order in which they are kept.
    pub closed spec fn names(&self) -> Seq<Seq<char>> {
        Seq::new(self.entries@.len(), |i: int| self.entries@[i].0@)
    }

    /// A configuration without entries.
    pub fn new() -> (config: Self)
        ensures
            config@ == Map::<Seq<char>, CommandView>::empty(),
            config.names() == Seq::<Seq<char>>::empty(),
    {
        let config = TaskConfig { entries: Vec::new() };
        assert(config@ =~= Map::<Seq<char>, CommandView>::empty());
        assert(config.names() =~= Seq::<Seq<char>>::empty());
        config
    }

    /// The position of the entry named `name`, if there is one.
    fn position(&self, name: &str) -> (found: Option<usize>)
        ensures
            match found {
                Some(i) => names_entry(self.entries@, name@, i as int),
                None => forall|i: int| !names_entry(self.entries@, name@, i),
            },
    {
        let wanted = name.to_owned();
        let mut i: usize = 0;
        while i < self.entries.len()
            invariant
                i <= self.entries.len(),
                wanted@ == name@,
                forall|j: int| 0 <= j < i ==> self.entries@[j].0@ != name@,
            decreases self.entries.len() - i,
        {
            if self.entries[i].0 == wanted {
                return Some(i);
            }
            i += 1;
        }
        None
    }

    /// The command configured under `name`, if there is one.
    pub fn get(&self, name: &str) -> (found: Option<&Command>)
        ensures
            match found {
                Some(command) => self@.contains_key(name@) && command@ == self@[name@],
                None => !self@.contains_key(name@),
            },
    {
        proof {
            use_type_invariant(self);
        }
        match self.position(name) {
            Some(i) => {
                proof {
                    let k = choose|k: int| names_entry(self.entries@, name@, k);
                    assert(k == i as int);
                }
                Some(&self.entries[i].1)
            },
            None => None,
        }
    }

    /// Whether a command is configured under `name`.
    pub fn contains_key(&self, name: &str) -> (found: bool)
        ensures
            found == self@.contains_key(name@),
    {
        self.position(name).is_some()
    }

    /// The names are pairwise distinct, and they are exactly the names
    /// under which a command is configured.
    proof fn lemma_names(&self)
        requires
            names_distinct(self.entries@),
        ensures
            self.names().no_duplicates(),
            self.names().to_set() == self@.dom(),
            self@.dom().finite(),
            self@.len() == self.names().len(),
            forall|i: int|
                0 <= i < self.entries@.len() ==> self@[#[trigger] self.entries@[i].0@]
                    == self.entries@[i].1@,
    {
        let names = self.names();
        assert(names.no_duplicates());
        assert forall|name: Seq<char>| names.to_set().contains(name) == self@.dom().contains(
            name,
        ) by {
            if names.to_set().contains(name) {
                let i = choose|i: int| 0 <= i < names.len() && names[i] == name;
                assert(names_entry(self.entries@, name, i));
            }
            if self@.dom().contains(name) {
                let i = choose|i: int| names_entry(self.entries@, name, i);
                assert(names[i] == name);
            }
        }
        assert(names.to_set() =~= self@.dom());
        names.unique_seq_to_set();
        assert forall|i: int| 0 <= i < self.entries@.len() implies self@[#[trigger] self.entries@[i].0@]
            == self.entries@[i].1@ by {
            let name = self.entries@[i].0@;
            assert(names_entry(self.entries@, name, i));
            let k = choose|k: int| names_entry(self.entries@, name, k);
            assert(k == i);
        }
    }

    /// Configures `command` under `name` and hands back the command that
    /// was configured under that name before, if there was one. A name that
    /// is new comes last in the order of the names; one that was there
    /// keeps its place.
    pub fn insert(&mut self, name: String, command: Command) -> (previous: Option<Command>)
        ensures
            final(self)@ == old(self)@.insert(name@, command@),
            match previous {
                Some(replaced) => old(self)@.contains_key(name@) && replaced@ == old(self)@[name@]
                    && final(self).names() == old(self).names(),
                None => !old(self)@.contains_key(name@) && final(self).names() == old(
                    self,
                ).names().push(name@),
            },
    {
        proof {
            use_type_invariant(&*self);
            self.lemma_names();
        }
        let ghost before = *self;
        let found = self.position(name.as_str());
        let mut entries: Vec<(String, Command)> = Vec::new();
        core::mem::swap(&mut self.entries, &mut entries);
        let previous = match found {
            Some(i) => {
                let replaced = entries[i].1.clone();
                entries.set(i, (name, command));
                Some(replaced)
            },
            None => {
                entries.push((name, command));
                None
            },
        };
        proof {
            assert(names_distinct(entries@)) by {
                assert forall|i: int, j: int|
                    0 <= i < entries@.len() && 0 <= j < entries@.len() && i != j implies entries@[i].0@
                    != entries@[j].0@ by {
                    if found is None {
                        if i < before.entries@.len() {
                            assert(!names_entry(before.entries@, name@, i));
                        }
                        if j < before.entries@.len() {
                            assert(!names_entry(before.entries@, name@, j));
                        }
                    }
                }
            }
        }
        core::mem::swap(&mut self.entries, &mut entries);
        proof {
            self.lemma_names();
            let at: int = match found {
                Some(i) => i as int,
                None => before.entries@.len() as int,
            };
            assert(names_entry(self.entries@, name@, at));
            assert forall|other: Seq<char>| other != name@ implies (self@.dom().contains(other)
                == before@.dom().contains(other)) && (self@.dom().contains(other) ==> self@[other]
                == before@[other]) by {
                if self@.dom().contains(other) {
                    let k = choose|k: int| names_entry(self.entries@, other, k);
                    assert(names_entry(before.entries@, other, k));
                    assert(before@[other] == before.entries@[k].1@);
                }
                if before@.dom().contains(other) {
                    let k = choose|k: int| names_entry(before.entries@, other, k);
                    assert(names_entry(self.entries@, other, k));
                    assert(self@[other] == self.entries@[k].1@);
                }
            }
            assert(self@ =~= before@.insert(name@, command@));
            if found is Some {
                assert(self.names() =~= before.names());
            } else {
                assert(self.names() =~= before.names().push(name@));
            }
        }
        previous
    }

    /// How many commands are configured.
    pub fn len(&self) -> (count: usize)
        ensures
            count == self@.len(),
            count == self.names().len(),
    {
        proof {
            use_type_invariant(self);
            self.lemma_names();
        }
        self.entries.len()
    }

    /// Whether no command is configured.
    pub fn is_empty(&self) -> (empty: bool)
        ensures
            empty == (self@.len() == 0),
    {
        proof {
            use_type_invariant(self);
            self.lemma_names();
        }
        self.entries.len() == 0
    }

    /// The name and the command of the entry at position `index`, in the
    /// order of the names.
    pub fn entry(&self, index: usize) -> (found: (&String, &Command))
        requires
            index < self.names().len(),
        ensures
            found.0@ == self.names()[index as int],
            self@.contains_key(found.0@),
            found.1@ == self@[found.0@],
    {
        proof {
            use_type_invariant(self);
            self.lemma_names();
            assert(names_entry(self.entries@, self.entries@[index as int].0@, index as int));
        }
        (&self.entries[index].0, &self.entries[index].1)
    }
}

} // verus!
