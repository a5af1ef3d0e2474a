//! Reading the tasks of a project out of a TOML document.
//!
//! The document is parsed by the `toml` crate and walked through the
//! crate's own accessors. Nothing in this file says what the crate finds
//! in a text: what each of its functions returns has a name here, and the
//! contracts say over those names which of the values found are read, and
//! as what. What was read is handed on as plain values, one [`RawTask`]
//! for each entry of the document.

use crate::domain::models::texts;
use crate::errors::ConfigError;
use vstd::prelude::*;
use vstd::std_specs::convert::FromSpecImpl;

verus! {

/// A value of a TOML document, kept as the `toml` crate made it.
#[verifier::external_type_specification]
#[verifier::external_body]
pub struct ExTomlValue(toml::Value);

/// The map type of the `toml` crate; a TOML table is such a map from
/// strings to values.
#[verifier::external_type_specification]
#[verifier::external_body]
#[verifier::reject_recursive_types(K)]
#[verifier::reject_recursive_types(V)]
pub struct ExTomlMap<K, V>(toml::map::Map<K, V>);

/// The error with which the `toml` crate refuses a text.
#[verifier::external_type_specification]
#[verifier::external_body]
pub struct ExTomlError(toml::de::Error);

/// What `toml::from_str` makes of `text` as a table: the document, or the
/// error with which the text is refused.
pub uninterp spec fn toml_document(text: Seq<char>) -> Result<toml::Table, toml::de::Error>;

/// The keys of `table`, in the order in which `toml::map::Map::keys` walks
/// them.
pub uninterp spec fn table_key_names(table: toml::Table) -> Seq<Seq<char>>;

/// What `toml::map::Map::get` finds in `table` under `key`.
pub uninterp spec fn table_value(table: toml::Table, key: Seq<char>) -> Option<toml::Value>;

/// What `toml::Value::as_table` makes of `value`.
pub uninterp spec fn value_table(value: toml::Value) -> Option<toml::Table>;

/// What `toml::Value::as_array` makes of `value`.
pub uninterp spec fn value_items(value: toml::Value) -> Option<Seq<toml::Value>>;

/// What `toml::Value::as_str` makes of `value`.
pub uninterp spec fn value_text(value: toml::Value) -> Option<Seq<char>>;

/// What `error` reads as when it is displayed, as the `Display` of
/// `toml::de::Error` renders it.
pub uninterp spec fn toml_error_text(error: toml::de::Error) -> Seq<char>;

/// Parses `text` as a TOML document with `toml::from_str`. The outcome
/// depends on the text alone; nothing else is claimed of it.
#[verifier::external_body]
fn parse_document(text: &str) -> (parsed: Result<toml::Table, toml::de::Error>)
    ensures
        parsed == toml_document(text@),
{
    toml::from_str::<toml::Table>(text)
}

/// The keys of `table`, each copied, in the order in which
/// `toml::map::Map::keys` walks them. The table is a map, so no key comes
/// twice and `toml::map::Map::get` finds a value under each of them.
/// Nothing else is claimed of them; in particular nothing of their order.
#[verifier::external_body]
fn table_keys(table: &toml::Table) -> (keys: Vec<String>)
    ensures
        texts(keys@) == table_key_names(*table),
        texts(keys@).no_duplicates(),
        forall|i: int| 0 <= i < keys.len() ==> table_value(*table, #[trigger] keys@[i]@) is Some,
{
    table.keys().cloned().collect()
}

/// The value that `table` holds under `key`, as `toml::map::Map::get`
/// gives it. Nothing else is claimed of it.
#[verifier::external_body]
fn table_get<'a>(table: &'a toml::Table, key: &str) -> (found: Option<&'a toml::Value>)
    ensures
        match found {
            Some(value) => table_value(*table, key@) == Some(*value),
            None => table_value(*table, key@) is None,
        },
{
    table.get(key)
}

/// `value` as a table, as `toml::Value::as_table` gives it. Nothing else
/// is claimed of it.
#[verifier::external_body]
fn value_as_table(value: &toml::Value) -> (found: Option<&toml::Table>)
    ensures
        match found {
            Some(table) => value_table(*value) == Some(*table),
            None => value_table(*value) is None,
        },
{
    value.as_table()
}

/// `value` as an array, as `toml::Value::as_array` gives it. Nothing else
/// is claimed of it.
#[verifier::external_body]
fn value_as_array(value: &toml::Value) -> (found: Option<&Vec<toml::Value>>)
    ensures
        match found {
            Some(items) => value_items(*value) == Some(items@),
            None => value_items(*value) is None,
        },
{
    value.as_array()
}

/// `value` as a string, as `toml::Value::as_str` gives it. Nothing else is
/// claimed of it.
#[verifier::external_body]
fn value_as_str(value: &toml::Value) -> (found: Option<&str>)
    ensures
        match found {
            Some(text) => value_text(*value) == Some(text@),
            None => value_text(*value) is None,
        },
{
    value.as_str()
}

/// What `error` reads as when it is displayed, through the `to_string`
/// that the `Display` of `toml::de::Error` gives it: the message of the
/// parser and, where it is known, the place in the text. Nothing else is
/// claimed of it.
#[verifier::external_body]
fn error_message(error: &toml::de::Error) -> (message: String)
    ensures
        message@ == toml_error_text(*error),
{
    error.to_string()
}

impl From<toml::de::Error> for ConfigError {
    /// A text that is no TOML is a parse error; its detail is what the
    /// error of the parser reads as.
    fn from(err: toml::de::Error) -> (out: ConfigError)
        ensures
            out matches ConfigError::Parse(detail) && detail@ == toml_error_text(err),
    {
        ConfigError::Parse(error_message(&err))
    }
}

impl FromSpecImpl<toml::de::Error> for ConfigError {
    open spec fn obeys_from_spec() -> bool {
        false
    }

    open spec fn from_spec(err: toml::de::Error) -> ConfigError {
        ConfigError::Parse(choose|detail: String| detail@ == toml_error_text(err))
    }
}

/// What a [`RawTask`] is, as plain text.
pub struct RawTaskView {
    pub name: Seq<char>,
    pub program: Option<Seq<char>>,
    pub args: Option<Seq<Seq<char>>>,
}

/// One entry of a document, as far as it reads as a task: its name, the
/// program if the entry is a table whose `program` is a string, and the
/// arguments if the entry is a table whose `args` is an array of strings.
#[derive(Debug)]
pub struct RawTask {
    pub name: String,
    pub program: Option<String>,
    pub args: Option<Vec<String>>,
}

impl View for RawTask {
    type V = RawTaskView;

    open spec fn view(&self) -> RawTaskView {
        RawTaskView {
            name: self.name@,
            program: match self.program {
                Some(program) => Some(program@),
                None => None,
            },
            args: match self.args {
                Some(args) => Some(texts(args@)),
                None => None,
            },
        }
    }
}

/// The texts of `items`, if every one of them is a string.
pub open spec fn texts_of(items: Seq<toml::Value>) -> Option<Seq<Seq<char>>> {
    if forall|i: int| 0 <= i < items.len() ==> (#[trigger] value_text(items[i])) is Some {
        Some(Seq::new(items.len(), |i: int| value_text(items[i])->0))
    } else {
        None
    }
}

/// The string that `table` holds under `key`, if it holds one.
pub open spec fn text_under(table: toml::Table, key: Seq<char>) -> Option<Seq<char>> {
    match table_value(table, key) {
        Some(value) => value_text(value),
        None => None,
    }
}

/// The array of strings that `table` holds under `key`, if it holds one.
pub open spec fn text_array_under(table: toml::Table, key: Seq<char>) -> Option<Seq<Seq<char>>> {
    match table_value(table, key) {
        Some(value) => match value_items(value) {
            Some(items) => texts_of(items),
            None => None,
        },
        None => None,
    }
}

/// The entry `name` of `document`, as far as it reads as a task: if the
/// entry is a table, its string `program` and its array of strings `args`,
/// each if it is there.
pub open spec fn raw_task_of(document: toml::Table, name: Seq<char>) -> RawTaskView {
    match table_value(document, name) {
        Some(value) => match value_table(value) {
            Some(table) => RawTaskView {
                name,
                program: text_under(table, "program"@),
                args: text_array_under(table, "args"@),
            },
            None => RawTaskView { name, program: None, args: None },
        },
        None => RawTaskView { name, program: None, args: None },
    }
}

/// The entries of `document`, each as far as it reads as a task, in the
/// order of the keys of the document.
pub open spec fn raw_tasks_of(document: toml::Table) -> Seq<RawTaskView> {
    Seq::new(
        table_key_names(document).len(),
        |i: int| raw_task_of(document, table_key_names(document)[i]),
    )
}

/// Whether `document` keeps its keys as a map does: no key comes twice,
/// and there is a value under each of them.
pub open spec fn keys_are_sound(document: toml::Table) -> bool {
    &&& table_key_names(document).no_duplicates()
    &&& forall|i: int|
        0 <= i < table_key_names(document).len() ==> table_value(
            document,
            #[trigger] table_key_names(document)[i],
        ) is Some
}

/// The views of the entries `tasks`, one for one.
pub open spec fn raw_views(tasks: Seq<RawTask>) -> Seq<RawTaskView> {
    Seq::new(tasks.len(), |i: int| tasks[i]@)
}

/// The strings of `items`, if every one of them is a string.
fn read_texts(items: &Vec<toml::Value>) -> (found: Option<Vec<String>>)
    ensures
        match found {
            Some(strings) => texts_of(items@) == Some(texts(strings@)),
            None => texts_of(items@) is None,
        },
{
    let mut strings: Vec<String> = Vec::new();
    let mut i: usize = 0;
    while i < items.len()
        invariant
            i <= items.len(),
            strings.len() == i,
            forall|j: int| 0 <= j < i ==> value_text(#[trigger] items@[j]) == Some(strings@[j]@),
        decreases items.len() - i,
    {
        match value_as_str(&items[i]) {
            Some(text) => strings.push(text.to_owned()),
            None => {
                assert(!((#[trigger] value_text(items@[i as int])) is Some));
                return None;
            },
        }
        i += 1;
    }
    assert(texts_of(items@)->0 =~= texts(strings@));
    Some(strings)
}

/// The string that `table` holds under `key`, if it holds one.
fn read_text(table: &toml::Table, key: &str) -> (found: Option<String>)
    ensures
        match found {
            Some(text) => text_under(*table, key@) == Some(text@),
            None => text_under(*table, key@) is None,
        },
{
    match table_get(table, key) {
        Some(value) => match value_as_str(value) {
            Some(text) => Some(text.to_owned()),
            None => None,
        },
        None => None,
    }
}

/// The array of strings that `table` holds under `key`, if it holds one.
fn read_text_array(table: &toml::Table, key: &str) -> (found: Option<Vec<String>>)
    ensures
        match found {
            Some(strings) => text_array_under(*table, key@) == Some(texts(strings@)),
            None => text_array_under(*table, key@) is None,
        },
{
    match table_get(table, key) {
        Some(value) => match value_as_array(value) {
            Some(items) => read_texts(items),
            None => None,
        },
        None => None,
    }
}

/// The entry `name` of `document`, as far as it reads as a task.
fn read_task(document: &toml::Table, name: String) -> (task: RawTask)
    ensures
        task@ == raw_task_of(*document, name@),
{
    let table = match table_get(document, name.as_str()) {
        Some(value) => value_as_table(value),
        None => None,
    };
    match table {
        Some(table) => {
            let program = read_text(table, "program");
            let args = read_text_array(table, "args");
            RawTask { name, program, args }
        },
        None => RawTask { name, program: None, args: None },
    }
}

/// Parses `text` as a TOML document and reads each of its entries as a
/// task, in the order in which the document keeps its keys. A text that
/// is no TOML gives a parse error with what the error of the parser reads
/// as.
pub fn read_tasks(text: &str) -> (result: Result<Vec<RawTask>, ConfigError>)
    ensures
        match result {
            Ok(tasks) => {
                &&& toml_document(text@) matches Ok(document)
                &&& raw_views(tasks@) == raw_tasks_of(document)
                &&& keys_are_sound(document)
            },
            Err(error) => {
                &&& toml_document(text@) matches Err(refusal)
                &&& error matches ConfigError::Parse(detail)
                &&& detail@ == toml_error_text(refusal)
            },
        },
{
    let document = match parse_document(text) {
        Ok(document) => document,
        Err(error) => {
            return Err(ConfigError::from(error));
        },
    };
    let names = table_keys(&document);
    assert(keys_are_sound(document)) by {
        assert forall|i: int| 0 <= i < table_key_names(document).len() implies table_value(
            document,
            #[trigger] table_key_names(document)[i],
        ) is Some by {
            assert(texts(names@)[i] == names@[i]@);
        }
    }
    let mut tasks: Vec<RawTask> = Vec::new();
    let mut i: usize = 0;
    while i < names.len()
        invariant
            i <= names.len(),
            tasks.len() == i,
            texts(names@) == table_key_names(document),
            forall|j: int| 0 <= j < i ==> (#[trigger] tasks@[j])@ == raw_task_of(document, names@[j]@),
        decreases names.len() - i,
    {
        let name = names[i].clone();
        tasks.push(read_task(&document, name));
        i += 1;
    }
    assert(raw_views(tasks@) =~= raw_tasks_of(document)) by {
        assert forall|j: int| 0 <= j < tasks@.len() implies raw_views(tasks@)[j] == raw_tasks_of(
            document,
        )[j] by {
            assert(texts(names@)[j] == names@[j]@);
        }
    }
    Ok(tasks)
}

} // verus!
