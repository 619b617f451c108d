//! The commands of the interactive session: a command word and its
//! arguments, turned into a request.

use crate::change::{CharacterChangeBody, ChangeView};
use crate::column::{column_of, Column};
use crate::error::Error;
use crate::handlers::{everything, AddView, CharacterAddBody};
use crate::text::same_text;
use vstd::prelude::*;
use vstd::string::*;

verus! {

/// The command that a command word stands for.
#[derive(Clone, Copy, Debug, PartialEq, Eq, Structural)]
pub enum Command {
    Add,
    Read,
    Change,
    Quit,
    /// The word is no command.
    Unknown,
}

/// The request that a command line makes of the store.
#[derive(Debug, PartialEq, Eq)]
pub enum Task {
    /// Add the record that the five texts describe.
    Add(CharacterAddBody),
    /// Read the record of this name, or every record for the word "all".
    Read(String),
    /// Change one field of a record.
    Change(CharacterChangeBody),
}

/// A request of a command line, as plain values.
pub enum TaskView {
    Add(AddView),
    Read(Seq<char>),
    Change(ChangeView),
}

impl View for Task {
    type V = TaskView;

    open spec fn view(&self) -> TaskView {
        match self {
            Task::Add(body) => TaskView::Add(body@),
            Task::Read(argument) => TaskView::Read(argument@),
            Task::Change(body) => TaskView::Change(body@),
        }
    }
}

/// The texts of a list, as plain values, in the order of the list.
pub open spec fn texts_view(texts: Seq<String>) -> Seq<Seq<char>> {
    texts.map_values(|text: String| text@)
}

/// The texts of a list written one after the other, with the separator
/// between each two of them.
pub open spec fn joined(parts: Seq<Seq<char>>, separator: Seq<char>) -> Seq<char>
    decreases parts.len(),
{
    if parts.len() == 0 {
        Seq::empty()
    } else if parts.len() == 1 {
        parts[0]
    } else {
        joined(parts.drop_last(), separator) + separator + parts.last()
    }
}

/// The command that a word stands for. The four command words are written
/// in lower case, and only so.
pub open spec fn command_of(word: Seq<char>) -> Command {
    if word == "add"@ {
        Command::Add
    } else if word == "read"@ {
        Command::Read
    } else if word == "change"@ {
        Command::Change
    } else if word == "quit"@ {
        Command::Quit
    } else {
        Command::Unknown
    }
}

/// The request to add a record that the arguments make: name, season, day
/// and bachelor status are one argument each, in this order, and the gift is
/// all that follows, joined by single blanks. Fewer than five arguments make
/// no request.
pub open spec fn add_task(arguments: Seq<Seq<char>>) -> Result<TaskView, Error> {
    if arguments.len() < 5 {
        Err(Error::Usage)
    } else {
        Ok(
            TaskView::Add(
                AddView {
                    name: arguments[0],
                    birthday_season: arguments[1],
                    birthday_day: arguments[2],
                    is_bachelor: arguments[3],
                    best_gift: joined(arguments.subrange(4, arguments.len() as int), " "@),
                },
            ),
        )
    }
}

/// The read request that the arguments make: every record where the first
/// argument is the word "all", else the record whose name is the arguments
/// written one after the other. No argument makes no request.
pub open spec fn read_task(arguments: Seq<Seq<char>>) -> Result<TaskView, Error> {
    if arguments.len() == 0 {
        Err(Error::Usage)
    } else if arguments[0] == everything() {
        Ok(TaskView::Read(everything()))
    } else {
        Ok(TaskView::Read(joined(arguments, Seq::empty())))
    }
}

/// The new text that the arguments give for a field: for the name and the
/// gift all arguments from the third on, joined by single blanks; for the
/// other fields the third argument alone.
pub open spec fn new_text(column: Column, arguments: Seq<Seq<char>>) -> Seq<char> {
    match column {
        Column::Name | Column::BestGift => joined(
            arguments.subrange(2, arguments.len() as int),
            " "@,
        ),
        _ => arguments[2],
    }
}

/// The request with the one slot of `column` populated by `text`.
pub open spec fn single_change(name: Seq<char>, column: Column, text: Seq<char>) -> ChangeView {
    let slot = |of: Column|
        if of == column {
            Some(text)
        } else {
            None
        };
    ChangeView {
        name,
        change_name: slot(Column::Name),
        change_birthday_season: slot(Column::BirthdaySeason),
        change_birthday_day: slot(Column::BirthdayDay),
        change_is_bachelor: slot(Column::IsBachelor),
        change_best_gift: slot(Column::BestGift),
    }
}

/// The change request that the arguments make: the name of the record, the
/// name of the field in any letter case, then the new text. Fewer than three
/// arguments make no request, nor does a field name that names no field.
pub open spec fn change_task(arguments: Seq<Seq<char>>) -> Result<TaskView, Error> {
    if arguments.len() < 3 {
        Err(Error::Usage)
    } else {
        match column_of(arguments[1]) {
            None => Err(Error::UnknownField),
            Some(column) => Ok(
                TaskView::Change(
                    single_change(arguments[0], column, new_text(column, arguments)),
                ),
            ),
        }
    }
}

/// What a command line asks for: nothing of the store for `quit` and for a
/// word that is no command, else the request of its arguments or the reason
/// why they make none.
pub open spec fn task_of(command: Command, arguments: Seq<Seq<char>>) -> Option<
    Result<TaskView, Error>,
> {
    match command {
        Command::Add => Some(add_task(arguments)),
        Command::Read => Some(read_task(arguments)),
        Command::Change => Some(change_task(arguments)),
        Command::Quit => None,
        Command::Unknown => None,
    }
}

/// Joins the texts of a list from the place `from` on, with the separator
/// between each two of them.
fn join(parts: &Vec<String>, from: usize, separator: &str) -> (text: String)
    requires
        from <= parts.len(),
    ensures
        text@ == joined(texts_view(parts@).subrange(from as int, parts.len() as int), separator@),
{
    let ghost all = texts_view(parts@);
    let mut text = String::new();
    let mut i: usize = from;
    assert(all.subrange(from as int, from as int).len() == 0);
    while i < parts.len()
        invariant
            from <= i <= parts.len(),
            all == texts_view(parts@),
            text@ == joined(all.subrange(from as int, i as int), separator@),
        decreases parts.len() - i,
    {
        let ghost before = all.subrange(from as int, i as int);
        let ghost now = all.subrange(from as int, i + 1);
        assert(now.drop_last() =~= before);
        assert(now.last() == parts[i as int]@);
        if i > from {
            text.append(separator);
        } else {
            assert(text@ + parts[i as int]@ =~= parts[i as int]@);
            assert(now[0] == parts[i as int]@);
        }
        text.append(parts[i].as_str());
        i = i + 1;
    }
    text
}

/// Reads a command word.
pub fn recognize(word: &str) -> (command: Command)
    ensures
        command == command_of(word@),
{
    if same_text(word, "add") {
        Command::Add
    } else if same_text(word, "read") {
        Command::Read
    } else if same_text(word, "change") {
        Command::Change
    } else if same_text(word, "quit") {
        Command::Quit
    } else {
        Command::Unknown
    }
}

/// The request to add a record that the arguments of `add` make.
fn add_arguments(arguments: &Vec<String>) -> (task: Result<Task, Error>)
    ensures
        match task {
            Ok(t) => add_task(texts_view(arguments@)) == Ok::<TaskView, Error>(t@),
            Err(e) => add_task(texts_view(arguments@)) == Err::<TaskView, Error>(e),
        },
{
    if arguments.len() < 5 {
        return Err(Error::Usage);
    }
    Ok(
        Task::Add(
            CharacterAddBody {
                name: arguments[0].clone(),
                birthday_season: arguments[1].clone(),
                birthday_day: arguments[2].clone(),
                is_bachelor: arguments[3].clone(),
                best_gift: join(arguments, 4, " "),
            },
        ),
    )
}

/// The read request that the arguments of `read` make.
fn read_arguments(arguments: &Vec<String>) -> (task: Result<Task, Error>)
    ensures
        match task {
            Ok(t) => read_task(texts_view(arguments@)) == Ok::<TaskView, Error>(t@),
            Err(e) => read_task(texts_view(arguments@)) == Err::<TaskView, Error>(e),
        },
{
    if arguments.len() == 0 {
        return Err(Error::Usage);
    }
    if same_text(arguments[0].as_str(), "all") {
        Ok(Task::Read("all".to_owned()))
    } else {
        let name = join(arguments, 0, "");
        proof {
            reveal_strlit("");
            let all = texts_view(arguments@);
            assert(all.subrange(0, arguments.len() as int) =~= all);
            assert(""@ =~= Seq::<char>::empty());
        }
        Ok(Task::Read(name))
    }
}

/// The change request that the arguments of `change` make.
fn change_arguments(arguments: &Vec<String>) -> (task: Result<Task, Error>)
    ensures
        match task {
            Ok(t) => change_task(texts_view(arguments@)) == Ok::<TaskView, Error>(t@),
            Err(e) => change_task(texts_view(arguments@)) == Err::<TaskView, Error>(e),
        },
{
    if arguments.len() < 3 {
        return Err(Error::Usage);
    }
    let column = match Column::from_text(arguments[1].as_str()) {
        Ok(column) => column,
        Err(_) => {
            return Err(Error::UnknownField);
        },
    };
    let text = match column {
        Column::Name | Column::BestGift => join(arguments, 2, " "),
        _ => arguments[2].clone(),
    };
    let mut body = CharacterChangeBody {
        name: arguments[0].clone(),
        change_name: None,
        change_birthday_season: None,
        change_birthday_day: None,
        change_is_bachelor: None,
        change_best_gift: None,
    };
    match column {
        Column::Name => {
            body.change_name = Some(text);
        },
        Column::BirthdaySeason => {
            body.change_birthday_season = Some(text);
        },
        Column::BirthdayDay => {
            body.change_birthday_day = Some(text);
        },
        Column::IsBachelor => {
            body.change_is_bachelor = Some(text);
        },
        Column::BestGift => {
            body.change_best_gift = Some(text);
        },
    }
    Ok(Task::Change(body))
}

/// Reads a command line: the command that its first word stands for, and
/// the request that its arguments make.
///
/// `quit` and a word that is no command ask nothing of the store. For the
/// three other commands the arguments give the request, or the reason why
/// they give none: too few of them, or the name of a field that does not
/// exist. The command is reported in either case.
pub fn execute_command(command: &str, arguments: &Vec<String>) -> (result: (
    Command,
    Option<Result<Task, Error>>,
))
    ensures
        result.0 == command_of(command@),
        match result.1 {
            None => task_of(result.0, texts_view(arguments@)) is None,
            Some(Ok(task)) => task_of(result.0, texts_view(arguments@)) == Some(
                Ok::<TaskView, Error>(task@),
            ),
            Some(Err(e)) => task_of(result.0, texts_view(arguments@)) == Some(
                Err::<TaskView, Error>(e),
            ),
        },
{
    let recognized = recognize(command);
    let task = match recognized {
        Command::Add => Some(add_arguments(arguments)),
        Command::Read => Some(read_arguments(arguments)),
        Command::Change => Some(change_arguments(arguments)),
        Command::Quit => None,
        Command::Unknown => None,
    };
    (recognized, task)
}

/// A change request made on the command line populates one slot, so the
/// change it resolves to is for the field that the line names.
pub proof fn lemma_command_line_names_one_field(name: Seq<char>, column: Column, text: Seq<char>)
    ensures
        single_change(name, column, text).populated() == 1,
        single_change(name, column, text).first_populated() == Some((column, text)),
        single_change(name, column, text).resolution() == crate::change::validated(column, text),
{
}

} // verus!
