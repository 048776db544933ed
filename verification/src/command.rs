//! The command language: what a line of input asks for.
//!
//! The first word of a line names the verb, in any mix of upper and lower
//! case; the words after it are its arguments, taken as they stand.

use vstd::prelude::*;
use vstd::string::*;
use crate::text::{join_from, join_spaced, split_words, texts, to_upper, uppercase, words};

verus! {

/// The verbs of the command language.
#[derive(Clone, Copy, PartialEq, Eq, Debug, Structural)]
pub enum Verb {
    /// `SET`: bind a key to a value.
    Put,
    Get,
    Remove,
    Keys,
    Values,
    List,
    Len,
    Clear,
    Help,
    Exit,
}

/// One parsed line.
#[derive(PartialEq, Eq, Debug)]
pub enum Command {
    /// The line holds no word.
    Blank,
    /// `SET`: bind `key` to `value`.
    Put { key: String, value: String },
    Get { key: String },
    Remove { key: String },
    Keys,
    Values,
    List,
    Len,
    Clear,
    Help,
    Exit,
    /// The line names `verb` with too few words after it.
    Usage { verb: Verb },
    /// The first word, given as written, names no verb.
    Unknown { word: String },
}

/// A `Command` with each string taken as its text.
pub enum CommandView {
    Blank,
    Put { key: Seq<char>, value: Seq<char> },
    Get { key: Seq<char> },
    Remove { key: Seq<char> },
    Keys,
    Values,
    List,
    Len,
    Clear,
    Help,
    Exit,
    Usage { verb: Verb },
    Unknown { word: Seq<char> },
}

impl View for Command {
    type V = CommandView;

    open spec fn view(&self) -> CommandView {
        match *self {
            Command::Blank => CommandView::Blank,
            Command::Put { key, value } => CommandView::Put { key: key@, value: value@ },
            Command::Get { key } => CommandView::Get { key: key@ },
            Command::Remove { key } => CommandView::Remove { key: key@ },
            Command::Keys => CommandView::Keys,
            Command::Values => CommandView::Values,
            Command::List => CommandView::List,
            Command::Len => CommandView::Len,
            Command::Clear => CommandView::Clear,
            Command::Help => CommandView::Help,
            Command::Exit => CommandView::Exit,
            Command::Usage { verb } => CommandView::Usage { verb },
            Command::Unknown { word } => CommandView::Unknown { word: word@ },
        }
    }
}

/// The verb that an upper-cased first word names, if any.
pub open spec fn verb_of(upper: Seq<char>) -> Option<Verb> {
    if upper == "SET"@ {
        Some(Verb::Put)
    } else if upper == "GET"@ {
        Some(Verb::Get)
    } else if upper == "REMOVE"@ {
        Some(Verb::Remove)
    } else if upper == "KEYS"@ {
        Some(Verb::Keys)
    } else if upper == "VALUES"@ {
        Some(Verb::Values)
    } else if upper == "LIST"@ {
        Some(Verb::List)
    } else if upper == "LEN"@ {
        Some(Verb::Len)
    } else if upper == "CLEAR"@ {
        Some(Verb::Clear)
    } else if upper == "HELP"@ {
        Some(Verb::Help)
    } else if upper == "EXIT"@ {
        Some(Verb::Exit)
    } else {
        None
    }
}

/// The least number of words, the verb included, that a line with `verb`
/// must hold.
pub open spec fn min_words(verb: Verb) -> nat {
    match verb {
        Verb::Put => 3,
        Verb::Get => 2,
        Verb::Remove => 2,
        _ => 1,
    }
}

/// The command that the words of a line make, given the verb that the first
/// of them names.
pub open spec fn command_of(verb: Option<Verb>, words: Seq<Seq<char>>) -> CommandView {
    if words.len() == 0 {
        CommandView::Blank
    } else {
        match verb {
            None => CommandView::Unknown { word: words[0] },
            Some(v) => if words.len() < min_words(v) {
                CommandView::Usage { verb: v }
            } else {
                match v {
                    Verb::Put => CommandView::Put {
                        key: words[1],
                        value: join_spaced(words.skip(2)),
                    },
                    Verb::Get => CommandView::Get { key: words[1] },
                    Verb::Remove => CommandView::Remove { key: words[1] },
                    Verb::Keys => CommandView::Keys,
                    Verb::Values => CommandView::Values,
                    Verb::List => CommandView::List,
                    Verb::Len => CommandView::Len,
                    Verb::Clear => CommandView::Clear,
                    Verb::Help => CommandView::Help,
                    Verb::Exit => CommandView::Exit,
                }
            },
        }
    }
}

/// The command that a line of input stands for.
pub open spec fn parse(line: Seq<char>) -> CommandView {
    let w = words(line);
    if w.len() == 0 {
        CommandView::Blank
    } else {
        command_of(verb_of(uppercase(w[0])), w)
    }
}

/// Whether `s` holds exactly the text `word`.
fn reads(s: &String, word: &str) -> (same: bool)
    ensures
        same == (s@ == word@),
{
    let other = String::from_str(word);
    *s == other
}

/// Finds the verb that an upper-cased word names.
pub fn recognize(upper: &String) -> (verb: Option<Verb>)
    ensures
        verb == verb_of(upper@),
{
    if reads(upper, "SET") {
        Some(Verb::Put)
    } else if reads(upper, "GET") {
        Some(Verb::Get)
    } else if reads(upper, "REMOVE") {
        Some(Verb::Remove)
    } else if reads(upper, "KEYS") {
        Some(Verb::Keys)
    } else if reads(upper, "VALUES") {
        Some(Verb::Values)
    } else if reads(upper, "LIST") {
        Some(Verb::List)
    } else if reads(upper, "LEN") {
        Some(Verb::Len)
    } else if reads(upper, "CLEAR") {
        Some(Verb::Clear)
    } else if reads(upper, "HELP") {
        Some(Verb::Help)
    } else if reads(upper, "EXIT") {
        Some(Verb::Exit)
    } else {
        None
    }
}

/// Builds the command from the words of a line and the verb that the first
/// word was found to name.
pub fn assemble(verb: Option<Verb>, words: &Vec<String>) -> (cmd: Command)
    ensures
        cmd@ == command_of(verb, texts(words@)),
{
    let n = words.len();
    if n == 0 {
        return Command::Blank;
    }
    match verb {
        None => Command::Unknown { word: words[0].clone() },
        Some(Verb::Put) => {
            if n < 3 {
                Command::Usage { verb: Verb::Put }
            } else {
                Command::Put { key: words[1].clone(), value: join_from(words, 2) }
            }
        },
        Some(Verb::Get) => {
            if n < 2 {
                Command::Usage { verb: Verb::Get }
            } else {
                Command::Get { key: words[1].clone() }
            }
        },
        Some(Verb::Remove) => {
            if n < 2 {
                Command::Usage { verb: Verb::Remove }
            } else {
                Command::Remove { key: words[1].clone() }
            }
        },
        Some(Verb::Keys) => Command::Keys,
        Some(Verb::Values) => Command::Values,
        Some(Verb::List) => Command::List,
        Some(Verb::Len) => Command::Len,
        Some(Verb::Clear) => Command::Clear,
        Some(Verb::Help) => Command::Help,
        Some(Verb::Exit) => Command::Exit,
    }
}

/// Parses one line of input.
pub fn parse_command(line: &str) -> (cmd: Command)
    ensures
        cmd@ == parse(line@),
{
    let words = split_words(line);
    if words.len() == 0 {
        Command::Blank
    } else {
        let upper = to_upper(words[0].as_str());
        let verb = recognize(&upper);
        assemble(verb, &words)
    }
}

} // verus!
