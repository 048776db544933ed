//! Running commands against a store.
//!
//! A session is either running or stopped. Each line of input is parsed and
//! carried out; what comes back is a [`Reply`] to show, and whether the
//! session goes on. Only the exit command stops it.

use vstd::prelude::*;
use crate::command::{parse, parse_command, Command, CommandView, Verb};
use crate::store::Store;
use crate::text::{text_pairs, texts};

verus! {

/// What to report after a command.
#[derive(PartialEq, Eq, Debug)]
pub enum Reply {
    /// Nothing to report: the line was blank.
    Nothing,
    /// `key` is now bound to `value`.
    Stored { key: String, value: String },
    /// `key` is bound to `value`.
    Found { key: String, value: String },
    /// `key` is not bound.
    Missing { key: String },
    /// `key` was bound and is no longer.
    Removed { key: String },
    /// Every key; empty where the store is.
    Keys { keys: Vec<String> },
    /// Every value; empty where the store is.
    Values { values: Vec<String> },
    /// Every entry, key first; empty where the store is.
    Entries { entries: Vec<(String, String)> },
    /// The number of entries.
    Count { count: usize },
    /// The store was emptied.
    Cleared,
    /// The list of commands was asked for.
    Help,
    /// The session ends.
    Farewell,
    /// `verb` was given too few words; its syntax is to be shown.
    Usage { verb: Verb },
    /// `word`, as written, is no command.
    Unknown { word: String },
}

/// A `Reply` with each string taken as its text.
pub enum ReplyView {
    Nothing,
    Stored { key: Seq<char>, value: Seq<char> },
    Found { key: Seq<char>, value: Seq<char> },
    Missing { key: Seq<char> },
    Removed { key: Seq<char> },
    Keys { keys: Seq<Seq<char>> },
    Values { values: Seq<Seq<char>> },
    Entries { entries: Seq<(Seq<char>, Seq<char>)> },
    Count { count: nat },
    Cleared,
    Help,
    Farewell,
    Usage { verb: Verb },
    Unknown { word: Seq<char> },
}

impl View for Reply {
    type V = ReplyView;

    open spec fn view(&self) -> ReplyView {
        match *self {
            Reply::Nothing => ReplyView::Nothing,
            Reply::Stored { key, value } => ReplyView::Stored { key: key@, value: value@ },
            Reply::Found { key, value } => ReplyView::Found { key: key@, value: value@ },
            Reply::Missing { key } => ReplyView::Missing { key: key@ },
            Reply::Removed { key } => ReplyView::Removed { key: key@ },
            Reply::Keys { keys } => ReplyView::Keys { keys: texts(keys@) },
            Reply::Values { values } => ReplyView::Values { values: texts(values@) },
            Reply::Entries { entries } => ReplyView::Entries { entries: text_pairs(entries@) },
            Reply::Count { count } => ReplyView::Count { count: count as nat },
            Reply::Cleared => ReplyView::Cleared,
            Reply::Help => ReplyView::Help,
            Reply::Farewell => ReplyView::Farewell,
            Reply::Usage { verb } => ReplyView::Usage { verb },
            Reply::Unknown { word } => ReplyView::Unknown { word: word@ },
        }
    }
}

/// What a command and the reply to it leave behind.
pub struct Outcome {
    /// What to report.
    pub reply: Reply,
    /// Whether the session is still running.
    pub running: bool,
}

/// The contents of a store after a command.
pub open spec fn contents_after(contents: Map<Seq<char>, Seq<char>>, cmd: CommandView) -> Map<
    Seq<char>,
    Seq<char>,
> {
    match cmd {
        CommandView::Put { key, value } => contents.insert(key, value),
        CommandView::Remove { key } => contents.remove(key),
        CommandView::Clear => Map::empty(),
        _ => contents,
    }
}

/// The key order of a store after a command.
pub open spec fn order_after(store: Store, cmd: CommandView) -> Seq<Seq<char>> {
    match cmd {
        CommandView::Put { key, value } => if store@.contains_key(key) {
            store.key_order()
        } else {
            store.key_order().push(key)
        },
        CommandView::Remove { key } => store.key_order().remove_value(key),
        CommandView::Clear => Seq::empty(),
        _ => store.key_order(),
    }
}

/// The reply that a command gets from a store.
pub open spec fn reply_to(store: Store, cmd: CommandView) -> ReplyView {
    match cmd {
        CommandView::Blank => ReplyView::Nothing,
        CommandView::Put { key, value } => ReplyView::Stored { key, value },
        CommandView::Get { key } => match store.lookup(key) {
            Some(value) => ReplyView::Found { key, value },
            None => ReplyView::Missing { key },
        },
        CommandView::Remove { key } => if store@.contains_key(key) {
            ReplyView::Removed { key }
        } else {
            ReplyView::Missing { key }
        },
        CommandView::Keys => ReplyView::Keys { keys: store.key_order() },
        CommandView::Values => ReplyView::Values { values: store.value_order() },
        CommandView::List => ReplyView::Entries { entries: store.entries() },
        CommandView::Len => ReplyView::Count { count: store@.len() },
        CommandView::Clear => ReplyView::Cleared,
        CommandView::Help => ReplyView::Help,
        CommandView::Exit => ReplyView::Farewell,
        CommandView::Usage { verb } => ReplyView::Usage { verb },
        CommandView::Unknown { word } => ReplyView::Unknown { word },
    }
}

/// Whether the session goes on after a command: after every one but exit.
pub open spec fn runs_on(cmd: CommandView) -> bool {
    !(cmd is Exit)
}

/// Carries out one command. A usage error, an unknown word and a blank line
/// leave the store as it is.
pub fn execute(store: &mut Store, cmd: Command) -> (out: Outcome)
    requires
        old(store).wf(),
    ensures
        final(store).wf(),
        final(store)@ == contents_after(old(store)@, cmd@),
        final(store).key_order() == order_after(*old(store), cmd@),
        out.reply@ == reply_to(*old(store), cmd@),
        out.running == runs_on(cmd@),
{
    let reply = match cmd {
        Command::Blank => Reply::Nothing,
        Command::Put { key, value } => {
            store.set(key.clone(), value.clone());
            Reply::Stored { key, value }
        },
        Command::Get { key } => {
            match store.get(key.clone()) {
                Some(value) => Reply::Found { key, value },
                None => Reply::Missing { key },
            }
        },
        Command::Remove { key } => {
            if store.get(key.clone()).is_some() {
                store.remove(key.clone());
                Reply::Removed { key }
            } else {
                proof {
                    store.key_order().index_of_first_ensures(key@);
                }
                Reply::Missing { key }
            }
        },
        Command::Keys => Reply::Keys { keys: store.keys() },
        Command::Values => Reply::Values { values: store.values() },
        Command::List => Reply::Entries { entries: store.iter() },
        Command::Len => Reply::Count { count: store.len() },
        Command::Clear => {
            store.clear();
            Reply::Cleared
        },
        Command::Help => Reply::Help,
        Command::Exit => {
            return Outcome { reply: Reply::Farewell, running: false };
        },
        Command::Usage { verb } => Reply::Usage { verb },
        Command::Unknown { word } => Reply::Unknown { word },
    };
    Outcome { reply, running: true }
}

/// Parses one line of input and carries it out.
pub fn process_command(store: &mut Store, line: &str) -> (out: Outcome)
    requires
        old(store).wf(),
    ensures
        final(store).wf(),
        final(store)@ == contents_after(old(store)@, parse(line@)),
        final(store).key_order() == order_after(*old(store), parse(line@)),
        out.reply@ == reply_to(*old(store), parse(line@)),
        out.running == runs_on(parse(line@)),
{
    let cmd = parse_command(line);
    execute(store, cmd)
}

/// A store together with the state of the dialogue around it.
pub struct Session {
    store: Store,
    running: bool,
}

impl Session {
    /// The store that the session owns.
    pub closed spec fn store(&self) -> Store {
        self.store
    }

    /// Whether the session has not been stopped.
    pub closed spec fn running(&self) -> bool {
        self.running
    }

    /// Validity: the store is valid.
    pub open spec fn wf(&self) -> bool {
        self.store().wf()
    }

    /// Starts a session over an empty store.
    pub fn new() -> (s: Self)
        ensures
            s.wf(),
            s.running(),
            s.store()@ == Map::<Seq<char>, Seq<char>>::empty(),
            s.store().key_order() == Seq::<Seq<char>>::empty(),
    {
        Session { store: Store::new(), running: true }
    }

    /// Whether the session still takes commands.
    pub fn is_running(&self) -> (b: bool)
        ensures
            b == self.running(),
    {
        self.running
    }

    /// The store, to read.
    pub fn contents(&self) -> (store: &Store)
        ensures
            *store == self.store(),
    {
        &self.store
    }

    /// Takes one line of input in a running session. The session stops when
    /// the line is the exit command, and at no other.
    pub fn feed(&mut self, line: &str) -> (reply: Reply)
        requires
            old(self).wf(),
            old(self).running(),
        ensures
            final(self).wf(),
            final(self).store()@ == contents_after(old(self).store()@, parse(line@)),
            final(self).store().key_order() == order_after(old(self).store(), parse(line@)),
            reply@ == reply_to(old(self).store(), parse(line@)),
            final(self).running() == runs_on(parse(line@)),
    {
        let out = process_command(&mut self.store, line);
        self.running = out.running;
        out.reply
    }
}

} // verus!
