//! What holds of every store, whatever was done to it, and of every line.
//!
//! Each law of the store speaks of stores before and after an operation,
//! tied by what the operation is stated to do to the contents.

use vstd::prelude::*;
use crate::store::Store;
use crate::text::{
    is_word, join_spaced, lemma_words_are_words, lemma_words_before_space, lemma_words_of_word,
    words,
};

verus! {

/// A key that was just bound is found, with the value it was bound to.
pub proof fn law_get_after_set(before: Store, after: Store, key: Seq<char>, value: Seq<char>)
    requires
        after@ == before@.insert(key, value),
    ensures
        after.lookup(key) == Some(value),
{
}

/// A new store finds no key.
pub proof fn law_get_in_new(store: Store, key: Seq<char>)
    requires
        store@ == Map::<Seq<char>, Seq<char>>::empty(),
    ensures
        store.lookup(key).is_none(),
{
}

/// A key that is not bound stays so when another key is bound, when any key
/// is unbound, and when the store is emptied.
pub proof fn law_absent_stays_absent(
    before: Store,
    after: Store,
    key: Seq<char>,
    other: Seq<char>,
    value: Seq<char>,
)
    requires
        before.lookup(key).is_none(),
        (other != key && after@ == before@.insert(other, value)) || after@ == before@.remove(
            other,
        ) || after@ == Map::<Seq<char>, Seq<char>>::empty(),
    ensures
        after.lookup(key).is_none(),
{
}

/// A key that was just unbound is not found.
pub proof fn law_get_after_remove(before: Store, after: Store, key: Seq<char>)
    requires
        after@ == before@.remove(key),
    ensures
        after.lookup(key).is_none(),
{
}

/// An emptied store has no entry, whatever it held.
pub proof fn law_clear_empties(before: Store, after: Store)
    requires
        after@ == Map::<Seq<char>, Seq<char>>::empty(),
    ensures
        after@.len() == 0,
        after@.dom().finite(),
{
}

/// Binding a key twice leaves the second value, and binding a key that is
/// already bound leaves the number of entries as it was.
pub proof fn law_set_overwrites(
    s0: Store,
    s1: Store,
    s2: Store,
    key: Seq<char>,
    first: Seq<char>,
    second: Seq<char>,
)
    requires
        s0.wf(),
        s1@ == s0@.insert(key, first),
        s2@ == s1@.insert(key, second),
    ensures
        s2.lookup(key) == Some(second),
        s2@.len() == s1@.len(),
        s0@.contains_key(key) ==> s1@.len() == s0@.len(),
{
    s0.lemma_len_is_order_len();
}

/// Keys, values and entries are enumerated in equal number: as many as the
/// store has entries.
pub proof fn law_enumerations_agree(store: Store)
    requires
        store.wf(),
    ensures
        store.key_order().len() == store@.len(),
        store.value_order().len() == store@.len(),
        store.entries().len() == store@.len(),
{
    store.lemma_len_is_order_len();
}

/// Unbinding a key that is not bound changes nothing: neither the contents,
/// nor the key order, nor the number of entries.
pub proof fn law_remove_absent(before: Store, after: Store, key: Seq<char>)
    requires
        before.wf(),
        !before@.contains_key(key),
        after@ == before@.remove(key),
        after.key_order() == before.key_order().remove_value(key),
    ensures
        after@ == before@,
        after.key_order() == before.key_order(),
        after@.len() == before@.len(),
{
    before.key_order().index_of_first_ensures(key);
}

/// Words joined with single spaces split into the same words again. So a
/// value made by joining the words of a line is one that splitting and
/// joining leaves as it is.
pub proof fn law_split_of_joined(parts: Seq<Seq<char>>)
    requires
        forall|i: int| 0 <= i < parts.len() ==> is_word(#[trigger] parts[i]),
    ensures
        words(join_spaced(parts)) == parts,
        join_spaced(words(join_spaced(parts))) == join_spaced(parts),
    decreases parts.len(),
{
    if parts.len() == 0 {
        assert(words(join_spaced(parts)) =~= parts);
    } else if parts.len() == 1 {
        lemma_words_of_word(parts[0]);
        assert(seq![parts[0]] =~= parts);
    } else {
        let init = parts.drop_last();
        let last = parts.last();
        let tail = seq![' '] + last;
        law_split_of_joined(init);
        lemma_words_before_space(join_spaced(init), tail);
        lemma_words_of_word(last);
        assert(tail.drop_first() =~= last);
        assert(words(tail) == words(last));
        assert(join_spaced(parts) =~= join_spaced(init) + tail);
        assert(init + seq![last] =~= parts);
    }
}

/// The words of any text are such that joining and splitting them gives
/// them back: runs of white space between them leave no trace.
pub proof fn law_words_are_kept(line: Seq<char>)
    ensures
        words(join_spaced(words(line))) == words(line),
{
    lemma_words_are_words(line);
    law_split_of_joined(words(line));
}

} // verus!
