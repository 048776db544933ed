//! Text as sequences of characters, and the words of a line: splitting on
//! white space, joining with single spaces, and upper-casing.

use vstd::prelude::*;
use vstd::string::*;

verus! {

/// The text of each string of a sequence, in order.
pub open spec fn texts(items: Seq<String>) -> Seq<Seq<char>> {
    items.map_values(|s: String| s@)
}

/// The text of each pair of strings of a sequence, in order.
pub open spec fn text_pairs(items: Seq<(String, String)>) -> Seq<(Seq<char>, Seq<char>)> {
    items.map_values(|p: (String, String)| (p.0@, p.1@))
}

/// The text of an optional string.
pub open spec fn texts_of(item: Option<String>) -> Option<Seq<char>> {
    match item {
        Some(s) => Some(s@),
        None => None,
    }
}

/// Whether `c` is one of the Unicode white-space characters: the controls
/// U+0009 to U+000D, the space, U+0085, U+00A0, U+1680, U+2000 to U+200A,
/// U+2028, U+2029, U+202F, U+205F and U+3000.
pub open spec fn is_space(c: char) -> bool {
    let n = c as u32;
    ||| 0x09 <= n <= 0x0D
    ||| n == 0x20
    ||| n == 0x85
    ||| n == 0xA0
    ||| n == 0x1680
    ||| 0x2000 <= n <= 0x200A
    ||| n == 0x2028
    ||| n == 0x2029
    ||| n == 0x202F
    ||| n == 0x205F
    ||| n == 0x3000
}

/// Length of the longest prefix of `s` that holds no white space.
pub open spec fn word_len(s: Seq<char>) -> nat
    decreases s.len(),
{
    if s.len() == 0 || is_space(s[0]) {
        0
    } else {
        1 + word_len(s.drop_first())
    }
}

/// The words of `s`: its maximal runs of characters that are not white
/// space, from left to right.
pub open spec fn words(s: Seq<char>) -> Seq<Seq<char>>
    decreases s.len(),
{
    if s.len() == 0 {
        Seq::empty()
    } else if is_space(s[0]) {
        words(s.drop_first())
    } else {
        proof {
            lemma_word_len_bounds(s);
        }
        let n = word_len(s) as int;
        seq![s.take(n)] + words(s.skip(n))
    }
}

/// `parts` with one space between neighbours.
pub open spec fn join_spaced(parts: Seq<Seq<char>>) -> Seq<char>
    decreases parts.len(),
{
    if parts.len() == 0 {
        Seq::empty()
    } else if parts.len() == 1 {
        parts[0]
    } else {
        join_spaced(parts.drop_last()) + seq![' '] + parts.last()
    }
}

/// The upper-case form that `str::to_uppercase` gives a text.
pub uninterp spec fn uppercase(s: Seq<char>) -> Seq<char>;

/// A word never runs past the end of the text, and is not empty where the
/// text starts with something other than white space.
pub proof fn lemma_word_len_bounds(s: Seq<char>)
    ensures
        word_len(s) <= s.len(),
        s.len() > 0 && !is_space(s[0]) ==> word_len(s) >= 1,
        forall|i: int| 0 <= i < word_len(s) ==> !is_space(#[trigger] s[i]),
        word_len(s) < s.len() ==> is_space(s[word_len(s) as int]),
    decreases s.len(),
{
    if s.len() > 0 && !is_space(s[0]) {
        let rest = s.drop_first();
        lemma_word_len_bounds(rest);
        assert forall|i: int| 0 <= i < word_len(s) implies !is_space(#[trigger] s[i]) by {
            if i > 0 {
                assert(s[i] == rest[i - 1]);
            }
        }
    }
}

/// Whether `w` can be a word: it is not empty and holds no white space.
pub open spec fn is_word(w: Seq<char>) -> bool {
    &&& w.len() > 0
    &&& forall|i: int| 0 <= i < w.len() ==> !is_space(#[trigger] w[i])
}

/// Every word of a text is non-empty and free of white space.
pub proof fn lemma_words_are_words(s: Seq<char>)
    ensures
        forall|w: int| 0 <= w < words(s).len() ==> is_word(#[trigger] words(s)[w]),
    decreases s.len(),
{
    if s.len() == 0 {
    } else if is_space(s[0]) {
        lemma_words_are_words(s.drop_first());
        assert(words(s) == words(s.drop_first()));
    } else {
        lemma_word_len_bounds(s);
        let n = word_len(s) as int;
        lemma_words_are_words(s.skip(n));
        assert(words(s) == seq![s.take(n)] + words(s.skip(n)));
    }
}

/// What follows a text does not change the length of its first word, where
/// what follows is nothing or starts with white space.
pub proof fn lemma_word_len_before_space(a: Seq<char>, b: Seq<char>)
    requires
        b.len() == 0 || is_space(b[0]),
    ensures
        word_len(a + b) == word_len(a),
    decreases a.len(),
{
    if a.len() == 0 {
        assert(a + b =~= b);
    } else if !is_space(a[0]) {
        lemma_word_len_before_space(a.drop_first(), b);
        assert((a + b).drop_first() =~= a.drop_first() + b);
    }
}

/// The words of two texts in a row are the words of the first and then
/// those of the second, where the second is empty or starts with white
/// space.
pub proof fn lemma_words_before_space(a: Seq<char>, b: Seq<char>)
    requires
        b.len() == 0 || is_space(b[0]),
    ensures
        words(a + b) == words(a) + words(b),
    decreases a.len(),
{
    if a.len() == 0 {
        assert(a + b =~= b);
        assert(words(a) + words(b) =~= words(b));
    } else if is_space(a[0]) {
        lemma_words_before_space(a.drop_first(), b);
        assert((a + b).drop_first() =~= a.drop_first() + b);
    } else {
        lemma_word_len_bounds(a);
        lemma_word_len_before_space(a, b);
        let n = word_len(a) as int;
        lemma_words_before_space(a.skip(n), b);
        assert((a + b).take(n) =~= a.take(n));
        assert((a + b).skip(n) =~= a.skip(n) + b);
        assert(words(a + b) == seq![a.take(n)] + words(a.skip(n) + b));
        assert(seq![a.take(n)] + (words(a.skip(n)) + words(b)) =~= (seq![a.take(n)] + words(
            a.skip(n),
        )) + words(b));
    }
}

/// A text without white space is as long as its first word.
pub proof fn lemma_word_len_of_word(w: Seq<char>)
    requires
        forall|i: int| 0 <= i < w.len() ==> !is_space(#[trigger] w[i]),
    ensures
        word_len(w) == w.len(),
    decreases w.len(),
{
    if w.len() > 0 {
        let rest = w.drop_first();
        assert forall|i: int| 0 <= i < rest.len() implies !is_space(#[trigger] rest[i]) by {
            assert(rest[i] == w[i + 1]);
        }
        lemma_word_len_of_word(rest);
    }
}

/// A word is the one word of itself.
pub proof fn lemma_words_of_word(w: Seq<char>)
    requires
        is_word(w),
    ensures
        words(w) == seq![w],
{
    lemma_word_len_of_word(w);
    let n = w.len() as int;
    assert(w.take(n) =~= w);
    assert(w.skip(n) =~= Seq::<char>::empty());
    assert(words(w.skip(n)) =~= Seq::<Seq<char>>::empty());
    assert(words(w) =~= seq![w.take(n)] + words(w.skip(n)));
}

/// Whether `c` is white space.
pub fn is_whitespace(c: char) -> (b: bool)
    ensures
        b == is_space(c),
{
    let n: u32 = c as u32;
    if n < 0x80 {
        (0x09 <= n && n <= 0x0D) || n == 0x20
    } else if n < 0x2000 {
        n == 0x85 || n == 0xA0 || n == 0x1680
    } else {
        n <= 0x200A || n == 0x2028 || n == 0x2029 || n == 0x202F || n == 0x205F || n == 0x3000
    }
}

/// Splits a line into its words. Characters are fetched by index, which
/// costs a scan each: fit for a line of input, not for long texts.
pub fn split_words(line: &str) -> (out: Vec<String>)
    ensures
        texts(out@) == words(line@),
{
    let n = line.unicode_len();
    let mut out: Vec<String> = Vec::new();
    let mut i: usize = 0;
    assert(line@.skip(0) =~= line@);
    while i < n
        invariant
            i <= n,
            n == line@.len(),
            words(line@) == texts(out@) + words(line@.skip(i as int)),
        decreases n - i,
    {
        let ghost tail = line@.skip(i as int);
        if is_whitespace(line.get_char(i)) {
            assert(tail.drop_first() =~= line@.skip(i + 1));
            i += 1;
        } else {
            let start = i;
            while i < n && !is_whitespace(line.get_char(i))
                invariant
                    start <= i <= n,
                    n == line@.len(),
                    word_len(tail) == (i - start) + word_len(line@.skip(i as int)),
                    tail == line@.skip(start as int),
                decreases n - i,
            {
                assert(line@.skip(i as int).drop_first() =~= line@.skip(i + 1));
                i += 1;
            }
            let word = line.substring_char(start, i).to_owned();
            let ghost done = texts(out@);
            out.push(word);
            proof {
                assert(word@ =~= tail.take(word_len(tail) as int));
                assert(tail.skip(word_len(tail) as int) =~= line@.skip(i as int));
                assert(done.push(word@) + words(line@.skip(i as int)) =~= done + (seq![word@]
                    + words(line@.skip(i as int))));
            }
        }
    }
    out
}

/// Joins the words from index `from` on with single spaces.
pub fn join_from(parts: &Vec<String>, from: usize) -> (out: String)
    requires
        from <= parts@.len(),
    ensures
        out@ == join_spaced(texts(parts@).skip(from as int)),
{
    let ghost all = texts(parts@);
    let mut out = String::new();
    let mut i: usize = from;
    while i < parts.len()
        invariant
            from <= i <= parts@.len(),
            all == texts(parts@),
            out@ == join_spaced(all.subrange(from as int, i as int)),
        decreases parts.len() - i,
    {
        let ghost sofar = all.subrange(from as int, i as int);
        let ghost next = all.subrange(from as int, i + 1);
        assert(next.drop_last() =~= sofar);
        if i > from {
            proof {
                reveal_strlit(" ");
            }
            out.append(" ");
        }
        out.append(parts[i].as_str());
        i += 1;
    }
    out
}

/// Upper-cases a word by calling `str::to_uppercase`. Nothing is proved of
/// the outcome: the contract only gives it its name, `uppercase` of the
/// word's text.
#[verifier::external_body]
pub(crate) fn to_upper(word: &str) -> (upper: String)
    ensures
        upper@ == uppercase(word@),
{
    word.to_uppercase()
}

} // verus!
