//! Splitting of a command line into arguments: shell-style words where the
//! quotes balance, plain whitespace-separated words where they do not.

use vstd::prelude::*;

verus! {

/// Whether `c` has the Unicode `White_Space` property.
pub open spec fn is_space(c: char) -> bool {
    let n = c as u32;
    (0x09 <= n && n <= 0x0d) || n == 0x20 || n == 0x85 || n == 0xa0 || n == 0x1680 || (0x2000
        <= n && n <= 0x200a) || n == 0x2028 || n == 0x2029 || n == 0x202f || n == 0x205f || n
        == 0x3000
}

pub fn is_whitespace(c: char) -> (r: bool)
    ensures
        r == is_space(c),
{
    let n = c as u32;
    (0x09 <= n && n <= 0x0d) || n == 0x20 || n == 0x85 || n == 0xa0 || n == 0x1680 || (0x2000
        <= n && n <= 0x200a) || n == 0x2028 || n == 0x2029 || n == 0x202f || n == 0x205f || n
        == 0x3000
}

/// The words of `rest`, where `word` holds the characters of a word begun
/// before `rest`.
pub open spec fn words_from(rest: Seq<char>, word: Seq<char>) -> Seq<Seq<char>>
    decreases rest.len(),
{
    if rest.len() == 0 {
        if word.len() == 0 {
            Seq::empty()
        } else {
            seq![word]
        }
    } else if is_space(rest[0]) {
        let tail = words_from(rest.drop_first(), Seq::empty());
        if word.len() == 0 {
            tail
        } else {
            seq![word] + tail
        }
    } else {
        words_from(rest.drop_first(), word.push(rest[0]))
    }
}

/// The maximal runs of non-whitespace characters of `s`, in order.
pub open spec fn whitespace_words(s: Seq<char>) -> Seq<Seq<char>> {
    words_from(s, Seq::empty())
}

/// The characters of each string, in order.
pub open spec fn texts(v: Seq<String>) -> Seq<Seq<char>> {
    v.map_values(|w: String| w@)
}

/// What shell-style splitting gives for `s`: the words, or `None` where a
/// quote is left open.
pub uninterp spec fn shell_words_of(s: Seq<char>) -> Option<Seq<Seq<char>>>;

/// Relies on `shellwords::split`, which splits as the Bourne shell does and
/// fails on mismatched quotes; its result depends on the text alone.
#[verifier::external_body]
fn shell_split(s: &str) -> (r: Option<Vec<String>>)
    ensures
        match r {
            Some(v) => shell_words_of(s@) == Some(texts(v@)),
            None => shell_words_of(s@) is None,
        },
{
    shellwords::split(s).ok()
}

/// Every word that `words_from` gives is non-empty and free of whitespace,
/// provided the word begun before is free of whitespace.
pub proof fn lemma_words_from_clean(rest: Seq<char>, word: Seq<char>)
    requires
        forall|k: int| 0 <= k < word.len() ==> !is_space(#[trigger] word[k]),
    ensures
        forall|i: int|
            0 <= i < words_from(rest, word).len() ==> #[trigger] words_from(rest, word)[i].len()
                > 0,
        forall|i: int, k: int|
            0 <= i < words_from(rest, word).len() && 0 <= k < words_from(rest, word)[i].len()
                ==> !is_space(#[trigger] words_from(rest, word)[i][k]),
    decreases rest.len(),
{
    if rest.len() == 0 {
        if word.len() > 0 {
            assert(words_from(rest, word) == seq![word]);
            assert(seq![word][0] == word);
        }
    } else if is_space(rest[0]) {
        let tail = words_from(rest.drop_first(), Seq::empty());
        lemma_words_from_clean(rest.drop_first(), Seq::empty());
        if word.len() > 0 {
            let all = seq![word] + tail;
            assert(words_from(rest, word) == all);
            assert forall|i: int| 0 < i < all.len() implies all[i] == tail[i - 1] by {}
            assert(all[0] == word);
        } else {
            assert(words_from(rest, word) == tail);
        }
    } else {
        let w = word.push(rest[0]);
        assert forall|k: int| 0 <= k < w.len() implies !is_space(#[trigger] w[k]) by {
            if k < word.len() {
                assert(w[k] == word[k]);
            }
        }
        lemma_words_from_clean(rest.drop_first(), w);
        assert(words_from(rest, word) == words_from(rest.drop_first(), w));
    }
}

/// Splitting on whitespace never yields an empty word, however many
/// whitespace characters stand together, nor a word holding whitespace.
pub proof fn lemma_whitespace_words_clean(s: Seq<char>)
    ensures
        forall|i: int|
            0 <= i < whitespace_words(s).len() ==> #[trigger] whitespace_words(s)[i].len() > 0,
        forall|i: int, k: int|
            0 <= i < whitespace_words(s).len() && 0 <= k < whitespace_words(s)[i].len()
                ==> !is_space(#[trigger] whitespace_words(s)[i][k]),
{
    lemma_words_from_clean(s, Seq::empty());
}

/// Splits `s` at every whitespace character, with no quoting; runs of
/// whitespace and whitespace at either end yield no empty word.
pub fn split_whitespace(s: &str) -> (r: Vec<String>)
    ensures
        texts(r@) == whitespace_words(s@),
{
    let n = s.unicode_len();
    let mut out: Vec<String> = Vec::new();
    let mut start: usize = 0;
    let mut i: usize = 0;
    assert(s@.subrange(0, n as int) =~= s@);
    assert(s@.subrange(0, 0) =~= Seq::<char>::empty());
    assert(texts(out@) + whitespace_words(s@) =~= whitespace_words(s@));
    while i < n
        invariant
            n == s@.len(),
            start <= i <= n,
            texts(out@) + words_from(s@.subrange(i as int, n as int), s@.subrange(
                start as int,
                i as int,
            )) == whitespace_words(s@),
        decreases n - i,
    {
        let c = s.get_char(i);
        let ghost rest = s@.subrange(i as int, n as int);
        let ghost word = s@.subrange(start as int, i as int);
        assert(rest[0] == c);
        assert(rest.drop_first() =~= s@.subrange(i + 1, n as int));
        if is_whitespace(c) {
            if start < i {
                let w = String::from_str(s.substring_char(start, i));
                let ghost before = out@;
                out.push(w);
                assert(texts(out@) =~= texts(before) + seq![word]);
                assert(texts(out@) + words_from(s@.subrange(i + 1, n as int), Seq::empty())
                    =~= texts(before) + (seq![word] + words_from(
                    s@.subrange(i + 1, n as int),
                    Seq::empty(),
                )));
            } else {
                assert(word.len() == 0);
            }
            start = i + 1;
            assert(s@.subrange(start as int, i + 1) =~= Seq::<char>::empty());
        } else {
            assert(word.push(c) =~= s@.subrange(start as int, i + 1));
        }
        i = i + 1;
    }
    let ghost word = s@.subrange(start as int, n as int);
    if start < n {
        let w = String::from_str(s.substring_char(start, n));
        let ghost before = out@;
        out.push(w);
        assert(texts(out@) =~= texts(before) + seq![word]);
    } else {
        assert(texts(out@) + Seq::<Seq<char>>::empty() =~= texts(out@));
    }
    out
}

/// The arguments of a command line: its shell-style words, or, where a quote
/// is left open, its whitespace-separated words.
pub open spec fn argument_words(s: Seq<char>) -> Seq<Seq<char>> {
    match shell_words_of(s) {
        Some(words) => words,
        None => whitespace_words(s),
    }
}

/// Picks the arguments of `s` given what shell-style splitting gave for it.
pub fn arguments_from(shell: Option<Vec<String>>, s: &str) -> (r: Vec<String>)
    ensures
        texts(r@) == match shell {
            Some(v) => texts(v@),
            None => whitespace_words(s@),
        },
{
    match shell {
        Some(v) => v,
        None => split_whitespace(s),
    }
}

/// Tokenizes the text after a command name; never fails.
pub fn build_arguments(s: &str) -> (r: Vec<String>)
    ensures
        texts(r@) == argument_words(s@),
{
    let shell = shell_split(s);
    arguments_from(shell, s)
}

} // verus!
