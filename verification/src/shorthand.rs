//! The compact `-s/--long` notation for naming a flag.
//!
//! A text is read in one of two ways. If it starts with `-<letter>`, that
//! letter is the short flag, and any chain of `/--<word>` groups that follows
//! it names the long flag (the last group wins). If the whole text is
//! `--<word>`, that word is the long flag. Any other text names nothing.
//! A `<word>` is a letter followed by one or more letters, digits or hyphens.

use vstd::prelude::*;
use vstd::string::StrSliceExecFns;

verus! {

pub open spec fn is_letter(c: char) -> bool {
    ('a' <= c && c <= 'z') || ('A' <= c && c <= 'Z')
}

pub open spec fn is_word_char(c: char) -> bool {
    is_letter(c) || ('0' <= c && c <= '9') || c == '-'
}

/// A flag word: a letter, then at least one letter, digit or hyphen.
pub open spec fn is_word(w: Seq<char>) -> bool {
    &&& w.len() >= 2
    &&& is_letter(w[0])
    &&& forall|k: int| 1 <= k < w.len() ==> is_word_char(#[trigger] w[k])
}

/// `h` starts with `-<letter>`.
pub open spec fn has_short(h: Seq<char>) -> bool {
    h.len() >= 2 && h[0] == '-' && is_letter(h[1])
}

/// A `/--<word>` group starts at `at`; its word reaches at least to `at + 5`.
pub open spec fn group_at(h: Seq<char>, at: int) -> bool {
    &&& 0 <= at
    &&& at + 5 <= h.len()
    &&& h[at] == '/'
    &&& h[at + 1] == '-'
    &&& h[at + 2] == '-'
    &&& is_letter(h[at + 3])
    &&& is_word_char(h[at + 4])
}

/// Where the longest run of word characters that starts at `from` ends.
pub open spec fn run_end(h: Seq<char>, from: int) -> int
    decreases h.len() - from,
{
    if 0 <= from < h.len() && is_word_char(h[from]) {
        run_end(h, from + 1)
    } else {
        from
    }
}

/// The word of the last group in the chain of `/--<word>` groups that starts
/// at `at`, each group taking the longest word it can.
pub open spec fn last_group(h: Seq<char>, at: int) -> Option<Seq<char>>
    decreases h.len() - at,
    via last_group_decreases
{
    if group_at(h, at) {
        let end = run_end(h, at + 5);
        match last_group(h, end) {
            Some(w) => Some(w),
            None => Some(h.subrange(at + 3, end)),
        }
    } else {
        None
    }
}

#[via_fn]
proof fn last_group_decreases(h: Seq<char>, at: int) {
    if group_at(h, at) {
        lemma_run_end(h, at + 5);
    }
}

/// The whole of `h` is `--<word>`.
pub open spec fn is_long_only(h: Seq<char>) -> bool {
    &&& h.len() >= 2
    &&& h[0] == '-'
    &&& h[1] == '-'
    &&& is_word(h.subrange(2, h.len() as int))
}

/// The short and the long flag that the text `h` names.
pub open spec fn short_long(h: Seq<char>) -> (Option<char>, Option<Seq<char>>) {
    if has_short(h) {
        (Some(h[1]), last_group(h, 2))
    } else if is_long_only(h) {
        (None, Some(h.subrange(2, h.len() as int)))
    } else {
        (None, None)
    }
}

/// A run of word characters ends inside the text, holds only word
/// characters, and cannot be extended.
pub proof fn lemma_run_end(h: Seq<char>, from: int)
    requires
        0 <= from <= h.len(),
    ensures
        from <= run_end(h, from) <= h.len(),
        forall|k: int| from <= k < run_end(h, from) ==> is_word_char(#[trigger] h[k]),
        run_end(h, from) < h.len() ==> !is_word_char(h[run_end(h, from)]),
    decreases h.len() - from,
{
    if from < h.len() && is_word_char(h[from]) {
        lemma_run_end(h, from + 1);
    }
}

/// A run that starts inside a stretch of word characters reaching to the end
/// of the text ends there too.
proof fn lemma_run_to_end(h: Seq<char>, from: int)
    requires
        0 <= from <= h.len(),
        forall|k: int| from <= k < h.len() ==> is_word_char(#[trigger] h[k]),
    ensures
        run_end(h, from) == h.len(),
    decreases h.len() - from,
{
    if from < h.len() {
        lemma_run_to_end(h, from + 1);
    }
}

/// Every word a chain of groups yields is a flag word.
pub proof fn lemma_last_group_is_word(h: Seq<char>, at: int)
    ensures
        last_group(h, at) matches Some(w) ==> is_word(w),
    decreases h.len() - at,
{
    if group_at(h, at) {
        lemma_run_end(h, at + 5);
        let end = run_end(h, at + 5);
        lemma_last_group_is_word(h, end);
        let w = h.subrange(at + 3, end);
        assert forall|k: int| 1 <= k < w.len() implies is_word_char(#[trigger] w[k]) by {
            assert(w[k] == h[at + 3 + k]);
        }
        assert(w[0] == h[at + 3]);
    }
}

/// Whatever a text names is well formed: the short flag is a letter and the
/// long flag is a flag word, so it starts with a letter.
pub proof fn lemma_names_are_well_formed(h: Seq<char>)
    ensures
        short_long(h).0 matches Some(c) ==> is_letter(c),
        short_long(h).1 matches Some(w) ==> is_word(w),
{
    if has_short(h) {
        lemma_last_group_is_word(h, 2);
    }
}

/// `-<letter>/--<word>` names both flags.
pub proof fn lemma_short_and_long(c: char, w: Seq<char>)
    requires
        is_letter(c),
        is_word(w),
    ensures
        short_long(seq!['-', c, '/', '-', '-'] + w) == (Some(c), Some(w)),
{
    let h = seq!['-', c, '/', '-', '-'] + w;
    assert(h[5] == w[0]);
    assert(h[6] == w[1]);
    assert(group_at(h, 2));
    assert forall|k: int| 7 <= k < h.len() implies is_word_char(#[trigger] h[k]) by {
        assert(h[k] == w[k - 5]);
    }
    lemma_run_to_end(h, 7);
    assert(last_group(h, h.len() as int) is None);
    assert(h.subrange(5, h.len() as int) =~= w);
    assert(last_group(h, 2) == Some(w));
    assert(has_short(h));
}

/// `-<letter>` alone names the short flag only.
pub proof fn lemma_short_only(c: char)
    requires
        is_letter(c),
    ensures
        short_long(seq!['-', c]) == (Some(c), None::<Seq<char>>),
{
    let h = seq!['-', c];
    assert(!group_at(h, 2));
}

/// `--<word>` alone names the long flag only.
pub proof fn lemma_long_only(w: Seq<char>)
    requires
        is_word(w),
    ensures
        short_long(seq!['-', '-'] + w) == (None::<char>, Some(w)),
{
    let h = seq!['-', '-'] + w;
    assert(h.subrange(2, h.len() as int) =~= w);
}

/// A text that neither starts with `-<letter>` nor is `--<word>` as a whole
/// names nothing.
pub proof fn lemma_no_match(h: Seq<char>)
    requires
        !has_short(h),
        !is_long_only(h),
    ensures
        short_long(h) == (None::<char>, None::<Seq<char>>),
{
}

/// A text that does not start with a hyphen, such as a positional
/// argument's name, names nothing.
pub proof fn lemma_no_leading_hyphen_names_nothing(h: Seq<char>)
    requires
        h.len() == 0 || h[0] != '-',
    ensures
        short_long(h) == (None::<char>, None::<Seq<char>>),
{
}

/// A text names a long flag without a short one only where it is
/// `--<word>` as a whole, and a short flag only where it starts with
/// `-<letter>`.
pub proof fn lemma_names_need_their_form(h: Seq<char>)
    ensures
        short_long(h).0 is Some <==> has_short(h),
        short_long(h).0 is None && short_long(h).1 is Some <==> is_long_only(h),
{
}

fn letter(c: char) -> (r: bool)
    ensures
        r == is_letter(c),
{
    ('a' <= c && c <= 'z') || ('A' <= c && c <= 'Z')
}

fn word_char(c: char) -> (r: bool)
    ensures
        r == is_word_char(c),
{
    letter(c) || ('0' <= c && c <= '9') || c == '-'
}

fn chars_of(text: &str) -> (chars: Vec<char>)
    ensures
        chars@ == text@,
{
    let mut chars: Vec<char> = Vec::new();
    for c in it: text.chars()
        invariant
            chars@ == it.seq().take(it.index()),
    {
        chars.push(c);
    }
    chars
}

/// Whether a `/--<word>` group starts at `at`.
fn group_starts(chars: &Vec<char>, at: usize) -> (r: bool)
    ensures
        r == group_at(chars@, at as int),
{
    chars.len() >= 5 && at <= chars.len() - 5 && chars[at] == '/' && chars[at + 1] == '-'
        && chars[at + 2] == '-' && letter(chars[at + 3]) && word_char(chars[at + 4])
}

/// The word of the last `/--<word>` group of the chain that starts at 2, as
/// the range of characters it takes.
fn last_group_range(chars: &Vec<char>) -> (range: Option<(usize, usize)>)
    ensures
        match range {
            Some((from, to)) => from <= to <= chars.len() && last_group(chars@, 2) == Some(
                chars@.subrange(from as int, to as int),
            ),
            None => last_group(chars@, 2) is None,
        },
{
    let n = chars.len();
    let mut at: usize = 2;
    let mut range: Option<(usize, usize)> = None;
    while group_starts(chars, at)
        invariant
            n == chars.len(),
            2 <= at,
            range matches Some((from, to)) ==> from <= to <= n,
            last_group(chars@, 2) == match last_group(chars@, at as int) {
                Some(w) => Some(w),
                None => match range {
                    Some((from, to)) => Some(chars@.subrange(from as int, to as int)),
                    None => None,
                },
            },
        decreases n - at,
    {
        let mut end: usize = at + 5;
        while end < n && word_char(chars[end])
            invariant
                n == chars.len(),
                at + 5 <= end <= n,
                run_end(chars@, at + 5) == run_end(chars@, end as int),
            decreases n - end,
        {
            end = end + 1;
        }
        range = Some((at + 3, end));
        at = end;
    }
    range
}

/// Whether the whole text is `--<word>`.
fn long_only(chars: &Vec<char>) -> (whole: bool)
    ensures
        whole == is_long_only(chars@),
{
    let n = chars.len();
    if n < 4 || chars[0] != '-' || chars[1] != '-' || !letter(chars[2]) {
        proof {
            let word = chars@.subrange(2, n as int);
            if n >= 4 {
                assert(word[0] == chars@[2]);
            }
        }
        return false;
    }
    let ghost word = chars@.subrange(2, n as int);
    let mut i: usize = 3;
    while i < n
        invariant
            n == chars.len(),
            3 <= i <= n,
            word == chars@.subrange(2, n as int),
            forall|k: int| 1 <= k < i - 2 ==> is_word_char(#[trigger] word[k]),
        decreases n - i,
    {
        assert(word[i - 2] == chars@[i as int]);
        if !word_char(chars[i]) {
            return false;
        }
        i = i + 1;
    }
    assert(word[0] == chars@[2]);
    true
}

/// Reads the short and the long flag out of a text in the `-s/--long`
/// notation. A text that names neither yields `(None, None)`.
pub fn extract_short_long_name(haystack: &str) -> (names: (Option<char>, Option<String>))
    ensures
        names.0 == short_long(haystack@).0,
        names.1 is Some == short_long(haystack@).1 is Some,
        names.1 is Some ==> names.1.unwrap()@ == short_long(haystack@).1.unwrap(),
{
    let chars = chars_of(haystack);
    let n = chars.len();
    if n >= 2 && chars[0] == '-' && letter(chars[1]) {
        let long = match last_group_range(&chars) {
            Some((from, to)) => Some(haystack.substring_char(from, to).to_owned()),
            None => None,
        };
        (Some(chars[1]), long)
    } else {
        if long_only(&chars) {
            (None, Some(haystack.substring_char(2, n).to_owned()))
        } else {
            (None, None)
        }
    }
}

} // verus!
