//! Texts for the shell: single-quoted words, bytes as octal escapes, and the
//! search for a word in a text.

use vstd::prelude::*;
use vstd::string::*;

verus! {

broadcast use vstd::string::group_string_axioms;

/// `String::push`: appends the one character `c` to `s`.
#[verifier::external_body]
fn push_char(s: &mut String, c: char)
    ensures
        final(s)@ == old(s)@.push(c),
{
    s.push(c)
}

/// How one character stands inside a single-quoted shell word: a single quote
/// closes the quotes, stands escaped, and opens them again; any other
/// character stands for itself.
pub open spec fn quoted_char(c: char) -> Seq<char> {
    if c == '\'' {
        seq!['\'', '\\', '\'', '\'']
    } else {
        seq![c]
    }
}

/// The characters of `s`, each as [`quoted_char`] writes it.
pub open spec fn quoted_chars(s: Seq<char>) -> Seq<char>
    decreases s.len(),
{
    if s.len() == 0 {
        Seq::empty()
    } else {
        quoted_chars(s.drop_last()) + quoted_char(s.last())
    }
}

/// `s` as one single-quoted shell word.
pub open spec fn single_quoted(s: Seq<char>) -> Seq<char> {
    seq!['\''] + quoted_chars(s) + seq!['\'']
}

/// Writes `s` as one single-quoted shell word, so that a shell reads back
/// exactly `s`, whatever characters it holds.
pub fn single_quote(s: &str) -> (word: String)
    ensures
        word@ == single_quoted(s@),
{
    let mut word = "'".to_string();
    proof {
        reveal_strlit("'");
        assert(word@ =~= seq!['\''] + quoted_chars(s@.take(0)));
    }
    for c in it: s.chars()
        invariant
            it.seq() == s@,
            word@ == seq!['\''] + quoted_chars(s@.take(it.index() as int)),
    {
        proof {
            let n = it.index() as int;
            assert(s@.take(n + 1).drop_last() == s@.take(n));
            assert(s@.take(n + 1).last() == c);
        }
        let ghost before = word@;
        if c == '\'' {
            push_char(&mut word, '\'');
            push_char(&mut word, '\\');
            push_char(&mut word, '\'');
            push_char(&mut word, '\'');
        } else {
            push_char(&mut word, c);
        }
        assert(word@ =~= before + quoted_char(c));
    }
    proof {
        assert(s@.take(s@.len() as int) == s@);
    }
    let ghost body = word@;
    push_char(&mut word, '\'');
    assert(word@ =~= body + seq!['\'']);
    word
}

/// What a POSIX shell reads from `word`, where `word` is made of single-quoted
/// stretches and escaped single quotes alone. Inside quotes every character up
/// to the closing quote stands for itself; outside, only an opening quote or
/// a backslash before a single quote may stand. `quoted` says whether the
/// reading starts inside quotes. `None` where `word` is not of this form.
pub open spec fn shell_reads(word: Seq<char>, quoted: bool) -> Option<Seq<char>>
    decreases word.len(),
{
    if word.len() == 0 {
        if quoted {
            None
        } else {
            Some(Seq::empty())
        }
    } else if quoted {
        if word[0] == '\'' {
            shell_reads(word.drop_first(), false)
        } else {
            match shell_reads(word.drop_first(), true) {
                Some(rest) => Some(seq![word[0]] + rest),
                None => None,
            }
        }
    } else if word[0] == '\'' {
        shell_reads(word.drop_first(), true)
    } else if word[0] == '\\' && word.len() >= 2 && word[1] == '\'' {
        match shell_reads(word.subrange(2, word.len() as int), false) {
            Some(rest) => Some(seq!['\''] + rest),
            None => None,
        }
    } else {
        None
    }
}

/// The quoted form of a text that is not empty is the quoted form of its
/// first character, followed by the quoted form of the rest.
pub proof fn lemma_quoted_chars_front(s: Seq<char>)
    requires
        s.len() > 0,
    ensures
        quoted_chars(s) == quoted_char(s[0]) + quoted_chars(s.drop_first()),
    decreases s.len(),
{
    if s.len() == 1 {
        assert(s.drop_last() =~= Seq::empty());
        assert(s.drop_first() =~= Seq::empty());
        assert(quoted_chars(s) =~= quoted_char(s[0]) + quoted_chars(s.drop_first()));
    } else {
        let front = s.drop_last();
        lemma_quoted_chars_front(front);
        assert(s.drop_first().drop_last() =~= front.drop_first());
        assert(s.drop_first().last() == s.last());
        assert(front[0] == s[0]);
        assert(quoted_chars(s) =~= quoted_char(s[0]) + quoted_chars(s.drop_first()));
    }
}

/// Read inside quotes, the quoted form of `s` yields `s`, and the reading
/// goes on inside quotes with what follows.
pub proof fn lemma_shell_reads_quoted(s: Seq<char>, tail: Seq<char>)
    ensures
        shell_reads(quoted_chars(s) + tail, true) == match shell_reads(tail, true) {
            Some(rest) => Some(s + rest),
            None => None,
        },
    decreases s.len(),
{
    if s.len() == 0 {
        assert(quoted_chars(s) + tail =~= tail);
        if shell_reads(tail, true) is Some {
            assert(s + shell_reads(tail, true)->0 =~= shell_reads(tail, true)->0);
        }
    } else {
        let c = s[0];
        let r = s.drop_first();
        let follow = quoted_chars(r) + tail;
        let word = quoted_chars(s) + tail;
        lemma_quoted_chars_front(s);
        lemma_shell_reads_quoted(r, tail);
        assert(word =~= quoted_char(c) + follow);
        if c == '\'' {
            let w1 = word.drop_first();
            assert(w1 =~= seq!['\\', '\'', '\''] + follow);
            let w2 = w1.subrange(2, w1.len() as int);
            assert(w2 =~= seq!['\''] + follow);
            assert(w2.drop_first() =~= follow);
            assert(shell_reads(w2, false) == shell_reads(follow, true));
            assert(shell_reads(w1, false) == match shell_reads(w2, false) {
                Some(rest) => Some(seq!['\''] + rest),
                None => None,
            });
            assert(shell_reads(word, true) == shell_reads(w1, false));
        } else {
            assert(word.drop_first() =~= follow);
            assert(shell_reads(word, true) == match shell_reads(follow, true) {
                Some(rest) => Some(seq![c] + rest),
                None => None,
            });
        }
        if shell_reads(tail, true) is Some {
            let rest = shell_reads(tail, true)->0;
            assert(seq![c] + (r + rest) =~= s + rest);
        }
    }
}

/// A shell reads the single-quoted form of `s` as exactly `s`: whatever
/// characters `s` holds, none of them ends the word or is read as syntax.
pub proof fn law_single_quoted_reads_back(s: Seq<char>)
    ensures
        shell_reads(single_quoted(s), false) == Some(s),
{
    let word = single_quoted(s);
    let close = seq!['\''];
    assert(word.drop_first() =~= quoted_chars(s) + close);
    assert(shell_reads(word, false) == shell_reads(word.drop_first(), true));
    lemma_shell_reads_quoted(s, close);
    assert(close.drop_first() =~= Seq::<char>::empty());
    assert(shell_reads(close, true) == shell_reads(close.drop_first(), false));
    assert(shell_reads(Seq::<char>::empty(), false) == Some(Seq::<char>::empty()));
    assert(s + Seq::<char>::empty() =~= s);
}

/// The character of the octal digit `d`.
pub open spec fn octal_digit(d: int) -> char {
    (48 + d) as char
}

/// The byte `b` as a backslash and its three octal digits, the form in which
/// `printf` takes any byte in its format.
pub open spec fn octal_escape(b: u8) -> Seq<char> {
    seq!['\\', octal_digit(b as int / 64), octal_digit(b as int / 8 % 8), octal_digit(b as int % 8)]
}

/// Each byte of `bytes` as its [`octal_escape`], in order.
pub open spec fn octal_text(bytes: Seq<u8>) -> Seq<char>
    decreases bytes.len(),
{
    if bytes.len() == 0 {
        Seq::empty()
    } else {
        octal_text(bytes.drop_last()) + octal_escape(bytes.last())
    }
}

/// The number that the octal digit `c` stands for.
pub open spec fn octal_value(c: char) -> Option<int> {
    if '0' <= c <= '7' {
        Some(c as int - 48)
    } else {
        None
    }
}

/// The bytes that `text` stands for where it is a run of octal escapes, each
/// a backslash and three octal digits that make a number below 256.
pub open spec fn octal_bytes(text: Seq<char>) -> Option<Seq<u8>>
    decreases text.len(),
{
    if text.len() == 0 {
        Some(Seq::empty())
    } else if text.len() < 4 {
        None
    } else {
        let n = text.len() - 4;
        match (
            octal_bytes(text.take(n)),
            octal_value(text[n + 1]),
            octal_value(text[n + 2]),
            octal_value(text[n + 3]),
        ) {
            (Some(front), Some(high), Some(mid), Some(low)) => if text[n] == '\\' && 64 * high
                + 8 * mid + low < 256 {
                Some(front.push((64 * high + 8 * mid + low) as u8))
            } else {
                None
            },
            _ => None,
        }
    }
}

/// Octal text reads back as the bytes it was written from: nothing is lost,
/// added or changed on the way through [`octal_text`].
pub proof fn lemma_octal_round_trip(bytes: Seq<u8>)
    ensures
        octal_text(bytes).len() == 4 * bytes.len(),
        octal_bytes(octal_text(bytes)) == Some(bytes),
    decreases bytes.len(),
{
    if bytes.len() > 0 {
        let front = bytes.drop_last();
        let b = bytes.last();
        lemma_octal_round_trip(front);
        let text = octal_text(bytes);
        let n = text.len() - 4;
        assert(text.take(n) =~= octal_text(front));
        assert(text[n] == '\\');
        assert(text[n + 1] == octal_digit(b as int / 64));
        assert(text[n + 2] == octal_digit(b as int / 8 % 8));
        assert(text[n + 3] == octal_digit(b as int % 8));
        assert(64 * (b as int / 64) + 8 * (b as int / 8 % 8) + b as int % 8 == b as int);
        assert(front.push(b) =~= bytes);
    }
}

/// Octal text holds nothing but backslashes and the digits 0 to 7: no quote,
/// no space, no character that a shell reads as syntax between double quotes.
pub proof fn law_octal_text_is_plain(bytes: Seq<u8>)
    ensures
        forall|i: int|
            0 <= i < octal_text(bytes).len() ==> {
                let c = #[trigger] octal_text(bytes)[i];
                c == '\\' || '0' <= c <= '7'
            },
    decreases bytes.len(),
{
    if bytes.len() > 0 {
        let front = octal_text(bytes.drop_last());
        let b = bytes.last();
        law_octal_text_is_plain(bytes.drop_last());
        assert forall|i: int| 0 <= i < octal_text(bytes).len() implies {
            let c = #[trigger] octal_text(bytes)[i];
            c == '\\' || '0' <= c <= '7'
        } by {
            if i < front.len() {
                assert(octal_text(bytes)[i] == front[i]);
            } else {
                assert(octal_text(bytes)[i] == octal_escape(b)[i - front.len()]);
            }
        }
    }
}

fn digit_char(d: u8) -> (c: char)
    requires
        d < 8,
    ensures
        c == octal_digit(d as int),
{
    (48 + d) as char
}

/// Writes each byte of `bytes` as a backslash and three octal digits.
pub fn octal_encode(bytes: &[u8]) -> (text: String)
    ensures
        text@ == octal_text(bytes@),
{
    let mut text = String::new();
    let mut at: usize = 0;
    assert(bytes@.take(0) =~= Seq::empty());
    while at < bytes.len()
        invariant
            at <= bytes.len(),
            text@ == octal_text(bytes@.take(at as int)),
        decreases bytes.len() - at,
    {
        let b = bytes[at];
        let ghost before = text@;
        proof {
            assert(bytes@.take(at + 1).drop_last() == bytes@.take(at as int));
            assert(bytes@.take(at + 1).last() == b);
        }
        push_char(&mut text, '\\');
        push_char(&mut text, digit_char(b / 64));
        push_char(&mut text, digit_char(b / 8 % 8));
        push_char(&mut text, digit_char(b % 8));
        assert(text@ =~= before + octal_escape(b));
        at += 1;
    }
    assert(bytes@.take(bytes@.len() as int) == bytes@);
    text
}

/// `needle` stands in `hay` at position `at`.
pub open spec fn occurs_at(hay: Seq<char>, needle: Seq<char>, at: int) -> bool {
    0 <= at && at + needle.len() <= hay.len() && hay.subrange(at, at + needle.len()) == needle
}

/// `needle` stands somewhere in `hay`.
pub open spec fn contains_text(hay: Seq<char>, needle: Seq<char>) -> bool {
    exists|at: int| occurs_at(hay, needle, at)
}

/// The characters of `s`, one by one.
pub fn chars_of(s: &str) -> (list: Vec<char>)
    ensures
        list@ == s@,
{
    let mut list: Vec<char> = Vec::new();
    for c in it: s.chars()
        invariant
            it.seq() == s@,
            list@ == s@.take(it.index() as int),
    {
        let ghost before = list@;
        list.push(c);
        assert(list@ =~= s@.take(it.index() + 1));
    }
    assert(s@.take(s@.len() as int) == s@);
    list
}

fn matches_at(hay: &Vec<char>, needle: &Vec<char>, at: usize) -> (found: bool)
    requires
        at + needle.len() <= hay.len(),
    ensures
        found == occurs_at(hay@, needle@, at as int),
{
    let mut k: usize = 0;
    while k < needle.len()
        invariant
            k <= needle.len(),
            at + needle.len() <= hay.len(),
            forall|j: int| 0 <= j < k ==> hay@[at + j] == needle@[j],
        decreases needle.len() - k,
    {
        if hay[at + k] != needle[k] {
            proof {
                let part = hay@.subrange(at as int, at + needle.len());
                assert(part[k as int] == hay@[at + k]);
            }
            return false;
        }
        k += 1;
    }
    assert(hay@.subrange(at as int, at + needle.len()) =~= needle@);
    true
}

/// Whether `needle` stands somewhere in `hay`, character for character.
pub fn contains(hay: &str, needle: &str) -> (found: bool)
    ensures
        found == contains_text(hay@, needle@),
{
    let text = chars_of(hay);
    let word = chars_of(needle);
    if word.len() > text.len() {
        return false;
    }
    let last = text.len() - word.len();
    let mut at: usize = 0;
    while at < last
        invariant
            at <= last,
            last + word.len() == text.len(),
            text@ == hay@,
            word@ == needle@,
            forall|j: int| 0 <= j < at ==> !occurs_at(hay@, needle@, j),
        decreases last - at,
    {
        if matches_at(&text, &word, at) {
            return true;
        }
        at += 1;
    }
    matches_at(&text, &word, last)
}

} // verus!
