//! Numbers as text and text as numbers.
use vstd::prelude::*;
use vstd::string::*;

verus! {

/// The character of a decimal digit.
pub open spec fn spec_digit(d: nat) -> char
    recommends
        d < 10,
{
    if d == 0 {
        '0'
    } else if d == 1 {
        '1'
    } else if d == 2 {
        '2'
    } else if d == 3 {
        '3'
    } else if d == 4 {
        '4'
    } else if d == 5 {
        '5'
    } else if d == 6 {
        '6'
    } else if d == 7 {
        '7'
    } else if d == 8 {
        '8'
    } else {
        '9'
    }
}

/// The decimal notation of `n`: no sign, no leading zero, `"0"` for zero.
pub open spec fn spec_decimal(n: nat) -> Seq<char>
    decreases n,
{
    if n < 10 {
        seq![spec_digit(n)]
    } else {
        spec_decimal(n / 10).push(spec_digit(n % 10))
    }
}

/// The text of one decimal digit.
fn digit_str(d: u64) -> (s: &'static str)
    requires
        d < 10,
    ensures
        s@ == seq![spec_digit(d as nat)],
{
    proof {
        reveal_strlit("0");
        reveal_strlit("1");
        reveal_strlit("2");
        reveal_strlit("3");
        reveal_strlit("4");
        reveal_strlit("5");
        reveal_strlit("6");
        reveal_strlit("7");
        reveal_strlit("8");
        reveal_strlit("9");
    }
    let s = if d == 0 {
        "0"
    } else if d == 1 {
        "1"
    } else if d == 2 {
        "2"
    } else if d == 3 {
        "3"
    } else if d == 4 {
        "4"
    } else if d == 5 {
        "5"
    } else if d == 6 {
        "6"
    } else if d == 7 {
        "7"
    } else if d == 8 {
        "8"
    } else {
        "9"
    };
    assert(s@ =~= seq![spec_digit(d as nat)]);
    s
}

/// Appends the decimal notation of `n` to `out`.
pub fn push_decimal(out: &mut String, n: u64)
    ensures
        final(out)@ == old(out)@ + spec_decimal(n as nat),
    decreases n,
{
    if n >= 10 {
        push_decimal(out, n / 10);
    }
    out.append(digit_str(n % 10));
    assert(out@ =~= old(out)@ + spec_decimal(n as nat));
}

/// The decimal notation of `n`.
pub fn decimal(n: u64) -> (s: String)
    ensures
        s@ == spec_decimal(n as nat),
{
    let mut s = String::from_str("");
    proof {
        reveal_strlit("");
    }
    push_decimal(&mut s, n);
    assert(s@ =~= spec_decimal(n as nat));
    s
}

/// Whether `c` is white space: a character with the Unicode property `White_Space`.
pub open spec fn spec_is_whitespace(c: char) -> bool {
    let u = c as u32;
    ||| 0x09 <= u <= 0x0D
    ||| u == 0x20
    ||| u == 0x85
    ||| u == 0xA0
    ||| u == 0x1680
    ||| 0x2000 <= u <= 0x200A
    ||| u == 0x2028
    ||| u == 0x2029
    ||| u == 0x202F
    ||| u == 0x205F
    ||| u == 0x3000
}

/// Whether `c` is white space.
pub fn is_whitespace(c: char) -> (b: bool)
    ensures
        b == spec_is_whitespace(c),
{
    let u: u32 = c as u32;
    (0x09 <= u && u <= 0x0D) || u == 0x20 || u == 0x85 || u == 0xA0 || u == 0x1680 || (0x2000 <= u
        && u <= 0x200A) || u == 0x2028 || u == 0x2029 || u == 0x202F || u == 0x205F || u == 0x3000
}

/// The words of the text `word + s`, where `word` is the beginning of a word: the longest
/// runs of characters that are not white space, in order.
pub open spec fn spec_words_from(s: Seq<char>, word: Seq<char>) -> Seq<Seq<char>>
    decreases s.len(),
{
    let finished = if word.len() > 0 {
        seq![word]
    } else {
        Seq::empty()
    };
    if s.len() == 0 {
        finished
    } else if spec_is_whitespace(s[0]) {
        finished + spec_words_from(s.drop_first(), Seq::empty())
    } else {
        spec_words_from(s.drop_first(), word.push(s[0]))
    }
}

/// The words of a text: the longest runs of characters that are not white space, in order.
pub open spec fn spec_words(s: Seq<char>) -> Seq<Seq<char>> {
    spec_words_from(s, Seq::empty())
}

/// A list of words, as a mathematical value.
pub open spec fn words_view(words: Seq<Vec<char>>) -> Seq<Seq<char>> {
    Seq::new(words.len(), |i: int| words[i]@)
}

/// Splits a text into its words.
pub fn words(s: &str) -> (found: Vec<Vec<char>>)
    ensures
        words_view(found@) == spec_words(s@),
{
    let mut found: Vec<Vec<char>> = Vec::new();
    let mut word: Vec<char> = Vec::new();
    assert(s@.skip(0) =~= s@);
    assert(words_view(found@) + spec_words(s@) =~= spec_words(s@));
    for c in it: s.chars()
        invariant
            it.seq() == s@,
            spec_words(s@) == words_view(found@) + spec_words_from(s@.skip(it.index()), word@),
    {
        let ghost i = it.index();
        let ghost rest = s@.skip(i);
        let ghost before = words_view(found@);
        let ghost started = word@;
        assert(rest.len() > 0 && rest[0] == c);
        assert(rest.drop_first() =~= s@.skip(i + 1));
        if is_whitespace(c) {
            if word.len() > 0 {
                found.push(word);
                word = Vec::new();
                assert(words_view(found@) =~= before + seq![started]);
                assert(spec_words_from(rest, started) == seq![started] + spec_words_from(
                    rest.drop_first(),
                    Seq::empty(),
                ));
                assert(spec_words(s@) =~= words_view(found@) + spec_words_from(
                    rest.drop_first(),
                    word@,
                ));
            } else {
                assert(spec_words_from(rest, started) =~= spec_words_from(
                    rest.drop_first(),
                    Seq::empty(),
                ));
                assert(word@ =~= Seq::<char>::empty());
            }
        } else {
            word.push(c);
            assert(spec_words_from(rest, started) == spec_words_from(
                rest.drop_first(),
                started.push(c),
            ));
        }
    }
    assert(s@.skip(s@.len() as int).len() == 0);
    if word.len() > 0 {
        let ghost before = words_view(found@);
        let ghost done = word@;
        found.push(word);
        assert(words_view(found@) =~= before + seq![done]);
    } else {
        assert(words_view(found@) + Seq::<Seq<char>>::empty() =~= words_view(found@));
    }
    found
}

/// Whether the characters of `word` from position `skip` on spell `text`.
pub fn spells(word: &Vec<char>, skip: usize, text: &str) -> (same: bool)
    ensures
        same == (skip <= word@.len() && word@.skip(skip as int) == text@),
{
    if skip > word.len() {
        return false;
    }
    let n = text.unicode_len();
    if word.len() - skip != n {
        return false;
    }
    let mut i: usize = 0;
    while i < n
        invariant
            n == text@.len(),
            skip <= word@.len(),
            word@.len() <= usize::MAX,
            word@.len() - skip == n,
            i <= n,
            forall|j: int| 0 <= j < i ==> word@[skip + j] == text@[j],
        decreases n - i,
    {
        assert(skip + i < word@.len());
        if word[skip + i] != text.get_char(i) {
            assert(word@.skip(skip as int)[i as int] != text@[i as int]);
            return false;
        }
        i += 1;
    }
    assert(word@.skip(skip as int) =~= text@);
    true
}

/// The value of a decimal digit, or `None` for any other character.
pub open spec fn spec_digit_value(c: char) -> Option<nat> {
    let u = c as u32;
    if 0x30 <= u <= 0x39 {
        Some((u - 0x30) as nat)
    } else {
        None
    }
}

/// The number that a run of decimal digits denotes, or `None` where the run is empty or
/// holds anything but digits.
pub open spec fn spec_number(s: Seq<char>) -> Option<nat>
    decreases s.len(),
{
    if s.len() == 0 {
        None
    } else {
        match spec_digit_value(s.last()) {
            None => None,
            Some(d) => if s.len() == 1 {
                Some(d)
            } else {
                match spec_number(s.drop_last()) {
                    Some(v) => Some(v * 10 + d),
                    None => None,
                }
            },
        }
    }
}

/// The number that a word denotes: decimal digits, after one `+` or none, with a value of at
/// most 2^32 - 1. Any other word denotes no number.
pub open spec fn spec_parse_u32(s: Seq<char>) -> Option<u32> {
    let digits = if s.len() > 0 && s[0] == '+' {
        s.drop_first()
    } else {
        s
    };
    match spec_number(digits) {
        Some(v) => if v <= u32::MAX {
            Some(v as u32)
        } else {
            None
        },
        None => None,
    }
}

/// Once a run of digits denotes a number, every longer run of digits denotes one at least as
/// large; and a run that has a prefix that denotes none denotes none.
proof fn lemma_number_grows(s: Seq<char>, k: int)
    requires
        1 <= k <= s.len(),
    ensures
        spec_number(s.take(k)) is None ==> spec_number(s) is None,
        spec_number(s.take(k)) is Some && spec_number(s) is Some ==> spec_number(s.take(k))->0
            <= spec_number(s)->0,
    decreases s.len() - k,
{
    if k < s.len() {
        lemma_number_grows(s.drop_last(), k);
        assert(s.drop_last().take(k) =~= s.take(k));
    } else {
        assert(s.take(k) =~= s);
    }
}

/// Reads a word as a number.
pub fn parse_u32(word: &Vec<char>) -> (parsed: Option<u32>)
    ensures
        parsed == spec_parse_u32(word@),
{
    let start: usize = if word.len() > 0 && word[0] == '+' {
        1
    } else {
        0
    };
    let ghost digits = if word@.len() > 0 && word@[0] == '+' {
        word@.drop_first()
    } else {
        word@
    };
    assert(digits =~= word@.skip(start as int));
    if start == word.len() {
        return None;
    }
    let mut value: u64 = 0;
    let mut i: usize = start;
    while i < word.len()
        invariant
            start <= i <= word@.len(),
            start < word@.len(),
            digits == word@.skip(start as int),
            digits == if word@.len() > 0 && word@[0] == '+' {
                word@.drop_first()
            } else {
                word@
            },
            value <= u32::MAX,
            i > start ==> spec_number(digits.take(i - start)) == Some(value as nat),
            i == start ==> value == 0,
        decreases word@.len() - i,
    {
        let u: u32 = word[i] as u32;
        let ghost prefix = digits.take(i - start + 1);
        assert(prefix.last() == word@[i as int]);
        assert(prefix.drop_last() =~= digits.take(i - start));
        if u < 0x30 || u > 0x39 {
            proof {
                assert(spec_digit_value(prefix.last()) is None);
                assert(spec_number(prefix) is None);
                lemma_number_grows(digits, i - start + 1);
            }
            return None;
        }
        let d: u64 = (u - 0x30) as u64;
        value = value * 10 + d;
        proof {
            assert(spec_digit_value(prefix.last()) == Some(d as nat));
            if i == start {
                assert(prefix.len() == 1);
            } else {
                assert(prefix.len() > 1);
            }
            assert(spec_number(prefix) == Some(value as nat));
        }
        if value > 0xFFFF_FFFF {
            proof {
                lemma_number_grows(digits, i - start + 1);
            }
            return None;
        }
        i += 1;
    }
    assert(digits.take(i - start) =~= digits);
    Some(value as u32)
}

} // verus!
