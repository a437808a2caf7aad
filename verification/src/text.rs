//! Operations on text, stated over sequences of characters.

use vstd::prelude::*;
use vstd::string::*;

verus! {

/// `s` without the run of `c` at its end.
pub open spec fn trim_end(s: Seq<char>, c: char) -> Seq<char>
    decreases s.len(),
{
    if s.len() > 0 && s.last() == c {
        trim_end(s.drop_last(), c)
    } else {
        s
    }
}

/// `s` without the run of `c` at its start.
pub open spec fn trim_start(s: Seq<char>, c: char) -> Seq<char>
    decreases s.len(),
{
    if s.len() > 0 && s.first() == c {
        trim_start(s.drop_first(), c)
    } else {
        s
    }
}

/// The first `n` characters of `s`, or all of `s` where it has fewer.
pub open spec fn prefix(s: Seq<char>, n: nat) -> Seq<char> {
    if n < s.len() {
        s.take(n as int)
    } else {
        s
    }
}

/// The character that stands for the digit `d`.
pub open spec fn digit(d: nat) -> char {
    if d == 0 {
        '0'
    } else if d == 1 {
        '1'
    } else if d == 2 {
        '2'
    } else if d == 3 {
        '3'
    } else if d == 4 {
        '4'
    } else if d == 5 {
        '5'
    } else if d == 6 {
        '6'
    } else if d == 7 {
        '7'
    } else if d == 8 {
        '8'
    } else {
        '9'
    }
}

/// `n` written in base ten, without leading zeros.
pub open spec fn decimal(n: nat) -> Seq<char>
    decreases n,
{
    if n < 10 {
        seq![digit(n)]
    } else {
        decimal(n / 10).push(digit(n % 10))
    }
}

/// Where the prefix `s.take(keep)` stops before a run of `c` that reaches the
/// end of `s`, and does not itself end in `c`, it is `s` trimmed at the end.
pub proof fn lemma_trim_end_is_take(s: Seq<char>, c: char, keep: int)
    requires
        0 <= keep <= s.len(),
        forall|j: int| keep <= j < s.len() ==> s[j] == c,
        keep > 0 ==> s[keep - 1] != c,
    ensures
        trim_end(s, c) == s.take(keep),
    decreases s.len() - keep,
{
    if keep == s.len() {
        assert(s.take(keep) =~= s);
    } else {
        let shorter = s.drop_last();
        assert(s.last() == c);
        lemma_trim_end_is_take(shorter, c, keep);
        assert(shorter.take(keep) =~= s.take(keep));
    }
}

/// Where `s.skip(from)` follows a run of `c` that starts `s`, and does not
/// itself start with `c`, it is `s` trimmed at the start.
pub proof fn lemma_trim_start_is_skip(s: Seq<char>, c: char, from: int)
    requires
        0 <= from <= s.len(),
        forall|j: int| 0 <= j < from ==> s[j] == c,
        from < s.len() ==> s[from] != c,
    ensures
        trim_start(s, c) == s.skip(from),
    decreases from,
{
    if from == 0 {
        assert(s.skip(0) =~= s);
    } else {
        let shorter = s.drop_first();
        assert(s.first() == c);
        assert forall|j: int| 0 <= j < from - 1 implies shorter[j] == c by {
            assert(shorter[j] == s[j + 1]);
        }
        lemma_trim_start_is_skip(shorter, c, from - 1);
        assert(shorter.skip(from - 1) =~= s.skip(from));
    }
}

/// The characters of `s`, in order.
pub fn chars_of(s: &str) -> (v: Vec<char>)
    ensures
        v@ == s@,
{
    let mut v: Vec<char> = Vec::new();
    for c in it: s.chars()
        invariant
            it.seq() == s@,
            v@ == s@.take(it.index() as int),
    {
        v.push(c);
    }
    v
}

/// Whether `s` ends with `suffix`.
pub fn ends_with(s: &str, suffix: &str) -> (r: bool)
    ensures
        r == suffix@.is_suffix_of(s@),
{
    let whole = chars_of(s);
    let end = chars_of(suffix);
    if end.len() > whole.len() {
        return false;
    }
    let offset: usize = whole.len() - end.len();
    let mut i: usize = 0;
    while i < end.len()
        invariant
            i <= end.len(),
            whole@ == s@,
            end@ == suffix@,
            offset + end.len() == whole.len(),
            forall|j: int| 0 <= j < i ==> end@[j] == whole@[offset + j],
        decreases end.len() - i,
    {
        if end[i] != whole[offset + i] {
            proof {
                let tail = whole@.subrange(offset as int, whole@.len() as int);
                assert(tail[i as int] == whole@[offset + i]);
            }
            return false;
        }
        i = i + 1;
    }
    assert(end@ =~= whole@.subrange(offset as int, whole@.len() as int));
    true
}

/// Whether `s` starts with `start`.
pub fn starts_with(s: &str, start: &str) -> (r: bool)
    ensures
        r == start@.is_prefix_of(s@),
{
    let whole = chars_of(s);
    let begin = chars_of(start);
    if begin.len() > whole.len() {
        return false;
    }
    let mut i: usize = 0;
    while i < begin.len()
        invariant
            i <= begin.len(),
            whole@ == s@,
            begin@ == start@,
            begin.len() <= whole.len(),
            forall|j: int| 0 <= j < i ==> begin@[j] == whole@[j],
        decreases begin.len() - i,
    {
        if begin[i] != whole[i] {
            proof {
                let head = whole@.subrange(0, begin@.len() as int);
                assert(head[i as int] == whole@[i as int]);
            }
            return false;
        }
        i = i + 1;
    }
    assert(begin@ =~= whole@.subrange(0, begin@.len() as int));
    true
}

/// Whether `a` and `b` hold the same characters.
pub fn same_text(a: &str, b: &str) -> (r: bool)
    ensures
        r == (a@ == b@),
{
    let left = chars_of(a);
    let right = chars_of(b);
    if left.len() != right.len() {
        return false;
    }
    let mut i: usize = 0;
    while i < left.len()
        invariant
            i <= left.len(),
            left@ == a@,
            right@ == b@,
            left.len() == right.len(),
            forall|j: int| 0 <= j < i ==> left@[j] == right@[j],
        decreases left.len() - i,
    {
        if left[i] != right[i] {
            return false;
        }
        i = i + 1;
    }
    assert(left@ =~= right@);
    true
}

/// Whether `c` occurs in `s`.
pub fn contains_char(s: &str, c: char) -> (r: bool)
    ensures
        r == s@.contains(c),
{
    let chars = chars_of(s);
    let mut i: usize = 0;
    while i < chars.len()
        invariant
            i <= chars.len(),
            chars@ == s@,
            forall|j: int| 0 <= j < i ==> chars@[j] != c,
        decreases chars.len() - i,
    {
        if chars[i] == c {
            assert(s@[i as int] == c);
            return true;
        }
        i = i + 1;
    }
    false
}

/// `s` without the run of `c` at its end.
pub fn trim_end_matches(s: &str, c: char) -> (r: &str)
    ensures
        r@ == trim_end(s@, c),
{
    let chars = chars_of(s);
    let mut keep: usize = chars.len();
    while keep > 0 && chars[keep - 1] == c
        invariant
            keep <= chars.len(),
            forall|j: int| keep <= j < chars.len() ==> chars@[j] == c,
        decreases keep,
    {
        keep = keep - 1;
    }
    proof {
        lemma_trim_end_is_take(s@, c, keep as int);
    }
    s.substring_char(0, keep)
}

/// `s` without the run of `c` at its start.
pub fn trim_start_matches(s: &str, c: char) -> (r: &str)
    ensures
        r@ == trim_start(s@, c),
{
    let chars = chars_of(s);
    let mut from: usize = 0;
    while from < chars.len() && chars[from] == c
        invariant
            from <= chars.len(),
            forall|j: int| 0 <= j < from ==> chars@[j] == c,
        decreases chars.len() - from,
    {
        from = from + 1;
    }
    proof {
        lemma_trim_start_is_skip(s@, c, from as int);
    }
    s.substring_char(from, chars.len())
}

/// The first `n` characters of `s`, or all of `s` where it has fewer.
pub fn take_chars(s: &str, n: usize) -> (r: &str)
    ensures
        r@ == prefix(s@, n as nat),
{
    let len = s.unicode_len();
    if n < len {
        s.substring_char(0, n)
    } else {
        s
    }
}

/// `a` followed by `b`.
pub fn join(a: &str, b: &str) -> (r: String)
    ensures
        r@ == a@ + b@,
{
    String::from_str(a).concat(b)
}

/// The digit `d` as text.
fn digit_text(d: u16) -> (r: &'static str)
    requires
        d < 10,
    ensures
        r@ == seq![digit(d as nat)],
{
    proof {
        reveal_strlit("0");
        reveal_strlit("1");
        reveal_strlit("2");
        reveal_strlit("3");
        reveal_strlit("4");
        reveal_strlit("5");
        reveal_strlit("6");
        reveal_strlit("7");
        reveal_strlit("8");
        reveal_strlit("9");
    }
    let r = if d == 0 {
        "0"
    } else if d == 1 {
        "1"
    } else if d == 2 {
        "2"
    } else if d == 3 {
        "3"
    } else if d == 4 {
        "4"
    } else if d == 5 {
        "5"
    } else if d == 6 {
        "6"
    } else if d == 7 {
        "7"
    } else if d == 8 {
        "8"
    } else {
        "9"
    };
    assert(r@ =~= seq![digit(d as nat)]);
    r
}

/// `n` written in base ten, without leading zeros.
pub fn decimal_text(n: u16) -> (r: String)
    ensures
        r@ == decimal(n as nat),
    decreases n,
{
    if n < 10 {
        String::from_str(digit_text(n))
    } else {
        let mut r = decimal_text(n / 10);
        r.append(digit_text(n % 10));
        assert(r@ =~= decimal((n / 10) as nat).push(digit((n % 10) as nat)));
        r
    }
}

} // verus!
