//! Text as sequences of characters: searching, trimming, numbers in decimal.

use vstd::prelude::*;

verus! {

/// `String::push` appends the character to the end of the string.
pub assume_specification[ String::push ](s: &mut String, c: char)
    ensures
        final(s)@ == old(s)@.push(c),
;

/// `String::pop` removes the last character and returns it, or returns `None`
/// and leaves the string alone if it is empty.
pub assume_specification[ String::pop ](s: &mut String) -> (last: Option<char>)
    ensures
        old(s)@.len() == 0 ==> last is None && final(s)@ == old(s)@,
        old(s)@.len() > 0 ==> last == Some(old(s)@.last()) && final(s)@ == old(s)@.drop_last(),
;

/// The texts that a list of strings holds.
pub open spec fn texts(strings: Seq<String>) -> Seq<Seq<char>> {
    strings.map_values(|s: String| s@)
}

/// The texts that a table of strings holds, row by row.
pub open spec fn grid(rows: Seq<Vec<String>>) -> Seq<Seq<Seq<char>>> {
    rows.map_values(|row: Vec<String>| texts(row@))
}

/// The text of an optional string.
pub open spec fn opt_text(s: Option<String>) -> Option<Seq<char>> {
    match s {
        Some(t) => Some(t@),
        None => None,
    }
}

/// The items that are present, in their order.
pub open spec fn present<T>(items: Seq<Option<T>>) -> Seq<T>
    decreases items.len(),
{
    if items.len() == 0 {
        Seq::empty()
    } else {
        match items.last() {
            Some(item) => present(items.drop_last()).push(item),
            None => present(items.drop_last()),
        }
    }
}

/// Keeps the items that are present, in their order.
pub fn keep_present<T>(items: Vec<Option<T>>) -> (kept: Vec<T>)
    ensures
        kept@ == present(items@),
{
    let mut kept: Vec<T> = Vec::new();
    for item in it: items
        invariant
            kept@ == present(it.seq().take(it.index())),
            it.seq() == items@,
    {
        proof {
            let done = items@.take(it.index() + 1);
            assert(done.drop_last() == items@.take(it.index()));
            assert(done.last() == item);
        }
        if let Some(value) = item {
            kept.push(value);
        }
    }
    assert(items@.take(items@.len() as int) == items@);
    kept
}

/// The characters of `s`, one by one.
pub fn chars_of(s: &str) -> (chars: Vec<char>)
    ensures
        chars@ == s@,
{
    let mut chars: Vec<char> = Vec::new();
    for c in it: s.chars()
        invariant
            chars@ == it.seq().take(it.index()),
            it.seq() == s@,
    {
        chars.push(c);
    }
    chars
}

/// The digit that stands for `d`.
pub open spec fn digit(d: int) -> char
    recommends
        0 <= d < 10,
{
    (48 + d) as char
}

/// `n` in decimal, without leading zeros.
pub open spec fn digits(n: nat) -> Seq<char>
    decreases n,
{
    if n < 10 {
        seq![digit(n as int)]
    } else {
        digits(n / 10).push(digit((n % 10) as int))
    }
}

/// `n` in decimal, with a leading minus sign if it is negative.
pub open spec fn decimal(n: int) -> Seq<char> {
    if n < 0 {
        seq!['-'] + digits((-n) as nat)
    } else {
        digits(n as nat)
    }
}

fn push_digits(out: &mut String, n: u64)
    ensures
        final(out)@ == old(out)@ + digits(n as nat),
    decreases n,
{
    if n >= 10 {
        push_digits(out, n / 10);
    }
    out.push((48 + (n % 10) as u8) as char);
}

/// The number in decimal.
pub fn decimal_u64(n: u64) -> (text: String)
    ensures
        text@ == decimal(n as int),
{
    let mut text = String::new();
    push_digits(&mut text, n);
    text
}

/// The number in decimal, signed if it is negative.
pub fn decimal_i64(n: i64) -> (text: String)
    ensures
        text@ == decimal(n as int),
{
    let mut text = String::new();
    if n < 0 {
        text.push('-');
        push_digits(&mut text, (-(n as i128)) as u64);
    } else {
        push_digits(&mut text, n as u64);
    }
    text
}

/// Whether `pattern` stands in `s` at position `at`.
pub open spec fn occurs_at(s: Seq<char>, pattern: Seq<char>, at: int) -> bool {
    &&& 0 <= at
    &&& at + pattern.len() <= s.len()
    &&& s.subrange(at, at + pattern.len()) == pattern
}

/// Whether `pattern` stands anywhere in `s`.
pub open spec fn occurs(s: Seq<char>, pattern: Seq<char>) -> bool {
    exists|at: int| occurs_at(s, pattern, at)
}

/// The last position at which `pattern` stands in `s`.
pub open spec fn last_position(s: Seq<char>, pattern: Seq<char>) -> Option<int> {
    last_position_up_to(s, pattern, s.len() - pattern.len())
}

/// The last position, `bound` or before it, at which `pattern` stands in `s`.
pub open spec fn last_position_up_to(s: Seq<char>, pattern: Seq<char>, bound: int) -> Option<int>
    decreases bound + 1,
{
    if bound < 0 {
        None
    } else if occurs_at(s, pattern, bound) {
        Some(bound)
    } else {
        last_position_up_to(s, pattern, bound - 1)
    }
}

/// The position that `last_position_up_to` names is an occurrence with none
/// between it and the bound; it names none only where there is none.
pub proof fn lemma_last_position_up_to(s: Seq<char>, pattern: Seq<char>, bound: int)
    ensures
        match last_position_up_to(s, pattern, bound) {
            Some(at) => {
                &&& at <= bound
                &&& occurs_at(s, pattern, at)
                &&& forall|later: int| at < later <= bound ==> !occurs_at(s, pattern, later)
            },
            None => forall|at: int| at <= bound ==> !occurs_at(s, pattern, at),
        },
    decreases bound + 1,
{
    if bound >= 0 && !occurs_at(s, pattern, bound) {
        lemma_last_position_up_to(s, pattern, bound - 1);
    }
}

/// Whether `pattern` stands in `s` at position `at`.
fn stands_at(s: &Vec<char>, pattern: &Vec<char>, at: usize) -> (found: bool)
    requires
        at + pattern@.len() <= s@.len(),
    ensures
        found == occurs_at(s@, pattern@, at as int),
{
    let total: usize = s.len();
    let mut i: usize = 0;
    while i < pattern.len()
        invariant
            i <= pattern@.len(),
            total == s@.len(),
            at + pattern@.len() <= total,
            forall|j: int| 0 <= j < i ==> s@[at + j] == pattern@[j],
        decreases pattern@.len() - i,
    {
        if s[at + i] != pattern[i] {
            assert(s@.subrange(at as int, at + pattern@.len())[i as int] != pattern@[i as int]);
            return false;
        }
        i += 1;
    }
    assert(s@.subrange(at as int, at + pattern@.len()) == pattern@);
    true
}

/// Whether `pattern` stands anywhere in `s`.
pub fn contains(s: &str, pattern: &str) -> (found: bool)
    ensures
        found == occurs(s@, pattern@),
{
    let chars = chars_of(s);
    let wanted = chars_of(pattern);
    if wanted.len() > chars.len() {
        return false;
    }
    let last: usize = chars.len() - wanted.len();
    let mut at: usize = 0;
    loop
        invariant
            at <= last,
            chars@ == s@,
            wanted@ == pattern@,
            last == chars@.len() - wanted@.len(),
            forall|j: int| j < at ==> !occurs_at(s@, pattern@, j),
        decreases last - at,
    {
        if stands_at(&chars, &wanted, at) {
            return true;
        }
        if at == last {
            return false;
        }
        at += 1;
    }
}

/// The last position at which `pattern` stands in `s`, counted in characters.
pub fn rfind(s: &str, pattern: &str) -> (found: Option<usize>)
    ensures
        match found {
            Some(at) => last_position(s@, pattern@) == Some(at as int),
            None => last_position(s@, pattern@) is None,
        },
        found is Some <==> occurs(s@, pattern@),
        found matches Some(at) ==> occurs_at(s@, pattern@, at as int),
{
    let chars = chars_of(s);
    let wanted = chars_of(pattern);
    proof {
        lemma_last_position_up_to(s@, pattern@, s@.len() - pattern@.len());
    }
    if wanted.len() > chars.len() {
        return None;
    }
    let mut bound: usize = chars.len() - wanted.len();
    loop
        invariant
            chars@ == s@,
            wanted@ == pattern@,
            bound + wanted@.len() <= chars@.len(),
            last_position(s@, pattern@) == last_position_up_to(s@, pattern@, bound as int),
            forall|j: int| bound < j ==> !occurs_at(s@, pattern@, j),
        decreases bound,
    {
        if stands_at(&chars, &wanted, bound) {
            return Some(bound);
        }
        if bound == 0 {
            reveal_with_fuel(last_position_up_to, 2);
            return None;
        }
        bound -= 1;
    }
}

/// Whether a character has the Unicode property `White_Space`.
pub open spec fn is_white_space(c: char) -> bool {
    let code = c as int;
    ||| 0x09 <= code <= 0x0d
    ||| code == 0x20
    ||| code == 0x85
    ||| code == 0xa0
    ||| code == 0x1680
    ||| 0x2000 <= code <= 0x200a
    ||| code == 0x2028
    ||| code == 0x2029
    ||| code == 0x202f
    ||| code == 0x205f
    ||| code == 0x3000
}

/// Whether a character has the Unicode property `White_Space`.
pub fn is_white(c: char) -> (white: bool)
    ensures
        white == is_white_space(c),
{
    let code: u32 = c as u32;
    (0x09 <= code && code <= 0x0d) || code == 0x20 || code == 0x85 || code == 0xa0 || code == 0x1680
        || (0x2000 <= code && code <= 0x200a) || code == 0x2028 || code == 0x2029 || code == 0x202f
        || code == 0x205f || code == 0x3000
}

/// `s` without the white space it starts with.
pub open spec fn trimmed_start(s: Seq<char>) -> Seq<char>
    decreases s.len(),
{
    if s.len() > 0 && is_white_space(s[0]) {
        trimmed_start(s.drop_first())
    } else {
        s
    }
}

/// `s` without the white space it ends with.
pub open spec fn trimmed_end(s: Seq<char>) -> Seq<char>
    decreases s.len(),
{
    if s.len() > 0 && is_white_space(s.last()) {
        trimmed_end(s.drop_last())
    } else {
        s
    }
}

/// `s` without the white space around it.
pub open spec fn trimmed(s: Seq<char>) -> Seq<char> {
    trimmed_end(trimmed_start(s))
}

/// `s` without the white space around it.
pub fn trim(s: &str) -> (inner: &str)
    ensures
        inner@ == trimmed(s@),
{
    let chars = chars_of(s);
    let mut from: usize = 0;
    assert(s@.skip(0) == s@);
    while from < chars.len() && is_white(chars[from])
        invariant
            from <= chars@.len(),
            chars@ == s@,
            trimmed_start(s@) == trimmed_start(s@.skip(from as int)),
        decreases chars@.len() - from,
    {
        assert(s@.skip(from as int).drop_first() == s@.skip(from + 1));
        from += 1;
    }
    let mut to: usize = chars.len();
    assert(s@.subrange(from as int, to as int) == s@.skip(from as int));
    while from < to && is_white(chars[to - 1])
        invariant
            from <= to <= chars@.len(),
            chars@ == s@,
            trimmed(s@) == trimmed_end(s@.subrange(from as int, to as int)),
        decreases to,
    {
        assert(s@.subrange(from as int, to as int).drop_last() == s@.subrange(
            from as int,
            to - 1,
        ));
        to -= 1;
    }
    s.substring_char(from, to)
}

} // verus!
