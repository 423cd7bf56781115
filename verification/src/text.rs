use vstd::prelude::*;

verus! {

/// A name for what `char::is_whitespace` answers for `c`: whether `c` has the
/// Unicode property White_Space. Nothing is assumed of which characters
/// have it.
pub uninterp spec fn unicode_whitespace(c: char) -> bool;

/// A name for what `char::is_alphanumeric` answers for `c`: whether `c` is a
/// letter or a number of some script. Nothing is assumed of which
/// characters are.
pub uninterp spec fn unicode_alphanumeric(c: char) -> bool;

/// Assumed of `char::is_whitespace`, not proved: its answer depends on the
/// character alone. The tables of Unicode are not restated; the answer is
/// what `unicode_whitespace` names.
pub assume_specification[ char::is_whitespace ](c: char) -> (b: bool)
    ensures
        b == unicode_whitespace(c),
;

/// Assumed of `char::is_alphanumeric`, not proved: its answer depends on the
/// character alone. The tables of Unicode are not restated; the answer is
/// what `unicode_alphanumeric` names.
pub assume_specification[ char::is_alphanumeric ](c: char) -> (b: bool)
    ensures
        b == unicode_alphanumeric(c),
;

/// Assumed of `String::push`, not proved: it appends the one character `ch`
/// to the end of the string and changes nothing else of it.
pub assume_specification[ String::push ](s: &mut String, ch: char)
    ensures
        final(s)@ == old(s)@.push(ch),
;

/// The characters of `s`, in order.
pub fn chars_of(s: &str) -> (v: Vec<char>)
    ensures
        v@ == s@,
{
    let mut v: Vec<char> = Vec::new();
    for c in it: s.chars()
        invariant
            v@ == it.seq().take(it.index() as int),
            it.seq() == s@,
    {
        v.push(c);
    }
    v
}

/// The text of a string that may be missing.
pub open spec fn text_of(value: Option<String>) -> Option<Seq<char>> {
    match value {
        Some(s) => Some(s@),
        None => None,
    }
}

/// A run of `n` spaces.
pub open spec fn blanks(n: int) -> Seq<char> {
    Seq::new(n as nat, |i: int| ' ')
}

/// The number of characters of `s`.
pub fn char_count(s: &String) -> (n: usize)
    ensures
        n == s@.len(),
{
    s.as_str().unicode_len()
}

/// The characters `from..to` of `s`.
pub fn slice_chars(s: &String, from: usize, to: usize) -> (r: String)
    requires
        from <= to <= s@.len(),
    ensures
        r@ == s@.subrange(from as int, to as int),
{
    String::from_str(s.as_str().substring_char(from, to))
}

/// `s` without its characters `from..to`.
pub fn remove_chars(s: &String, from: usize, to: usize) -> (r: String)
    requires
        from <= to <= s@.len(),
    ensures
        r@ == s@.subrange(0, from as int) + s@.subrange(to as int, s@.len() as int),
{
    let n = char_count(s);
    let mut r = slice_chars(s, 0, from);
    r.append(s.as_str().substring_char(to, n));
    r
}

/// `a` followed by `b`.
pub fn join_strings(a: &String, b: &String) -> (r: String)
    ensures
        r@ == a@ + b@,
{
    let mut r = a.clone();
    r.append(b.as_str());
    r
}

/// `s` with `piece` put in before its character `at`.
pub fn insert_chars(s: &String, at: usize, piece: &String) -> (r: String)
    requires
        at <= s@.len(),
    ensures
        r@ == s@.subrange(0, at as int) + piece@ + s@.subrange(at as int, s@.len() as int),
{
    let n = char_count(s);
    let mut r = slice_chars(s, 0, at);
    r.append(piece.as_str());
    r.append(s.as_str().substring_char(at, n));
    r
}

/// A string of `n` spaces.
pub fn spaces(n: usize) -> (r: String)
    ensures
        r@ == blanks(n as int),
{
    let mut r = String::new();
    let mut i: usize = 0;
    while i < n
        invariant
            i <= n,
            r@ == blanks(i as int),
        decreases n - i,
    {
        r.push(' ');
        i += 1;
        assert(r@ =~= blanks(i as int));
    }
    assert(r@ =~= blanks(n as int));
    r
}

/// The string that holds the one character `c`.
pub fn string_of_char(c: char) -> (r: String)
    ensures
        r@ == seq![c],
{
    let mut r = String::new();
    r.push(c);
    assert(r@ =~= seq![c]);
    r
}

/// The character that writes a decimal digit.
pub open spec fn digit_char(d: int) -> char {
    if d == 0 {
        '0'
    } else if d == 1 {
        '1'
    } else if d == 2 {
        '2'
    } else if d == 3 {
        '3'
    } else if d == 4 {
        '4'
    } else if d == 5 {
        '5'
    } else if d == 6 {
        '6'
    } else if d == 7 {
        '7'
    } else if d == 8 {
        '8'
    } else {
        '9'
    }
}

/// The decimal digits that write `n`, without leading zeros.
pub open spec fn decimal_text(n: nat) -> Seq<char>
    decreases n,
{
    if n < 10 {
        seq![digit_char(n as int)]
    } else {
        decimal_text(n / 10).push(digit_char((n % 10) as int))
    }
}

/// The character that writes the decimal digit `d`.
pub fn digit_to_char(d: usize) -> (c: char)
    requires
        d < 10,
    ensures
        c == digit_char(d as int),
{
    match d {
        0 => '0',
        1 => '1',
        2 => '2',
        3 => '3',
        4 => '4',
        5 => '5',
        6 => '6',
        7 => '7',
        8 => '8',
        _ => '9',
    }
}

/// `n` written in decimal digits.
pub fn number_text(n: usize) -> (text: String)
    ensures
        text@ == decimal_text(n as nat),
    decreases n,
{
    if n < 10 {
        string_of_char(digit_to_char(n))
    } else {
        let mut text = number_text(n / 10);
        text.push(digit_to_char(n % 10));
        text
    }
}

} // verus!
