//! Character-level string utilities the configuration parser is built on:
//! equality, separator splitting, and decimal integer reading, each against
//! a mathematical model of the operation.

use vstd::prelude::*;

verus! {

/// Character-wise string equality.
pub fn str_eq(a: &str, b: &str) -> (r: bool)
    ensures
        r == (a@ == b@),
{
    let n = a.unicode_len();
    if n != b.unicode_len() {
        return false;
    }
    for i in 0..n
        invariant
            n == a@.len(),
            n == b@.len(),
            forall|j: int| 0 <= j < i ==> a@[j] == b@[j],
    {
        if a.get_char(i) != b.get_char(i) {
            return false;
        }
    }
    proof {
        assert(a@ =~= b@);
    }
    true
}

/// Splitting a character sequence on a separator: one part more than there
/// are separators, in order, none containing the separator.
pub open spec fn spec_split(s: Seq<char>, sep: char) -> Seq<Seq<char>>
    decreases s.len(),
{
    if s.len() == 0 {
        seq![Seq::<char>::empty()]
    } else if s[0] == sep {
        seq![Seq::<char>::empty()] + spec_split(s.subrange(1, s.len() as int), sep)
    } else {
        let rest = spec_split(s.subrange(1, s.len() as int), sep);
        seq![seq![s[0]] + rest[0]] + rest.subrange(1, rest.len() as int)
    }
}

/// A split has at least one part.
proof fn lemma_split_nonempty(s: Seq<char>, sep: char)
    ensures
        spec_split(s, sep).len() >= 1,
    decreases s.len(),
{
    if s.len() > 0 {
        lemma_split_nonempty(s.subrange(1, s.len() as int), sep);
    }
}

/// A sequence without the separator splits into itself alone.
proof fn lemma_split_no_sep(s: Seq<char>, sep: char)
    requires
        forall|k: int| 0 <= k < s.len() ==> s[k] != sep,
    ensures
        spec_split(s, sep) =~= seq![s],
    decreases s.len(),
{
    if s.len() == 0 {
        assert(spec_split(s, sep) == seq![Seq::<char>::empty()]);
        assert(s =~= Seq::<char>::empty());
    } else {
        let tail = s.subrange(1, s.len() as int);
        lemma_split_no_sep(tail, sep);
        lemma_split_nonempty(tail, sep);
        assert(seq![s[0]] + tail =~= s);
        assert(spec_split(s, sep) =~= seq![s]);
    }
}

/// Splitting at the first separator: the part before it, then the split of
/// what follows it.
proof fn lemma_split_at_first(s: Seq<char>, sep: char, i: int)
    requires
        0 <= i < s.len(),
        s[i] == sep,
        forall|k: int| 0 <= k < i ==> s[k] != sep,
    ensures
        spec_split(s, sep) =~= seq![s.subrange(0, i)] + spec_split(
            s.subrange(i + 1, s.len() as int),
            sep,
        ),
    decreases i,
{
    let tail = s.subrange(1, s.len() as int);
    if i == 0 {
        assert(s.subrange(0, 0) =~= Seq::<char>::empty());
    } else {
        assert(tail[i - 1] == sep);
        lemma_split_at_first(tail, sep, i - 1);
        lemma_split_nonempty(tail.subrange(i, tail.len() as int), sep);
        assert(seq![s[0]] + tail.subrange(0, i - 1) =~= s.subrange(0, i));
        assert(tail.subrange(i, tail.len() as int) =~= s.subrange(i + 1, s.len() as int));
    }
}

/// The view of each part of a split.
pub open spec fn split_views(parts: Seq<String>) -> Seq<Seq<char>> {
    parts.map_values(|p: String| p@)
}

/// Position of the first occurrence of `sep`, if any.
fn find_sep(s: &str, sep: char) -> (r: Option<usize>)
    ensures
        r matches Some(i) ==> i < s@.len() && s@[i as int] == sep && (forall|k: int|
            0 <= k < i ==> s@[k] != sep),
        r is None ==> forall|k: int| 0 <= k < s@.len() ==> s@[k] != sep,
{
    let n = s.unicode_len();
    for i in 0..n
        invariant
            n == s@.len(),
            forall|k: int| 0 <= k < i ==> s@[k] != sep,
    {
        if s.get_char(i) == sep {
            return Some(i);
        }
    }
    None
}

/// Split a string on a separator character.
pub fn split_str(s: &str, sep: char) -> (parts: Vec<String>)
    ensures
        split_views(parts@) =~= spec_split(s@, sep),
    decreases s@.len(),
{
    let n = s.unicode_len();
    let found = find_sep(s, sep);
    if found.is_none() {
        proof {
            lemma_split_no_sep(s@, sep);
        }
        let mut parts: Vec<String> = Vec::new();
        parts.push(String::from_str(s));
        return parts;
    }
    let i = match found {
        Some(i) => i,
        None => 0,
    };
    let head = s.substring_char(0, i);
    let tail = s.substring_char(i + 1, n);
    let rest = split_str(tail, sep);
    let mut parts: Vec<String> = Vec::new();
    parts.push(String::from_str(head));
    let mut k: usize = 0;
    let m = rest.len();
    while k < m
        invariant
            m == rest@.len(),
            0 <= k <= m,
            parts@.len() == 1 + k,
            parts@[0]@ == head@,
            forall|j: int| 0 <= j < k ==> parts@[1 + j] == rest@[j],
        decreases m - k,
    {
        let p = rest[k].clone();
        parts.push(p);
        k += 1;
    }
    proof {
        lemma_split_at_first(s@, sep, i as int);
        assert(split_views(parts@) =~= seq![head@] + split_views(rest@));
        assert(split_views(parts@) =~= spec_split(s@, sep));
    }
    parts
}

/// A decimal digit.
pub open spec fn is_digit(c: char) -> bool {
    '0' <= c && c <= '9'
}

/// Numeric value of a digit.
pub open spec fn digit_val(c: char) -> int {
    c as int - '0' as int
}

/// Value of an unsigned decimal digit string.
pub open spec fn dec_value(s: Seq<char>) -> int
    decreases s.len(),
{
    if s.len() == 0 {
        0
    } else {
        dec_value(s.subrange(0, s.len() - 1)) * 10 + digit_val(s[s.len() - 1])
    }
}

/// A well-formed signed decimal: an optional sign followed by at least one
/// digit.
pub open spec fn is_signed_dec(s: Seq<char>) -> bool {
    if s.len() == 0 {
        false
    } else if s[0] == '-' || s[0] == '+' {
        s.len() > 1 && (forall|k: int| 1 <= k < s.len() ==> is_digit(s[k]))
    } else {
        forall|k: int| 0 <= k < s.len() ==> is_digit(s[k])
    }
}

/// The signed value of a well-formed signed decimal.
pub open spec fn signed_dec_value(s: Seq<char>) -> int {
    if s.len() > 0 && s[0] == '-' {
        -dec_value(s.subrange(1, s.len() as int))
    } else if s.len() > 0 && s[0] == '+' {
        dec_value(s.subrange(1, s.len() as int))
    } else {
        dec_value(s)
    }
}

/// The digit character of one digit value.
pub open spec fn digit_char(d: int) -> char {
    if d == 0 {
        '0'
    } else if d == 1 {
        '1'
    } else if d == 2 {
        '2'
    } else if d == 3 {
        '3'
    } else if d == 4 {
        '4'
    } else if d == 5 {
        '5'
    } else if d == 6 {
        '6'
    } else if d == 7 {
        '7'
    } else if d == 8 {
        '8'
    } else {
        '9'
    }
}

/// The decimal rendering of a number: its digits, most significant first,
/// without leading zeroes.
pub open spec fn dec_string(n: int) -> Seq<char>
    decreases n,
{
    if n < 10 {
        seq![digit_char(n)]
    } else {
        dec_string(n / 10) + seq![digit_char(n % 10)]
    }
}

/// The one-character string of one digit value.
fn digit_str(d: u64) -> (r: &'static str)
    requires
        d < 10,
    ensures
        r@ =~= seq![digit_char(d as int)],
{
    proof {
        reveal_strlit("0");
        reveal_strlit("1");
        reveal_strlit("2");
        reveal_strlit("3");
        reveal_strlit("4");
        reveal_strlit("5");
        reveal_strlit("6");
        reveal_strlit("7");
        reveal_strlit("8");
        reveal_strlit("9");
    }
    if d == 0 {
        "0"
    } else if d == 1 {
        "1"
    } else if d == 2 {
        "2"
    } else if d == 3 {
        "3"
    } else if d == 4 {
        "4"
    } else if d == 5 {
        "5"
    } else if d == 6 {
        "6"
    } else if d == 7 {
        "7"
    } else if d == 8 {
        "8"
    } else {
        "9"
    }
}

/// Render a number in decimal.
pub fn u64_to_string(n: u64) -> (r: String)
    ensures
        r@ == dec_string(n as int),
    decreases n,
{
    if n < 10 {
        let r = String::from_str(digit_str(n));
        proof {
            assert(r@ =~= dec_string(n as int));
        }
        r
    } else {
        let mut s = u64_to_string(n / 10);
        s.append(digit_str(n % 10));
        proof {
            assert(s@ =~= dec_string(n as int));
        }
        s
    }
}

/// The decimal rendering reads back as the number it renders.
pub proof fn lemma_dec_string_value(n: int)
    requires
        n >= 0,
    ensures
        dec_string(n).len() >= 1,
        forall|i: int| 0 <= i < dec_string(n).len() ==> is_digit(dec_string(n)[i]),
        dec_value(dec_string(n)) == n,
    decreases n,
{
    assert(digit_val(digit_char(n % 10)) == n % 10);
    if n < 10 {
        assert(digit_val(digit_char(n)) == n);
        assert(dec_value(Seq::<char>::empty()) == 0);
        assert(dec_string(n).subrange(0, 0) =~= Seq::<char>::empty());
        assert(dec_value(dec_string(n)) == dec_value(dec_string(n).subrange(0, 0)) * 10
            + digit_val(dec_string(n)[0]));
    } else {
        lemma_dec_string_value(n / 10);
        let s = dec_string(n);
        let p = dec_string(n / 10);
        assert(s.subrange(0, s.len() - 1) =~= p);
        assert(dec_value(s) == dec_value(p) * 10 + digit_val(s[s.len() - 1]));
    }
}

/// Digit strings have non-negative values.
proof fn lemma_dec_value_nonneg(s: Seq<char>)
    requires
        forall|k: int| 0 <= k < s.len() ==> is_digit(s[k]),
    ensures
        dec_value(s) >= 0,
    decreases s.len(),
{
    if s.len() > 0 {
        lemma_dec_value_nonneg(s.subrange(0, s.len() - 1));
    }
}

/// Appending digits never shrinks the value of a digit string.
proof fn lemma_dec_value_monotonic(s: Seq<char>, n: int)
    requires
        0 <= n <= s.len(),
        forall|k: int| 0 <= k < s.len() ==> is_digit(s[k]),
    ensures
        dec_value(s) >= dec_value(s.subrange(0, n)),
    decreases s.len() - n,
{
    if n < s.len() {
        lemma_dec_value_monotonic(s, n + 1);
        let p = s.subrange(0, n + 1);
        assert(p.subrange(0, n) =~= s.subrange(0, n));
        lemma_dec_value_nonneg(s.subrange(0, n));
        assert(dec_value(p) == dec_value(s.subrange(0, n)) * 10 + digit_val(p[n]));
    } else {
        assert(s.subrange(0, n) =~= s);
    }
}

/// Read the digits of `s` from position `from` on as an unsigned decimal,
/// rejecting non-digits and any value above `i32::MAX + 1`.
fn parse_digits(s: &str, from: usize) -> (r: Option<u32>)
    requires
        from <= s@.len(),
    ensures
        r is Some <==> (s@.len() - from >= 1 && (forall|k: int|
            from <= k < s@.len() ==> is_digit(s@[k])) && dec_value(
            s@.subrange(from as int, s@.len() as int),
        ) <= 0x8000_0000),
        r matches Some(v) ==> v == dec_value(s@.subrange(from as int, s@.len() as int)),
{
    let n = s.unicode_len();
    if n == from {
        return None;
    }
    let ghost whole = s@.subrange(from as int, s@.len() as int);
    let mut acc: u32 = 0;
    let mut i: usize = from;
    while i < n
        invariant
            from <= i <= n,
            n == s@.len(),
            from < n,
            forall|k: int| from <= k < i ==> is_digit(s@[k]),
            acc == dec_value(s@.subrange(from as int, i as int)),
            acc <= 0x8000_0000,
            whole == s@.subrange(from as int, s@.len() as int),
        decreases n - i,
    {
        let c = s.get_char(i);
        if !(c >= '0' && c <= '9') {
            return None;
        }
        let d = (c as u32) - 48;
        if acc > 0x0ccc_cccc || (acc == 0x0ccc_cccc && d > 8) {
            // The value already exceeds i32 magnitude and can only grow.
            proof {
                assert(s@.subrange(from as int, i + 1).subrange(0, i - from) =~= s@.subrange(
                    from as int,
                    i as int,
                ));
                assert(dec_value(s@.subrange(from as int, i + 1)) == acc * 10 + d);
                if forall|k: int| from <= k < s@.len() ==> is_digit(s@[k]) {
                    lemma_dec_value_monotonic(whole, i + 1 - from);
                    assert(whole.subrange(0, i + 1 - from) =~= s@.subrange(from as int, i + 1));
                }
            }
            return None;
        }
        proof {
            assert(s@.subrange(from as int, i + 1).subrange(0, i - from) =~= s@.subrange(
                from as int,
                i as int,
            ));
        }
        acc = acc * 10 + d;
        i += 1;
    }
    proof {
        assert(s@.subrange(from as int, i as int) =~= whole);
    }
    Some(acc)
}

/// Read a string as a signed 32-bit decimal integer, exactly when it is an
/// optional sign followed by digits and the value fits the type.
pub fn parse_i32(s: &str) -> (r: Option<i32>)
    ensures
        r is Some <==> (is_signed_dec(s@) && i32::MIN <= signed_dec_value(s@) <= i32::MAX),
        r matches Some(v) ==> v == signed_dec_value(s@),
{
    let n = s.unicode_len();
    if n == 0 {
        return None;
    }
    let c0 = s.get_char(0);
    if c0 == '-' {
        match parse_digits(s, 1) {
            Some(m) => {
                proof {
                    lemma_dec_value_nonneg(s@.subrange(1, s@.len() as int));
                }
                if m == 0x8000_0000 {
                    Some(i32::MIN)
                } else {
                    Some(-(m as i32))
                }
            },
            None => None,
        }
    } else if c0 == '+' {
        match parse_digits(s, 1) {
            Some(m) => {
                if m == 0x8000_0000 {
                    None
                } else {
                    Some(m as i32)
                }
            },
            None => None,
        }
    } else {
        proof {
            assert(s@.subrange(0, s@.len() as int) =~= s@);
        }
        match parse_digits(s, 0) {
            Some(m) => {
                if m == 0x8000_0000 {
                    None
                } else {
                    Some(m as i32)
                }
            },
            None => None,
        }
    }
}

} // verus!
