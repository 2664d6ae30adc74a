//! Unsigned integers written in decimal or hexadecimal text, and the small
//! splitting rules of the description format (`0x` prefixes, `"hi:lo"` ranges).
use vstd::prelude::*;
use vstd::string::*;

verus! {

/// The value of one digit character; letters count from ten, either case.
/// Characters that are no digit in any radix up to 36 get 36.
pub open spec fn digit_value(c: char) -> nat {
    let v = c as u32;
    if 48 <= v && v <= 57 {
        (v - 48) as nat
    } else if 97 <= v && v <= 122 {
        (v - 87) as nat
    } else if 65 <= v && v <= 90 {
        (v - 55) as nat
    } else {
        36
    }
}

/// The value of a sequence of digits, most significant first.
pub open spec fn digits_value(d: Seq<char>, radix: nat) -> nat
    decreases d.len(),
{
    if d.len() == 0 {
        0
    } else {
        digits_value(d.drop_last(), radix) * radix + digit_value(d.last())
    }
}

pub open spec fn all_digits(d: Seq<char>, radix: nat) -> bool {
    forall|i: int| 0 <= i < d.len() ==> digit_value(#[trigger] d[i]) < radix
}

/// The digits of an unsigned number: one leading `+` is allowed.
pub open spec fn unsigned_digits(s: Seq<char>) -> Seq<char> {
    if s.len() > 0 && s[0] == '+' {
        s.drop_first()
    } else {
        s
    }
}

/// The number that `s` writes in `radix`, if it is one that fits in a `usize`:
/// an optional `+` followed by at least one digit, nothing else.
pub open spec fn parse_usize_spec(s: Seq<char>, radix: nat) -> Option<usize> {
    let d = unsigned_digits(s);
    if d.len() > 0 && all_digits(d, radix) && digits_value(d, radix) <= usize::MAX {
        Some(digits_value(d, radix) as usize)
    } else {
        None
    }
}

/// `s` with every leading `0x` removed.
pub open spec fn strip_hex_prefix(s: Seq<char>) -> Seq<char>
    decreases s.len(),
{
    if s.len() >= 2 && s[0] == '0' && s[1] == 'x' {
        strip_hex_prefix(s.subrange(2, s.len() as int))
    } else {
        s
    }
}

/// The number that a hexadecimal text writes, after its `0x` prefixes.
pub open spec fn parse_hex_spec(s: Seq<char>) -> Option<usize> {
    parse_usize_spec(strip_hex_prefix(s), 16)
}

/// The position of the first `c` in `s` at or after `i`, or -1.
pub open spec fn find_char_from(s: Seq<char>, c: char, i: int) -> int
    decreases s.len() - i,
{
    if i < 0 || i >= s.len() {
        -1
    } else if s[i] == c {
        i
    } else {
        find_char_from(s, c, i + 1)
    }
}

/// The low end of a bit range `"hi:lo"`; a single bit `"b"` is its own low end.
pub open spec fn bits_low_text(s: Seq<char>) -> Seq<char> {
    let p = find_char_from(s, ':', 0);
    if p < 0 {
        s
    } else {
        s.subrange(p + 1, s.len() as int)
    }
}

/// The high end of a bit range `"hi:lo"`; a single bit `"b"` is its own high end.
pub open spec fn bits_high_text(s: Seq<char>) -> Seq<char> {
    let p = find_char_from(s, ':', 0);
    if p < 0 {
        s
    } else {
        s.subrange(0, p)
    }
}

proof fn lemma_digits_value_prefix(d: Seq<char>, k: int, radix: nat)
    requires
        0 <= k <= d.len(),
        radix >= 1,
    ensures
        digits_value(d.subrange(0, k), radix) <= digits_value(d, radix),
    decreases d.len(),
{
    if k < d.len() {
        let p = d.drop_last();
        lemma_digits_value_prefix(p, k, radix);
        assert(p.subrange(0, k) =~= d.subrange(0, k));
        let v = digits_value(p, radix);
        assert(v * radix >= v) by (nonlinear_arith)
            requires
                radix >= 1,
        ;
    } else {
        assert(d.subrange(0, k) =~= d);
    }
}

fn digit_of(c: char) -> (r: u32)
    ensures
        r as nat == digit_value(c),
{
    let v = c as u32;
    if 48 <= v && v <= 57 {
        v - 48
    } else if 97 <= v && v <= 122 {
        v - 87
    } else if 65 <= v && v <= 90 {
        v - 55
    } else {
        36
    }
}

/// Reads an unsigned number written in `radix` (ten or sixteen).
pub fn parse_usize(s: &str, radix: u32) -> (r: Option<usize>)
    requires
        radix == 10 || radix == 16,
    ensures
        r == parse_usize_spec(s@, radix as nat),
{
    let n = s.unicode_len();
    let mut start: usize = 0;
    if n > 0 && s.get_char(0) == '+' {
        start = 1;
    }
    let ghost d = unsigned_digits(s@);
    assert(d =~= s@.subrange(start as int, n as int));
    if start == n {
        return None;
    }
    let mut acc: usize = 0;
    let mut i: usize = start;
    while i < n
        invariant
            start <= i <= n,
            n == s@.len(),
            d == s@.subrange(start as int, n as int),
            d == unsigned_digits(s@),
            radix == 10 || radix == 16,
            forall|j: int| 0 <= j < i - start ==> digit_value(#[trigger] d[j]) < radix,
            acc == digits_value(d.subrange(0, i - start), radix as nat),
        decreases n - i,
    {
        let c = s.get_char(i);
        let v = digit_of(c);
        let ghost k = i - start;
        assert(d[k] == c);
        if v >= radix {
            assert(!all_digits(d, radix as nat));
            assert(parse_usize_spec(s@, radix as nat) is None);
            return None;
        }
        let ghost pre = d.subrange(0, k + 1);
        assert(pre.drop_last() =~= d.subrange(0, k));
        assert(digits_value(pre, radix as nat) == acc * radix + v);
        proof {
            lemma_digits_value_prefix(d, k + 1, radix as nat);
        }
        match acc.checked_mul(radix as usize) {
            None => {
                assert(acc * radix + v > usize::MAX) by (nonlinear_arith)
                    requires
                        acc * radix > usize::MAX,
                ;
                return None;
            },
            Some(m) => match m.checked_add(v as usize) {
                None => {
                    assert(digits_value(pre, radix as nat) > usize::MAX);
                    return None;
                },
                Some(next) => {
                    acc = next;
                },
            },
        }
        i = i + 1;
    }
    assert(d.subrange(0, n - start) =~= d);
    Some(acc)
}

/// The position where `strip_hex_prefix` stops.
fn hex_prefix_end(s: &str) -> (r: usize)
    ensures
        r <= s@.len(),
        strip_hex_prefix(s@) == s@.subrange(r as int, s@.len() as int),
{
    let n = s.unicode_len();
    let mut i: usize = 0;
    assert(s@.subrange(0, n as int) =~= s@);
    while i < n && n - i >= 2 && s.get_char(i) == '0' && s.get_char(i + 1) == 'x'
        invariant
            i <= n,
            n == s@.len(),
            strip_hex_prefix(s@) == strip_hex_prefix(s@.subrange(i as int, n as int)),
        decreases n - i,
    {
        let ghost t = s@.subrange(i as int, n as int);
        assert(t.subrange(2, t.len() as int) =~= s@.subrange(i + 2, n as int));
        i = i + 2;
    }
    i
}

/// Reads a hexadecimal number, after removing its leading `0x` prefixes.
pub fn parse_hex(s: &str) -> (r: Option<usize>)
    ensures
        r == parse_hex_spec(s@),
{
    let k = hex_prefix_end(s);
    let n = s.unicode_len();
    let t = s.substring_char(k, n);
    parse_usize(t, 16)
}

/// The position of the first `c` in `s`, if there is one.
fn find_char(s: &str, c: char) -> (r: Option<usize>)
    ensures
        match r {
            Some(p) => p < s@.len() && find_char_from(s@, c, 0) == p,
            None => find_char_from(s@, c, 0) == -1,
        },
{
    let n = s.unicode_len();
    let mut i: usize = 0;
    while i < n
        invariant
            i <= n,
            n == s@.len(),
            find_char_from(s@, c, 0) == find_char_from(s@, c, i as int),
        decreases n - i,
    {
        if s.get_char(i) == c {
            return Some(i);
        }
        i = i + 1;
    }
    None
}

/// The low bit of a field's bit range (`"hi:lo"` or a single bit).
pub fn extract_start(s: &str) -> (r: Option<usize>)
    ensures
        r == parse_usize_spec(bits_low_text(s@), 10),
{
    match find_char(s, ':') {
        Some(p) => {
            let n = s.unicode_len();
            parse_usize(s.substring_char(p + 1, n), 10)
        },
        None => parse_usize(s, 10),
    }
}

/// The high bit of a field's bit range (`"hi:lo"` or a single bit).
pub fn extract_end(s: &str) -> (r: Option<usize>)
    ensures
        r == parse_usize_spec(bits_high_text(s@), 10),
{
    match find_char(s, ':') {
        Some(p) => parse_usize(s.substring_char(0, p), 10),
        None => parse_usize(s, 10),
    }
}

} // verus!
