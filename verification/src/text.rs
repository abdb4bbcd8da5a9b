//! Decimal rendering and parsing of numbers as text.

use vstd::prelude::*;

verus! {

/// The character that stands for the decimal digit `d` (for `d < 10`).
pub open spec fn digit_char(d: nat) -> char {
    (d + 48) as char
}

/// Whether `c` is one of the ASCII digits `'0'..='9'`.
pub open spec fn is_digit(c: char) -> bool {
    '0' <= c && c <= '9'
}

/// The numeric value of an ASCII digit.
pub open spec fn digit_value(c: char) -> nat {
    (c as int - 48) as nat
}

/// The decimal representation of `n`, without leading zeros (`"0"` for zero).
pub open spec fn decimal(n: nat) -> Seq<char>
    decreases n,
{
    if n < 10 {
        seq![digit_char(n)]
    } else {
        decimal(n / 10).push(digit_char(n % 10))
    }
}

/// `n` rendered in decimal and padded on the left with `'0'` to at least `width` characters.
pub open spec fn zero_padded(n: nat, width: nat) -> Seq<char> {
    let d = decimal(n);
    if d.len() >= width {
        d
    } else {
        Seq::new((width - d.len()) as nat, |i: int| '0') + d
    }
}

/// The value of a sequence of decimal digits, most significant first.
pub open spec fn digits_value(s: Seq<char>) -> nat
    decreases s.len(),
{
    if s.len() == 0 {
        0
    } else {
        digits_value(s.drop_last()) * 10 + digit_value(s.last())
    }
}

/// Whether every character of `s` is an ASCII digit.
pub open spec fn all_digits(s: Seq<char>) -> bool {
    forall|i: int| 0 <= i < s.len() ==> is_digit(#[trigger] s[i])
}

/// The string of one decimal digit.
fn digit_str(d: u32) -> (r: &'static str)
    requires
        d < 10,
    ensures
        r@ == seq![digit_char(d as nat)],
{
    match d {
        0 => {
            proof {
                reveal_strlit("0");
            }
            "0"
        },
        1 => {
            proof {
                reveal_strlit("1");
            }
            "1"
        },
        2 => {
            proof {
                reveal_strlit("2");
            }
            "2"
        },
        3 => {
            proof {
                reveal_strlit("3");
            }
            "3"
        },
        4 => {
            proof {
                reveal_strlit("4");
            }
            "4"
        },
        5 => {
            proof {
                reveal_strlit("5");
            }
            "5"
        },
        6 => {
            proof {
                reveal_strlit("6");
            }
            "6"
        },
        7 => {
            proof {
                reveal_strlit("7");
            }
            "7"
        },
        8 => {
            proof {
                reveal_strlit("8");
            }
            "8"
        },
        _ => {
            proof {
                reveal_strlit("9");
            }
            "9"
        },
    }
}

/// Appends the decimal representation of `n` to `s`.
pub fn append_decimal(s: &mut String, n: u64)
    ensures
        final(s)@ == old(s)@ + decimal(n as nat),
    decreases n,
{
    if n >= 10 {
        append_decimal(s, n / 10);
    }
    let d = (n % 10) as u32;
    s.append(digit_str(d));
    proof {
        if n >= 10 {
            assert(decimal(n as nat) == decimal((n / 10) as nat).push(digit_char((n % 10) as nat)));
        }
    }
}


/// The number of characters in the decimal representation of `n`.
pub fn decimal_len(n: u32) -> (r: u64)
    ensures
        r as nat == decimal(n as nat).len(),
        r <= n as nat + 1,
    decreases n,
{
    if n < 10 {
        1
    } else {
        let r = decimal_len(n / 10) + 1;
        assert(decimal(n as nat) == decimal((n / 10) as nat).push(digit_char((n % 10) as nat)));
        r
    }
}

/// Appends `n` in decimal, padded on the left with `'0'` to at least `width` characters.
pub fn append_zero_padded(s: &mut String, n: u32, width: u32)
    ensures
        final(s)@ == old(s)@ + zero_padded(n as nat, width as nat),
{
    let len = decimal_len(n);
    let ghost start = s@;
    let mut i: u64 = len;
    while i < width as u64
        invariant
            len as nat == decimal(n as nat).len(),
            len <= i,
            i <= width || i == len,
            s@ == start + Seq::new((i - len) as nat, |k: int| '0'),
        decreases width - i,
    {
        proof {
            reveal_strlit("0");
        }
        s.append("0");
        i = i + 1;
        assert(s@ =~= start + Seq::new((i - len) as nat, |k: int| '0'));
    }
    append_decimal(s, n as u64);
    proof {
        let d = decimal(n as nat);
        if d.len() >= width {
            assert(Seq::new((i - len) as nat, |k: int| '0') =~= Seq::<char>::empty());
            assert(start + Seq::<char>::empty() + d =~= start + d);
        } else {
            assert(start + Seq::new((i - len) as nat, |k: int| '0') + d =~= start + (Seq::new(
                (width - d.len()) as nat,
                |k: int| '0',
            ) + d));
        }
    }
}

/// `n` in decimal, padded on the left with `'0'` to at least `width` characters.
pub fn zero_padded_string(n: u32, width: u32) -> (r: String)
    ensures
        r@ == zero_padded(n as nat, width as nat),
{
    let mut s = String::new();
    append_zero_padded(&mut s, n, width);
    assert(s@ =~= zero_padded(n as nat, width as nat));
    s
}

/// `n` in decimal.
pub fn decimal_string(n: u64) -> (r: String)
    ensures
        r@ == decimal(n as nat),
{
    let mut s = String::new();
    append_decimal(&mut s, n);
    assert(s@ =~= decimal(n as nat));
    s
}


/// Whether `c` has the Unicode `White_Space` property (what `char::is_whitespace` tests).
pub open spec fn is_white_space(c: char) -> bool {
    let v = c as u32;
    ||| 0x9 <= v && v <= 0xD
    ||| v == 0x20
    ||| v == 0x85
    ||| v == 0xA0
    ||| v == 0x1680
    ||| 0x2000 <= v && v <= 0x200A
    ||| v == 0x2028
    ||| v == 0x2029
    ||| v == 0x202F
    ||| v == 0x205F
    ||| v == 0x3000
}

/// `s` without its leading white space.
pub open spec fn trim_start(s: Seq<char>) -> Seq<char>
    decreases s.len(),
{
    if s.len() > 0 && is_white_space(s[0]) {
        trim_start(s.drop_first())
    } else {
        s
    }
}

/// `s` without its trailing white space.
pub open spec fn trim_end(s: Seq<char>) -> Seq<char>
    decreases s.len(),
{
    if s.len() > 0 && is_white_space(s.last()) {
        trim_end(s.drop_last())
    } else {
        s
    }
}

/// `s` without leading and trailing white space (what `str::trim` gives).
pub open spec fn trimmed(s: Seq<char>) -> Seq<char> {
    trim_end(trim_start(s))
}

/// The `u32` that `t` denotes in the syntax `u32::from_str` accepts: an optional `'+'`
/// followed by one or more ASCII digits whose value fits in a `u32`; `None` otherwise.
pub open spec fn parsed_u32(t: Seq<char>) -> Option<u32> {
    let body = if t.len() > 0 && t[0] == '+' {
        t.drop_first()
    } else {
        t
    };
    if body.len() > 0 && all_digits(body) && digits_value(body) <= u32::MAX {
        Some(digits_value(body) as u32)
    } else {
        None
    }
}

fn is_white_space_char(c: char) -> (r: bool)
    ensures
        r == is_white_space(c),
{
    let v = c as u32;
    (0x9 <= v && v <= 0xD) || v == 0x20 || v == 0x85 || v == 0xA0 || v == 0x1680 || (0x2000 <= v
        && v <= 0x200A) || v == 0x2028 || v == 0x2029 || v == 0x202F || v == 0x205F || v == 0x3000
}

proof fn lemma_trim_start(s: Seq<char>, k: int)
    requires
        0 <= k <= s.len(),
        forall|i: int| 0 <= i < k ==> is_white_space(#[trigger] s[i]),
        k == s.len() || !is_white_space(s[k]),
    ensures
        trim_start(s) == s.subrange(k, s.len() as int),
    decreases k,
{
    if k == 0 {
        assert(s.subrange(0, s.len() as int) =~= s);
    } else {
        let t = s.drop_first();
        assert forall|i: int| 0 <= i < k - 1 implies is_white_space(#[trigger] t[i]) by {
            assert(t[i] == s[i + 1]);
        }
        if k - 1 < t.len() {
            assert(t[k - 1] == s[k]);
        }
        lemma_trim_start(t, k - 1);
        assert(t.subrange(k - 1, t.len() as int) =~= s.subrange(k, s.len() as int));
    }
}

proof fn lemma_trim_end(s: Seq<char>, e: int)
    requires
        0 <= e <= s.len(),
        forall|i: int| e <= i < s.len() ==> is_white_space(#[trigger] s[i]),
        e == 0 || !is_white_space(s[e - 1]),
    ensures
        trim_end(s) == s.subrange(0, e),
    decreases s.len() - e,
{
    if e == s.len() {
        assert(s.subrange(0, e) =~= s);
    } else {
        let t = s.drop_last();
        assert forall|i: int| e <= i < t.len() implies is_white_space(#[trigger] t[i]) by {
            assert(t[i] == s[i]);
        }
        if e > 0 {
            assert(t[e - 1] == s[e - 1]);
        }
        lemma_trim_end(t, e);
        assert(t.subrange(0, e) =~= s.subrange(0, e));
    }
}

proof fn lemma_digits_value_push(s: Seq<char>, c: char)
    ensures
        digits_value(s.push(c)) == digits_value(s) * 10 + digit_value(c),
{
    assert(s.push(c).drop_last() =~= s);
}

/// Parses `text` as `text.trim().parse::<u32>()` does.
pub fn parse_trimmed_u32(text: &str) -> (r: Option<u32>)
    ensures
        r == parsed_u32(trimmed(text@)),
{
    let n = text.unicode_len();
    let ghost s = text@;
    let mut start: usize = 0;
    while start < n && is_white_space_char(text.get_char(start))
        invariant
            n == s.len(),
            s == text@,
            start <= n,
            forall|i: int| 0 <= i < start ==> is_white_space(#[trigger] s[i]),
        decreases n - start,
    {
        start = start + 1;
    }
    proof {
        lemma_trim_start(s, start as int);
    }
    let ghost t = s.subrange(start as int, n as int);
    let mut end: usize = n;
    while end > start && is_white_space_char(text.get_char(end - 1))
        invariant
            n == s.len(),
            s == text@,
            t == s.subrange(start as int, n as int),
            start <= end <= n,
            forall|i: int| end <= i < n ==> is_white_space(#[trigger] s[i]),
        decreases end,
    {
        end = end - 1;
    }
    proof {
        assert forall|i: int| end - start <= i < t.len() implies is_white_space(#[trigger] t[i]) by {
            assert(t[i] == s[start + i]);
        }
        if end > start {
            assert(t[end - start - 1] == s[end - 1]);
        }
        lemma_trim_end(t, end - start);
        assert(t.subrange(0, end - start) =~= s.subrange(start as int, end as int));
    }
    let ghost u = s.subrange(start as int, end as int);
    assert(trimmed(s) == u);
    let mut i = start;
    if i < end && text.get_char(i) == '+' {
        i = i + 1;
    }
    let ghost body = if u.len() > 0 && u[0] == '+' {
        u.drop_first()
    } else {
        u
    };
    assert(body =~= s.subrange(i as int, end as int));
    if i == end {
        return None;
    }
    let body_start = i;
    let mut value: u64 = 0;
    let mut overflow = false;
    while i < end
        invariant
            n == s.len(),
            s == text@,
            body == s.subrange(body_start as int, end as int),
            trimmed(s) == u,
            body == (if u.len() > 0 && u[0] == '+' {
                u.drop_first()
            } else {
                u
            }),
            body_start <= i <= end <= n,
            all_digits(s.subrange(body_start as int, i as int)),
            !overflow ==> value == digits_value(s.subrange(body_start as int, i as int)),
            !overflow ==> value <= u32::MAX,
            overflow ==> digits_value(s.subrange(body_start as int, i as int)) > u32::MAX,
        decreases end - i,
    {
        let c = text.get_char(i);
        if c < '0' || c > '9' {
            assert(body[i - body_start] == c);
            assert(!is_digit(body[i - body_start]));
            assert(!all_digits(body));
            assert(parsed_u32(trimmed(s)) is None);
            return None;
        }
        let d = (c as u32 - 48) as u64;
        let ghost prev = s.subrange(body_start as int, i as int);
        assert(s.subrange(body_start as int, i + 1) =~= prev.push(c));
        proof {
            lemma_digits_value_push(prev, c);
        }
        if !overflow {
            value = value * 10 + d;
            if value > 0xFFFF_FFFF {
                overflow = true;
            }
        }
        i = i + 1;
        assert(all_digits(s.subrange(body_start as int, i as int)));
    }
    if overflow {
        None
    } else {
        Some(value as u32)
    }
}


proof fn lemma_digit_char_value(d: nat)
    requires
        d < 10,
    ensures
        digit_value(digit_char(d)) == d,
        is_digit(digit_char(d)),
{
    assert(digit_char(d) as int == d + 48);
}

/// Reading back the decimal representation of `n` gives `n`, and it is made of digits only.
pub proof fn lemma_decimal_value(n: nat)
    ensures
        digits_value(decimal(n)) == n,
        all_digits(decimal(n)),
        decimal(n).len() >= 1,
    decreases n,
{
    lemma_digit_char_value((n % 10) as nat);
    if n < 10 {
        assert(seq![digit_char(n)].drop_last() =~= Seq::<char>::empty());
        assert(digits_value(seq![digit_char(n)]) == digits_value(Seq::<char>::empty()) * 10
            + digit_value(digit_char(n)));
    } else {
        lemma_decimal_value(n / 10);
        lemma_digits_value_push(decimal(n / 10), digit_char(n % 10));
        let d = decimal(n);
        assert forall|i: int| 0 <= i < d.len() implies is_digit(#[trigger] d[i]) by {
            if i < d.len() - 1 {
                assert(d[i] == decimal(n / 10)[i]);
            }
        }
    }
}

proof fn lemma_leading_zeros_value(k: nat, s: Seq<char>)
    ensures
        digits_value(Seq::new(k, |i: int| '0') + s) == digits_value(s),
    decreases s.len(), k,
{
    let z = Seq::new(k, |i: int| '0');
    if s.len() == 0 {
        assert(z + s =~= z);
        if k > 0 {
            assert(z.drop_last() =~= Seq::new((k - 1) as nat, |i: int| '0'));
            lemma_leading_zeros_value((k - 1) as nat, s);
            assert(Seq::new((k - 1) as nat, |i: int| '0') + s =~= z.drop_last());
        }
    } else {
        assert((z + s).drop_last() =~= z + s.drop_last());
        lemma_leading_zeros_value(k, s.drop_last());
    }
}

/// Reading back a zero-padded rendering of `n` gives `n`.
pub proof fn lemma_zero_padded_value(n: nat, width: nat)
    ensures
        digits_value(zero_padded(n, width)) == n,
{
    lemma_decimal_value(n);
    let d = decimal(n);
    if d.len() < width {
        lemma_leading_zeros_value((width - d.len()) as nat, d);
    }
}

/// Distinct numbers have distinct zero-padded renderings of the same width.
pub proof fn lemma_zero_padded_injective(n: nat, m: nat, width: nat)
    requires
        n != m,
    ensures
        zero_padded(n, width) != zero_padded(m, width),
{
    lemma_zero_padded_value(n, width);
    lemma_zero_padded_value(m, width);
}

} // verus!
