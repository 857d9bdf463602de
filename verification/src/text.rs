//! Character-level text helpers: the number formats the service writes into
//! its messages, the number grammars it reads back, and Unicode trimming.
use vstd::prelude::*;

verus! {

// ----------------------------------------------------------------------------
// Building strings
// ----------------------------------------------------------------------------

/// The characters of `s`, in order.
pub fn chars_of(s: &str) -> (v: Vec<char>)
    ensures
        v@ == s@,
{
    let mut v: Vec<char> = Vec::new();
    for c in it: s.chars()
        invariant
            v@ == it.seq().take(it.index() as int),
    {
        v.push(c);
    }
    v
}

/// Appends one character to `s` (std `String::push`, which the standard
/// library documents as appending the given char to the end of the string).
#[verifier::external_body]
pub(crate) fn push_char(s: &mut String, c: char)
    ensures
        final(s)@ == old(s)@.push(c),
{
    s.push(c);
}

/// Appends a run of characters to `s`.
pub fn push_chars(s: &mut String, v: &[char])
    ensures
        final(s)@ == old(s)@ + v@,
{
    let ghost start = s@;
    let n = v.len();
    for i in 0..n
        invariant
            n == v@.len(),
            s@ == start + v@.take(i as int),
    {
        push_char(s, v[i]);
        assert(v@.take(i + 1) =~= v@.take(i as int).push(v@[i as int]));
    }
    assert(v@.take(n as int) =~= v@);
}

/// A `String` holding exactly the characters of `v`.
pub fn string_from_chars(v: &[char]) -> (s: String)
    ensures
        s@ == v@,
{
    let mut s = String::new();
    push_chars(&mut s, v);
    s
}

/// A `String` holding the text of `s`.
pub fn string_from(s: &str) -> (r: String)
    ensures
        r@ == s@,
{
    let mut r = String::new();
    r.append(s);
    r
}

/// Two character runs are equal.
pub fn chars_equal(a: &[char], b: &[char]) -> (r: bool)
    ensures
        r == (a@ == b@),
{
    if a.len() != b.len() {
        return false;
    }
    let n = a.len();
    for i in 0..n
        invariant
            n == a@.len(),
            n == b@.len(),
            forall|k: int| 0 <= k < i ==> a@[k] == b@[k],
    {
        if a[i] != b[i] {
            return false;
        }
    }
    assert(a@ =~= b@);
    true
}

/// Two texts are equal, character for character.
pub fn text_equals(a: &str, b: &str) -> (r: bool)
    ensures
        r == (a@ == b@),
{
    let va = chars_of(a);
    let vb = chars_of(b);
    chars_equal(va.as_slice(), vb.as_slice())
}

// ----------------------------------------------------------------------------
// Number formats
// ----------------------------------------------------------------------------

/// The upper-case digit character for `d` (`0`-`9`, then `A`-`F`).
pub open spec fn digit_char(d: nat) -> char {
    if d < 10 {
        (48 + d) as char
    } else {
        (55 + d) as char
    }
}

/// Decimal rendering of `n`, as `{}` prints an unsigned integer.
pub open spec fn spec_decimal(n: nat) -> Seq<char>
    decreases n,
{
    if n < 10 {
        seq![digit_char(n)]
    } else {
        spec_decimal(n / 10).push(digit_char(n % 10))
    }
}

/// Upper-case hexadecimal rendering of `n`, as `{:X}` prints it.
pub open spec fn spec_hex(n: nat) -> Seq<char>
    decreases n,
{
    if n < 16 {
        seq![digit_char(n)]
    } else {
        spec_hex(n / 16).push(digit_char(n % 16))
    }
}

/// `n` as `{:0w$X}` prints it: upper-case hexadecimal, zero-padded on the
/// left to at least `width` characters.
pub open spec fn spec_hex_padded(n: nat, width: nat) -> Seq<char> {
    let digits = spec_hex(n);
    if digits.len() < width {
        Seq::new((width - digits.len()) as nat, |i: int| '0') + digits
    } else {
        digits
    }
}

/// A signed integer as `{}` prints it.
pub open spec fn spec_signed_decimal(i: int) -> Seq<char> {
    if i < 0 {
        seq!['-'] + spec_decimal((-i) as nat)
    } else {
        spec_decimal(i as nat)
    }
}

/// `Some(v)` as `{:?}` prints an `Option<u64>`: `Some(<v>)` or `None`.
pub open spec fn spec_debug_option(v: Option<u64>) -> Seq<char> {
    match v {
        Some(x) => seq!['S', 'o', 'm', 'e', '('] + spec_decimal(x as nat) + seq![')'],
        None => seq!['N', 'o', 'n', 'e'],
    }
}

fn digit_to_char(d: u64) -> (c: char)
    requires
        d < 16,
    ensures
        c == digit_char(d as nat),
{
    if d < 10 {
        let b: u8 = 48u8 + d as u8;
        b as char
    } else {
        let b: u8 = 55u8 + d as u8;
        b as char
    }
}

/// Appends the decimal digits of `n`.
pub fn push_decimal(s: &mut String, n: u64)
    ensures
        final(s)@ == old(s)@ + spec_decimal(n as nat),
    decreases n,
{
    if n >= 10 {
        push_decimal(s, n / 10);
    }
    push_char(s, digit_to_char(n % 10));
    assert(spec_decimal(n as nat) =~= if n < 10 {
        seq![digit_char(n as nat)]
    } else {
        spec_decimal((n / 10) as nat).push(digit_char((n % 10) as nat))
    });
}

/// Appends the upper-case hexadecimal digits of `n`.
pub fn push_hex(s: &mut String, n: u64)
    ensures
        final(s)@ == old(s)@ + spec_hex(n as nat),
    decreases n,
{
    if n >= 16 {
        push_hex(s, n / 16);
    }
    push_char(s, digit_to_char(n % 16));
}

/// The number of upper-case hexadecimal digits of `n`.
pub fn hex_len(n: u64) -> (r: usize)
    ensures
        r == spec_hex(n as nat).len(),
        1 <= r <= 16,
    decreases n,
{
    proof {
        lemma_hex_len_u64(n as nat);
    }
    if n < 16 {
        1
    } else {
        hex_len(n / 16) + 1
    }
}

/// `16` raised to `k`.
pub open spec fn pow16(k: nat) -> nat
    decreases k,
{
    if k == 0 {
        1
    } else {
        16 * pow16((k - 1) as nat)
    }
}

proof fn lemma_hex_len_le(n: nat, k: nat)
    requires
        k >= 1,
        n < pow16(k),
    ensures
        1 <= spec_hex(n).len() <= k,
    decreases n,
{
    if n >= 16 {
        if k == 1 {
            assert(pow16(1) == 16) by {
                reveal_with_fuel(pow16, 2);
            }
        }
        let p = pow16((k - 1) as nat);
        assert(n / 16 < p) by (nonlinear_arith)
            requires
                n < 16 * p,
        ;
        lemma_hex_len_le(n / 16, (k - 1) as nat);
    }
}

proof fn lemma_hex_len_u64(n: nat)
    requires
        n < 0x1_0000_0000_0000_0000,
    ensures
        1 <= spec_hex(n).len() <= 16,
        n < 0x1_0000_0000 ==> spec_hex(n).len() <= 8,
        n < 0x100 ==> spec_hex(n).len() <= 2,
{
    reveal_with_fuel(pow16, 17);
    assert(pow16(2) == 0x100);
    assert(pow16(8) == 0x1_0000_0000);
    assert(pow16(16) == 0x1_0000_0000_0000_0000);
    lemma_hex_len_le(n, 16);
    if n < 0x1_0000_0000 {
        lemma_hex_len_le(n, 8);
    }
    if n < 0x100 {
        lemma_hex_len_le(n, 2);
    }
}

/// Appends `n` as `{:0width$X}` prints it.
pub fn push_hex_padded(s: &mut String, n: u64, width: usize)
    ensures
        final(s)@ == old(s)@ + spec_hex_padded(n as nat, width as nat),
{
    let ghost start = s@;
    let len = hex_len(n);
    if len < width {
        let pad = width - len;
        for i in 0..pad
            invariant
                s@ == start + Seq::new(i as nat, |k: int| '0'),
        {
            push_char(s, '0');
            assert(Seq::new((i + 1) as nat, |k: int| '0') =~= Seq::new(i as nat, |k: int| '0').push(
                '0',
            ));
        }
    }
    push_hex(s, n);
    assert(s@ =~= start + spec_hex_padded(n as nat, width as nat));
}

/// Appends a signed integer as `{}` prints it.
pub fn push_signed_decimal(s: &mut String, i: i64)
    ensures
        final(s)@ == old(s)@ + spec_signed_decimal(i as int),
{
    if i < 0 {
        push_char(s, '-');
        let magnitude: u64 = if i == i64::MIN {
            0x8000_0000_0000_0000u64
        } else {
            (-i) as u64
        };
        push_decimal(s, magnitude);
        assert(s@ =~= old(s)@ + spec_signed_decimal(i as int));
    } else {
        push_decimal(s, i as u64);
    }
}

/// Appends an `Option<u64>` as `{:?}` prints it.
pub fn push_debug_option(s: &mut String, v: Option<u64>)
    ensures
        final(s)@ == old(s)@ + spec_debug_option(v),
{
    let ghost start = s@;
    match v {
        Some(x) => {
            push_char(s, 'S');
            push_char(s, 'o');
            push_char(s, 'm');
            push_char(s, 'e');
            push_char(s, '(');
            push_decimal(s, x);
            push_char(s, ')');
        },
        None => {
            push_char(s, 'N');
            push_char(s, 'o');
            push_char(s, 'n');
            push_char(s, 'e');
        },
    }
    assert(s@ =~= start + spec_debug_option(v));
}

/// The decimal rendering of `n` as a new `String`.
pub fn decimal_string(n: u64) -> (r: String)
    ensures
        r@ == spec_decimal(n as nat),
{
    let mut r = String::new();
    push_decimal(&mut r, n);
    assert(r@ =~= spec_decimal(n as nat));
    r
}

proof fn lemma_digit_char_value(d: nat, radix: nat)
    requires
        d < radix,
        radix == 10 || radix == 16,
    ensures
        digit_value(digit_char(d), radix) == Some(d),
        digit_char(d) != '+',
{
}

proof fn lemma_hex_digits(n: nat)
    ensures
        all_digits(spec_hex(n), 16),
        digits_number(spec_hex(n), 16) == n,
        spec_hex(n).len() > 0,
        spec_hex(n)[0] != '+',
    decreases n,
{
    lemma_digit_char_value(n % 16, 16);
    if n >= 16 {
        lemma_hex_digits(n / 16);
        let prev = spec_hex(n / 16);
        let s = spec_hex(n);
        assert(s == prev.push(digit_char(n % 16)));
        assert(s.drop_last() =~= prev);
        assert forall|i: int| 0 <= i < s.len() implies (#[trigger] digit_value(s[i], 16)) is Some by {
            if i < prev.len() {
                assert(s[i] == prev[i]);
            }
        }
        assert(s[0] == prev[0]);
        assert(s.last() == digit_char(n % 16));
        assert(digits_number(s, 16) == digits_number(prev, 16) * 16 + n % 16);
        assert(n == (n / 16) * 16 + n % 16);
    } else {
        let s = spec_hex(n);
        assert(s.drop_last() =~= Seq::<char>::empty());
        assert(s.last() == digit_char(n));
        assert(digits_number(s, 16) == digits_number(s.drop_last(), 16) * 16 + n);
    }
}

proof fn lemma_zero_digits(z: Seq<char>, radix: nat)
    requires
        radix == 10 || radix == 16,
        forall|i: int| 0 <= i < z.len() ==> z[i] == '0',
    ensures
        digits_number(z, radix) == 0,
        all_digits(z, radix),
    decreases z.len(),
{
    if z.len() > 0 {
        lemma_zero_digits(z.drop_last(), radix);
        assert forall|i: int| 0 <= i < z.len() implies (#[trigger] digit_value(z[i], radix)) is Some by {
            assert(z[i] == '0');
        }
    }
}

proof fn lemma_leading_zeros(z: Seq<char>, s: Seq<char>, radix: nat)
    requires
        radix == 10 || radix == 16,
        forall|i: int| 0 <= i < z.len() ==> z[i] == '0',
    ensures
        digits_number(z + s, radix) == digits_number(s, radix),
    decreases s.len(),
{
    if s.len() == 0 {
        assert(z + s =~= z);
        lemma_zero_digits(z, radix);
    } else {
        lemma_leading_zeros(z, s.drop_last(), radix);
        assert((z + s).drop_last() =~= z + s.drop_last());
        assert((z + s).last() == s.last());
    }
}

/// The characters of a zero-padded hexadecimal rendering are all
/// hexadecimal digits, and there is at least one.
pub proof fn lemma_hex_padded_digits(n: nat, width: nat)
    ensures
        all_digits(spec_hex_padded(n, width), 16),
        spec_hex_padded(n, width).len() > 0,
        spec_hex_padded(n, width)[0] != '+',
        digits_number(spec_hex_padded(n, width), 16) == n,
{
    lemma_hex_digits(n);
    let digits = spec_hex(n);
    let padded = spec_hex_padded(n, width);
    if digits.len() < width {
        let z = Seq::new((width - digits.len()) as nat, |i: int| '0');
        assert(padded == z + digits);
        lemma_leading_zeros(z, digits, 16);
        lemma_zero_digits(z, 16);
        assert(padded[0] == '0');
        assert forall|i: int| 0 <= i < padded.len() implies (#[trigger] digit_value(padded[i], 16)) is Some by {
            if i < z.len() {
                assert(padded[i] == z[i]);
            } else {
                assert(padded[i] == digits[i - z.len()]);
            }
        }
    }
}

/// Hexadecimal rendering is undone by parsing: the digits that
/// [`push_hex_padded`] writes for `n`, zero padded to any width, parse
/// back to `n` in base 16 whenever `n` fits the target type.
pub proof fn law_hex_padded_parses_back(n: nat, width: nat, max: nat)
    requires
        n <= max,
    ensures
        spec_parse_unsigned(spec_hex_padded(n, width), 16, max) == Some(n),
{
    lemma_hex_padded_digits(n, width);
    let padded = spec_hex_padded(n, width);
    assert(unsigned_literal_digits(padded, 16) == Some(padded));
}

// ----------------------------------------------------------------------------
// Splitting
// ----------------------------------------------------------------------------

/// The pieces of `s` between occurrences of `sep`, as std's `str::split`
/// with a character pattern: one more piece than there are separators.
pub open spec fn split_by(s: Seq<char>, sep: char) -> Seq<Seq<char>>
    decreases s.len(),
{
    if s.len() == 0 {
        seq![Seq::empty()]
    } else {
        let prev = split_by(s.drop_last(), sep);
        if s.last() == sep {
            prev.push(Seq::empty())
        } else {
            prev.update(prev.len() - 1, prev.last().push(s.last()))
        }
    }
}

/// Splitting always gives at least one piece.
pub proof fn lemma_split_by_nonempty(s: Seq<char>, sep: char)
    ensures
        split_by(s, sep).len() >= 1,
    decreases s.len(),
{
    if s.len() > 0 {
        lemma_split_by_nonempty(s.drop_last(), sep);
    }
}

/// The pieces of `v` between occurrences of `sep`.
pub fn split_chars(v: &[char], sep: char) -> (r: Vec<Vec<char>>)
    ensures
        r.len() == split_by(v@, sep).len(),
        forall|j: int| 0 <= j < r.len() ==> (#[trigger] r[j])@ == split_by(v@, sep)[j],
{
    let n = v.len();
    let mut parts: Vec<Vec<char>> = Vec::new();
    let mut cur: Vec<char> = Vec::new();
    assert(v@.take(0) =~= Seq::<char>::empty());
    for i in 0..n
        invariant
            n == v@.len(),
            parts.len() + 1 == split_by(v@.take(i as int), sep).len(),
            forall|j: int| 0 <= j < parts.len() ==> (#[trigger] parts[j])@ == split_by(v@.take(i as int), sep)[j],
            cur@ == split_by(v@.take(i as int), sep).last(),
    {
        let ghost before = v@.take(i as int);
        assert(v@.take(i + 1).drop_last() =~= before);
        assert(v@.take(i + 1).last() == v@[i as int]);
        proof {
            lemma_split_by_nonempty(before, sep);
        }
        let c = v[i];
        if c == sep {
            let done = cur;
            parts.push(done);
            cur = Vec::new();
        } else {
            cur.push(c);
        }
    }
    assert(v@.take(n as int) =~= v@);
    parts.push(cur);
    parts
}

// ----------------------------------------------------------------------------
// Number grammars
// ----------------------------------------------------------------------------

/// The value of digit character `c` in base `radix` (10 or 16; hexadecimal
/// digits in either case), if it is one.
pub open spec fn digit_value(c: char, radix: nat) -> Option<nat> {
    let u = c as u32;
    if 48 <= u <= 57 && u - 48 < radix {
        Some((u - 48) as nat)
    } else if radix == 16 && 65 <= u <= 70 {
        Some((u - 55) as nat)
    } else if radix == 16 && 97 <= u <= 102 {
        Some((u - 87) as nat)
    } else {
        None
    }
}

/// Every character of `s` is a digit in base `radix`.
pub open spec fn all_digits(s: Seq<char>, radix: nat) -> bool {
    forall|i: int| 0 <= i < s.len() ==> (#[trigger] digit_value(s[i], radix)) is Some
}

/// The number that the digit run `s` denotes in base `radix`.
pub open spec fn digits_number(s: Seq<char>, radix: nat) -> nat
    decreases s.len(),
{
    if s.len() == 0 {
        0
    } else {
        digits_number(s.drop_last(), radix) * radix + match digit_value(s.last(), radix) {
            Some(d) => d,
            None => 0,
        }
    }
}

/// The digit run of an unsigned literal as std's `from_str_radix` reads it:
/// an optional leading `+`, then at least one digit, nothing else.
pub open spec fn unsigned_literal_digits(s: Seq<char>, radix: nat) -> Option<Seq<char>> {
    let rest = if s.len() > 0 && s[0] == '+' {
        s.drop_first()
    } else {
        s
    };
    if rest.len() > 0 && all_digits(rest, radix) {
        Some(rest)
    } else {
        None
    }
}

/// What std's `from_str_radix` (and `str::parse`) gives for an unsigned
/// integer type whose largest value is `max`: the value, or `None` for an
/// empty or malformed literal or one that overflows.
pub open spec fn spec_parse_unsigned(s: Seq<char>, radix: nat, max: nat) -> Option<nat> {
    match unsigned_literal_digits(s, radix) {
        Some(d) => if digits_number(d, radix) <= max {
            Some(digits_number(d, radix))
        } else {
            None
        },
        None => None,
    }
}

proof fn lemma_digits_number_prefix(s: Seq<char>, radix: nat, i: int)
    requires
        0 <= i <= s.len(),
        radix >= 1,
    ensures
        digits_number(s.take(i), radix) <= digits_number(s, radix),
    decreases s.len() - i,
{
    if i < s.len() {
        lemma_digits_number_prefix(s, radix, i + 1);
        assert(s.take(i + 1).drop_last() =~= s.take(i));
        let a = digits_number(s.take(i), radix);
        assert(a <= a * radix) by (nonlinear_arith)
            requires
                radix >= 1,
        ;
    } else {
        assert(s.take(i) =~= s);
    }
}

/// Parses an unsigned literal as std's `from_str_radix` does, for an integer
/// type whose largest value is `max`.
pub fn parse_unsigned(s: &str, radix: u64, max: u64) -> (r: Option<u64>)
    requires
        radix == 10 || radix == 16,
    ensures
        r matches Some(v) ==> spec_parse_unsigned(s@, radix as nat, max as nat) == Some(v as nat),
        r is None ==> spec_parse_unsigned(s@, radix as nat, max as nat) is None,
{
    let v = chars_of(s);
    parse_unsigned_chars(v.as_slice(), radix, max)
}

/// Parses an unsigned literal held as characters (see [`parse_unsigned`]).
pub fn parse_unsigned_chars(v: &[char], radix: u64, max: u64) -> (r: Option<u64>)
    requires
        radix == 10 || radix == 16,
    ensures
        r matches Some(x) ==> spec_parse_unsigned(v@, radix as nat, max as nat) == Some(x as nat),
        r is None ==> spec_parse_unsigned(v@, radix as nat, max as nat) is None,
{
    let n = v.len();
    let start: usize = if n > 0 && v[0] == '+' {
        1
    } else {
        0
    };
    let ghost rest = v@.subrange(start as int, n as int);
    assert(rest =~= if v@.len() > 0 && v@[0] == '+' {
        v@.drop_first()
    } else {
        v@
    });
    if start >= n {
        return None;
    }
    let mut value: u64 = 0;
    let mut i: usize = start;
    while i < n
        invariant
            start <= i <= n,
            n == v@.len(),
            rest == v@.subrange(start as int, n as int),
            rest.len() > 0,
            rest == (if v@.len() > 0 && v@[0] == '+' {
                v@.drop_first()
            } else {
                v@
            }),
            radix == 10 || radix == 16,
            all_digits(v@.subrange(start as int, i as int), radix as nat),
            value as nat == digits_number(v@.subrange(start as int, i as int), radix as nat),
            value <= max,
        decreases n - i,
    {
        let c = v[i];
        let u = c as u32;
        let d: u64;
        if 48 <= u && u <= 57 && ((u - 48) as u64) < radix {
            d = (u - 48) as u64;
        } else if radix == 16 && 65 <= u && u <= 70 {
            d = (u - 55) as u64;
        } else if radix == 16 && 97 <= u && u <= 102 {
            d = (u - 87) as u64;
        } else {
            proof {
                assert(digit_value(c, radix as nat) is None);
                assert(rest[i - start] == c);
                assert(!all_digits(rest, radix as nat));
                assert(unsigned_literal_digits(v@, radix as nat) is None);
            }
            return None;
        }
        let ghost pre = v@.subrange(start as int, i as int);
        let ghost nxt = v@.subrange(start as int, i + 1);
        assert(nxt.drop_last() =~= pre);
        assert(digit_value(c, radix as nat) == Some(d as nat));
        assert(all_digits(nxt, radix as nat)) by {
            assert forall|k: int| 0 <= k < nxt.len() implies (#[trigger] digit_value(
                nxt[k],
                radix as nat,
            )) is Some by {
                if k < pre.len() {
                    assert(nxt[k] == pre[k]);
                }
            }
        }
        assert(digits_number(nxt, radix as nat) == value * radix + d);
        let next: u128 = value as u128 * radix as u128 + d as u128;
        if next > max as u128 {
            proof {
                lemma_digits_number_prefix(rest, radix as nat, (i + 1 - start) as int);
                assert(rest.take((i + 1 - start) as int) =~= nxt);
                assert(digits_number(rest, radix as nat) > max);
            }
            return None;
        }
        value = next as u64;
        i = i + 1;
    }
    assert(v@.subrange(start as int, n as int) =~= rest);
    Some(value)
}

// ----------------------------------------------------------------------------
// Whitespace and case
// ----------------------------------------------------------------------------

/// `c` has the Unicode `White_Space` property, which is what std's
/// `str::trim` removes.
pub open spec fn is_white_space(c: char) -> bool {
    let u = c as u32;
    ||| 0x9 <= u <= 0xD
    ||| u == 0x20
    ||| u == 0x85
    ||| u == 0xA0
    ||| u == 0x1680
    ||| 0x2000 <= u <= 0x200A
    ||| u == 0x2028
    ||| u == 0x2029
    ||| u == 0x202F
    ||| u == 0x205F
    ||| u == 0x3000
}

/// `s` without its leading white space.
pub open spec fn trim_start(s: Seq<char>) -> Seq<char>
    decreases s.len(),
{
    if s.len() > 0 && is_white_space(s[0]) {
        trim_start(s.drop_first())
    } else {
        s
    }
}

/// `s` without its trailing white space.
pub open spec fn trim_end(s: Seq<char>) -> Seq<char>
    decreases s.len(),
{
    if s.len() > 0 && is_white_space(s.last()) {
        trim_end(s.drop_last())
    } else {
        s
    }
}

/// `s` without leading and trailing white space, as std's `str::trim`.
pub open spec fn spec_trim(s: Seq<char>) -> Seq<char> {
    trim_end(trim_start(s))
}

/// Whether `c` is Unicode white space (see [`is_white_space`]).
pub fn char_is_white_space(c: char) -> (r: bool)
    ensures
        r == is_white_space(c),
{
    let u = c as u32;
    (0x9 <= u && u <= 0xD) || u == 0x20 || u == 0x85 || u == 0xA0 || u == 0x1680 || (0x2000 <= u
        && u <= 0x200A) || u == 0x2028 || u == 0x2029 || u == 0x202F || u == 0x205F || u == 0x3000
}

/// The characters of `v` without leading and trailing white space.
pub fn trim_chars(v: &[char]) -> (r: Vec<char>)
    ensures
        r@ == spec_trim(v@),
{
    let n = v.len();
    let mut a: usize = 0;
    assert(v@.subrange(0, n as int) =~= v@);
    while a < n && char_is_white_space(v[a])
        invariant
            a <= n,
            n == v@.len(),
            trim_start(v@) == trim_start(v@.subrange(a as int, n as int)),
        decreases n - a,
    {
        assert(v@.subrange(a as int, n as int).drop_first() =~= v@.subrange(a + 1, n as int));
        a = a + 1;
    }
    let ghost front = v@.subrange(a as int, n as int);
    assert(trim_start(v@) == front) by {
        if front.len() > 0 {
            assert(front[0] == v@[a as int]);
        }
    }
    let mut b: usize = n;
    while b > a && char_is_white_space(v[b - 1])
        invariant
            a <= b <= n,
            n == v@.len(),
            front == v@.subrange(a as int, n as int),
            trim_end(front) == trim_end(v@.subrange(a as int, b as int)),
        decreases b - a,
    {
        assert(v@.subrange(a as int, b as int).drop_last() =~= v@.subrange(a as int, b - 1));
        b = b - 1;
    }
    let ghost kept = v@.subrange(a as int, b as int);
    assert(trim_end(front) == kept) by {
        if kept.len() > 0 {
            assert(kept.last() == v@[b - 1]);
        }
    }
    let mut r: Vec<char> = Vec::new();
    let mut i: usize = a;
    while i < b
        invariant
            a <= i <= b <= n,
            n == v@.len(),
            r@ == v@.subrange(a as int, i as int),
        decreases b - i,
    {
        r.push(v[i]);
        assert(v@.subrange(a as int, i + 1) =~= v@.subrange(a as int, i as int).push(v@[i as int]));
        i = i + 1;
    }
    r
}

/// The characters of `s` without leading and trailing white space.
pub fn trim(s: &str) -> (r: Vec<char>)
    ensures
        r@ == spec_trim(s@),
{
    let v = chars_of(s);
    trim_chars(v.as_slice())
}

/// `c` with an ASCII upper-case letter mapped to lower case, as std's
/// `char::to_ascii_lowercase`.
pub open spec fn ascii_lower(c: char) -> char {
    if 'A' <= c <= 'Z' {
        ((c as u32) + 32) as char
    } else {
        c
    }
}

/// `s` with ASCII upper-case letters mapped to lower case.
pub open spec fn ascii_lower_seq(s: Seq<char>) -> Seq<char> {
    s.map_values(|c: char| ascii_lower(c))
}

/// `c` in ASCII lower case (see [`ascii_lower`]).
pub fn char_ascii_lower(c: char) -> (r: char)
    ensures
        r == ascii_lower(c),
{
    if 'A' <= c && c <= 'Z' {
        let b: u8 = (c as u8) + 32;
        b as char
    } else {
        c
    }
}

/// `v` with ASCII upper-case letters mapped to lower case.
pub fn ascii_lower_chars(v: &[char]) -> (r: Vec<char>)
    ensures
        r@ == ascii_lower_seq(v@),
{
    let mut r: Vec<char> = Vec::new();
    let n = v.len();
    for i in 0..n
        invariant
            n == v@.len(),
            r@ == ascii_lower_seq(v@.take(i as int)),
    {
        r.push(char_ascii_lower(v[i]));
        assert(ascii_lower_seq(v@.take(i + 1)) =~= ascii_lower_seq(v@.take(i as int)).push(
            ascii_lower(v@[i as int]),
        ));
    }
    assert(v@.take(n as int) =~= v@);
    r
}

// ----------------------------------------------------------------------------
// Searching
// ----------------------------------------------------------------------------

/// `needle` occurs in `hay` starting at position `i`.
pub open spec fn occurs_at(hay: Seq<char>, needle: Seq<char>, i: int) -> bool {
    0 <= i && i + needle.len() <= hay.len() && hay.subrange(i, i + needle.len()) == needle
}

/// `needle` occurs somewhere in `hay` (std's `str::contains` with a string
/// pattern).
pub open spec fn seq_contains(hay: Seq<char>, needle: Seq<char>) -> bool {
    exists|i: int| occurs_at(hay, needle, i)
}

/// Whether `needle` occurs at position `i` of `hay`.
pub fn chars_occur_at(hay: &[char], needle: &[char], i: usize) -> (r: bool)
    ensures
        r == occurs_at(hay@, needle@, i as int),
{
    let n = needle.len();
    let hl = hay.len();
    if i > hl || n > hl - i {
        return false;
    }
    let mut k: usize = 0;
    while k < n
        invariant
            hl == hay@.len(),
            k <= n,
            n == needle@.len(),
            i + n <= hay@.len(),
            forall|j: int| 0 <= j < k ==> hay@[i + j] == needle@[j],
        decreases n - k,
    {
        assert(i + k < hay@.len());
        if hay[i + k] != needle[k] {
            assert(hay@.subrange(i as int, i + n)[k as int] != needle@[k as int]);
            return false;
        }
        k = k + 1;
    }
    assert(hay@.subrange(i as int, i + n) =~= needle@);
    true
}

/// Whether `needle` occurs somewhere in `hay`.
pub fn chars_contain(hay: &[char], needle: &[char]) -> (r: bool)
    ensures
        r == seq_contains(hay@, needle@),
{
    let h = hay.len();
    for i in 0..h
        invariant
            h == hay@.len(),
            forall|j: int| 0 <= j < i ==> !occurs_at(hay@, needle@, j),
    {
        if chars_occur_at(hay, needle, i) {
            return true;
        }
    }
    if chars_occur_at(hay, needle, h) {
        return true;
    }
    assert forall|j: int| !occurs_at(hay@, needle@, j) by {
        if 0 <= j && j < h {
        } else if j == h {
        } else {
        }
    }
    false
}

/// Whether the text `needle` occurs in the text `hay`.
pub fn text_contains(hay: &str, needle: &str) -> (r: bool)
    ensures
        r == seq_contains(hay@, needle@),
{
    let h = chars_of(hay);
    let n = chars_of(needle);
    chars_contain(h.as_slice(), n.as_slice())
}

} // verus!
