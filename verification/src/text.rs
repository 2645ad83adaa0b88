//! Text as sequences of characters: trimming, numbers, searching and splitting.
use vstd::prelude::*;
use vstd::utf8::*;

verus! {

/// `String::push` appends one character to the end of the string.
pub assume_specification[ std::string::String::push ](s: &mut std::string::String, c: char)
    ensures
        final(s)@ == old(s)@.push(c),
;

// ---------------------------------------------------------------------------
// Characters and equality
// ---------------------------------------------------------------------------

/// The characters of `s` in order.
pub fn chars_of(s: &str) -> (out: Vec<char>)
    ensures
        out@ == s@,
{
    let mut out: Vec<char> = Vec::new();
    for c in it: s.chars()
        invariant
            out@ == it.seq().take(it.index() as int),
            it.seq() == s@,
    {
        out.push(c);
    }
    out
}

/// The text of `cs[from..to]`.
pub fn text_of(cs: &Vec<char>, from: usize, to: usize) -> (out: String)
    requires
        from <= to <= cs.len(),
    ensures
        out@ == cs@.subrange(from as int, to as int),
{
    let mut out = String::new();
    let mut i: usize = from;
    while i < to
        invariant
            from <= i <= to <= cs.len(),
            out@ == cs@.subrange(from as int, i as int),
        decreases to - i,
    {
        out.push(cs[i]);
        i += 1;
    }
    out
}

/// Whether two texts hold the same characters.
pub fn same_text(a: &str, b: &str) -> (same: bool)
    ensures
        same == (a@ == b@),
{
    a.to_owned() == b.to_owned()
}

/// Whether the optional text holds exactly `b`.
pub fn is_text(a: &Option<String>, b: &str) -> (same: bool)
    ensures
        same == (a is Some && a->0@ == b@),
{
    match a {
        Some(a) => same_text(a.as_str(), b),
        None => false,
    }
}

/// What an optional text holds.
pub open spec fn text_view(s: Option<String>) -> Option<Seq<char>> {
    match s {
        Some(s) => Some(s@),
        None => None,
    }
}

/// The views of the texts of a sequence.
pub open spec fn texts(s: Seq<String>) -> Seq<Seq<char>> {
    Seq::new(s.len(), |i: int| s[i]@)
}

/// The number of bytes of the UTF-8 encoding.
pub open spec fn byte_len(s: Seq<char>) -> nat {
    encode_utf8(s).len()
}

/// The number of bytes that `s` takes.
pub fn bytes_in(s: &str) -> (n: usize)
    ensures
        n == byte_len(s@),
{
    s.as_bytes().len()
}

/// Two texts joined.
pub fn join2(a: &str, b: &str) -> (out: String)
    ensures
        out@ == a@ + b@,
{
    let mut out = a.to_owned();
    out.append(b);
    out
}

/// Three texts joined.
pub fn join3(a: &str, b: &str, c: &str) -> (out: String)
    ensures
        out@ == a@ + b@ + c@,
{
    let mut out = a.to_owned();
    out.append(b);
    out.append(c);
    out
}

/// Five texts joined.
pub fn join5(a: &str, b: &str, c: &str, d: &str, e: &str) -> (out: String)
    ensures
        out@ == a@ + b@ + c@ + d@ + e@,
{
    let mut out = a.to_owned();
    out.append(b);
    out.append(c);
    out.append(d);
    out.append(e);
    out
}

// ---------------------------------------------------------------------------
// White space
// ---------------------------------------------------------------------------

/// The characters with the Unicode property `White_Space`.
pub open spec fn is_white_space(c: char) -> bool {
    let n = c as u32;
    ||| 0x09 <= n <= 0x0d
    ||| n == 0x20
    ||| n == 0x85
    ||| n == 0xa0
    ||| n == 0x1680
    ||| 0x2000 <= n <= 0x200a
    ||| n == 0x2028
    ||| n == 0x2029
    ||| n == 0x202f
    ||| n == 0x205f
    ||| n == 0x3000
}

/// Whether `c` is white space.
pub fn white_space(c: char) -> (result: bool)
    ensures
        result == is_white_space(c),
{
    let n: u32 = c as u32;
    (0x09 <= n && n <= 0x0d) || n == 0x20 || n == 0x85 || n == 0xa0 || n == 0x1680 || (0x2000 <= n
        && n <= 0x200a) || n == 0x2028 || n == 0x2029 || n == 0x202f || n == 0x205f || n == 0x3000
}

/// The text without its leading white space.
pub open spec fn trimmed_start(s: Seq<char>) -> Seq<char>
    decreases s.len(),
{
    if s.len() > 0 && is_white_space(s[0]) {
        trimmed_start(s.skip(1))
    } else {
        s
    }
}

/// The text without its trailing white space.
pub open spec fn trimmed_end(s: Seq<char>) -> Seq<char>
    decreases s.len(),
{
    if s.len() > 0 && is_white_space(s.last()) {
        trimmed_end(s.drop_last())
    } else {
        s
    }
}

/// The text without leading and trailing white space.
pub open spec fn trimmed(s: Seq<char>) -> Seq<char> {
    trimmed_end(trimmed_start(s))
}

/// `s` without leading and trailing white space.
pub fn trim(s: &str) -> (out: &str)
    ensures
        out@ == trimmed(s@),
{
    let cs = chars_of(s);
    let mut lo: usize = 0;
    proof {
        assert(s@.skip(0) =~= s@);
    }
    while lo < cs.len() && white_space(cs[lo])
        invariant
            lo <= cs.len(),
            cs@ == s@,
            trimmed_start(s@) == trimmed_start(s@.skip(lo as int)),
        decreases cs.len() - lo,
    {
        proof {
            assert(s@.skip(lo as int).skip(1) =~= s@.skip(lo as int + 1));
        }
        lo += 1;
    }
    let mut hi: usize = cs.len();
    proof {
        assert(s@.skip(lo as int) =~= s@.subrange(lo as int, hi as int));
    }
    while lo < hi && white_space(cs[hi - 1])
        invariant
            lo <= hi <= cs.len(),
            cs@ == s@,
            trimmed(s@) == trimmed_end(s@.subrange(lo as int, hi as int)),
        decreases hi - lo,
    {
        proof {
            assert(s@.subrange(lo as int, hi as int).drop_last() =~= s@.subrange(
                lo as int,
                hi as int - 1,
            ));
        }
        hi -= 1;
    }
    s.substring_char(lo, hi)
}

/// Trimming what is already trimmed changes nothing.
pub proof fn law_trim_idempotent(s: Seq<char>)
    ensures
        trimmed(trimmed(s)) == trimmed(s),
{
    lemma_trimmed_edges(s);
}

/// A trimmed text has no white space at either edge.
pub proof fn lemma_trimmed_edges(s: Seq<char>)
    ensures
        trimmed(s).len() > 0 ==> !is_white_space(trimmed(s)[0]) && !is_white_space(
            trimmed(s).last(),
        ),
{
    lemma_start_edge(s);
    lemma_end_edge(trimmed_start(s));
}

proof fn lemma_start_edge(s: Seq<char>)
    ensures
        trimmed_start(s).len() > 0 ==> !is_white_space(trimmed_start(s)[0]),
    decreases s.len(),
{
    if s.len() > 0 && is_white_space(s[0]) {
        lemma_start_edge(s.skip(1));
    }
}

proof fn lemma_end_edge(s: Seq<char>)
    ensures
        trimmed_end(s).len() > 0 ==> !is_white_space(trimmed_end(s).last()) && trimmed_end(s)[0]
            == s[0],
        trimmed_end(s).len() <= s.len(),
    decreases s.len(),
{
    if s.len() > 0 && is_white_space(s.last()) {
        lemma_end_edge(s.drop_last());
    }
}

// ---------------------------------------------------------------------------
// Numbers
// ---------------------------------------------------------------------------

/// The decimal digit `d`.
pub open spec fn digit_char(d: nat) -> char {
    (48 + d) as char
}

/// The shortest decimal form of `n`.
pub open spec fn decimal_text(n: nat) -> Seq<char>
    decreases n,
{
    if n < 10 {
        seq![digit_char(n)]
    } else {
        decimal_text(n / 10).push(digit_char(n % 10))
    }
}

/// The decimal form of an integer, with a minus sign before a negative one.
pub open spec fn signed_text(n: int) -> Seq<char> {
    if n < 0 {
        seq!['-'] + decimal_text((-n) as nat)
    } else {
        decimal_text(n as nat)
    }
}

fn digit(d: u8) -> (c: char)
    requires
        d < 10,
    ensures
        c == digit_char(d as nat),
{
    (48u8 + d) as char
}

/// The shortest decimal form of `n`.
pub fn decimal(n: u64) -> (out: String)
    ensures
        out@ == decimal_text(n as nat),
    decreases n,
{
    if n < 10 {
        let mut out = String::new();
        out.push(digit(n as u8));
        out
    } else {
        let mut out = decimal(n / 10);
        out.push(digit((n % 10) as u8));
        out
    }
}

/// The decimal form of a signed number.
pub fn decimal_signed(n: i64) -> (out: String)
    requires
        n > i64::MIN,
    ensures
        out@ == signed_text(n as int),
{
    if n < 0 {
        let mut out = String::new();
        out.push('-');
        let magnitude = decimal((-n) as u64);
        out.append(magnitude.as_str());
        out
    } else {
        decimal(n as u64)
    }
}

/// `s` with zeros in front up to `width` characters.
pub open spec fn zero_padded(s: Seq<char>, width: nat) -> Seq<char> {
    if s.len() < width {
        Seq::new((width - s.len()) as nat, |i: int| '0') + s
    } else {
        s
    }
}

/// `s` with zeros in front up to `width` characters.
pub fn pad_zeros(s: &str, width: usize) -> (out: String)
    ensures
        out@ == zero_padded(s@, width as nat),
{
    let length: usize = s.unicode_len();
    let mut out = String::new();
    let mut i: usize = length;
    while i < width
        invariant
            length <= i,
            i <= width || i == length,
            out@ == Seq::new((i - length) as nat, |i: int| '0'),
        decreases width - i,
    {
        out.push('0');
        i += 1;
    }
    out.append(s);
    out
}

/// A decimal digit.
pub open spec fn is_digit(c: char) -> bool {
    48 <= c as u32 <= 57
}

/// Whether every character is a decimal digit.
pub open spec fn all_digits(s: Seq<char>) -> bool {
    forall|i: int| 0 <= i < s.len() ==> is_digit(#[trigger] s[i])
}

/// The number that a row of decimal digits denotes.
pub open spec fn digits_value(s: Seq<char>) -> nat
    decreases s.len(),
{
    if s.len() == 0 {
        0
    } else {
        digits_value(s.drop_last()) * 10 + (s.last() as u32 - 48) as nat
    }
}

/// The number written as a non-empty row of decimal digits.
pub open spec fn decimal_value(s: Seq<char>) -> Option<nat> {
    if s.len() > 0 && all_digits(s) {
        Some(digits_value(s))
    } else {
        None
    }
}

/// The number written as digits with an optional plus sign.
pub open spec fn unsigned_value(s: Seq<char>) -> Option<nat> {
    if s.len() > 0 && s[0] == '+' {
        decimal_value(s.skip(1))
    } else {
        decimal_value(s)
    }
}

/// The number written as digits with an optional plus or minus sign.
pub open spec fn signed_value(s: Seq<char>) -> Option<int> {
    if s.len() > 0 && s[0] == '-' {
        match decimal_value(s.skip(1)) {
            Some(n) => Some(-n),
            None => None,
        }
    } else {
        match unsigned_value(s) {
            Some(n) => Some(n as int),
            None => None,
        }
    }
}

proof fn lemma_digits_prefix(s: Seq<char>, k: int)
    requires
        0 <= k <= s.len(),
        all_digits(s),
    ensures
        digits_value(s.take(k)) <= digits_value(s),
    decreases s.len(),
{
    if k == s.len() {
        assert(s.take(k) =~= s);
    } else {
        assert(s.drop_last().take(k) =~= s.take(k));
        lemma_digits_prefix(s.drop_last(), k);
        assert(is_digit(s[s.len() - 1]));
    }
}

/// The number written in `cs[from..]`, where it is at most `max`.
pub fn parse_digits(cs: &Vec<char>, from: usize, max: u64) -> (out: Option<u64>)
    requires
        from <= cs.len(),
    ensures
        match decimal_value(cs@.skip(from as int)) {
            Some(n) => if n <= max {
                out == Some(n as u64)
            } else {
                out is None
            },
            None => out is None,
        },
{
    if from == cs.len() {
        return None;
    }
    let ghost s = cs@.skip(from as int);
    let mut i: usize = from;
    let mut value: u64 = 0;
    while i < cs.len()
        invariant
            from <= i <= cs.len(),
            s == cs@.skip(from as int),
            s.len() > 0,
            all_digits(s.take(i - from)),
            value == digits_value(s.take(i - from)),
            value <= max,
        decreases cs.len() - i,
    {
        let c: u32 = cs[i] as u32;
        proof {
            assert(s[i - from] == cs@[i as int]);
            assert(s.take(i - from + 1).drop_last() =~= s.take(i - from));
        }
        if c < 48 || c > 57 {
            return None;
        }
        let next: u128 = value as u128 * 10 + (c - 48) as u128;
        if next > max as u128 {
            proof {
                if all_digits(s) {
                    lemma_digits_prefix(s, i - from + 1);
                }
            }
            return None;
        }
        value = next as u64;
        i += 1;
    }
    proof {
        assert(s.take(i - from) =~= s);
    }
    Some(value)
}

/// The unsigned number of the machine's size that `s` writes.
pub fn parse_usize(s: &str) -> (out: Option<usize>)
    ensures
        match unsigned_value(s@) {
            Some(n) => if n <= usize::MAX {
                out == Some(n as usize)
            } else {
                out is None
            },
            None => out is None,
        },
{
    let cs = chars_of(s);
    let from: usize = if cs.len() > 0 && cs[0] == '+' {
        1
    } else {
        0
    };
    proof {
        assert(cs@.skip(0) =~= cs@);
    }
    match parse_digits(&cs, from, usize::MAX as u64) {
        Some(n) => Some(n as usize),
        None => None,
    }
}

/// The unsigned 16-bit number that `s` writes.
pub fn parse_u16(s: &str) -> (out: Option<u16>)
    ensures
        match unsigned_value(s@) {
            Some(n) => if n <= u16::MAX {
                out == Some(n as u16)
            } else {
                out is None
            },
            None => out is None,
        },
{
    let cs = chars_of(s);
    let from: usize = if cs.len() > 0 && cs[0] == '+' {
        1
    } else {
        0
    };
    proof {
        assert(cs@.skip(0) =~= cs@);
    }
    match parse_digits(&cs, from, 65535) {
        Some(n) => Some(n as u16),
        None => None,
    }
}

/// The signed 16-bit number that `s` writes.
pub fn parse_i16(s: &str) -> (out: Option<i16>)
    ensures
        match signed_value(s@) {
            Some(n) => if i16::MIN <= n <= i16::MAX {
                out == Some(n as i16)
            } else {
                out is None
            },
            None => out is None,
        },
{
    let cs = chars_of(s);
    proof {
        assert(cs@.skip(0) =~= cs@);
    }
    if cs.len() > 0 && cs[0] == '-' {
        match parse_digits(&cs, 1, 32768) {
            Some(n) => Some((-(n as i32)) as i16),
            None => None,
        }
    } else {
        let from: usize = if cs.len() > 0 && cs[0] == '+' {
            1
        } else {
            0
        };
        match parse_digits(&cs, from, 32767) {
            Some(n) => Some(n as i16),
            None => None,
        }
    }
}

/// A decimal form is a non-empty row of digits that denotes the number.
pub proof fn lemma_decimal_digits(n: nat)
    ensures
        decimal_text(n).len() > 0,
        all_digits(decimal_text(n)),
        digits_value(decimal_text(n)) == n,
    decreases n,
{
    if n < 10 {
        assert(decimal_text(n).drop_last() =~= Seq::<char>::empty());
        assert(digits_value(Seq::<char>::empty()) == 0);
    } else {
        lemma_decimal_digits(n / 10);
        assert(decimal_text(n).drop_last() =~= decimal_text(n / 10));
    }
}

/// Reading back the decimal form of a number gives the number.
pub proof fn law_decimal_round_trip(n: nat)
    ensures
        unsigned_value(decimal_text(n)) == Some(n),
        signed_value(decimal_text(n)) == Some(n as int),
{
    lemma_decimal_digits(n);
    assert(is_digit(decimal_text(n)[0]));
}

proof fn lemma_digit_zeros(k: nat, s: Seq<char>)
    ensures
        digits_value(Seq::new(k, |i: int| '0') + s) == digits_value(s),
    decreases s.len(), k,
{
    let zeros = Seq::new(k, |i: int| '0');
    if s.len() > 0 {
        lemma_digit_zeros(k, s.drop_last());
        assert((zeros + s).drop_last() =~= zeros + s.drop_last());
    } else if k > 0 {
        lemma_digit_zeros((k - 1) as nat, s);
        assert((zeros + s).drop_last() =~= Seq::new((k - 1) as nat, |i: int| '0') + s);
        assert(zeros + s =~= zeros);
    }
}

/// Zeros in front of a decimal form do not change the number it denotes.
pub proof fn lemma_padded_value(n: nat, width: nat)
    ensures
        digits_value(zero_padded(decimal_text(n), width)) == n,
{
    let s = decimal_text(n);
    lemma_decimal_digits(n);
    if s.len() < width {
        lemma_digit_zeros((width - s.len()) as nat, s);
    }
}

/// A decimal form is short: a number below `10^k` takes at most `k` digits.
pub proof fn lemma_decimal_length(n: nat, k: nat)
    requires
        n < pow10(k),
        k > 0,
    ensures
        0 < decimal_text(n).len() <= k,
    decreases k,
{
    reveal_with_fuel(pow10, 3);
    lemma_decimal_digits(n);
    if n >= 10 {
        assert(n / 10 < pow10((k - 1) as nat));
        lemma_decimal_length(n / 10, (k - 1) as nat);
    }
}

/// `10^k`.
pub open spec fn pow10(k: nat) -> nat
    decreases k,
{
    if k == 0 {
        1
    } else {
        10 * pow10((k - 1) as nat)
    }
}

/// A text of ASCII characters takes one byte for each.
pub proof fn lemma_ascii_bytes(s: Seq<char>)
    requires
        forall|i: int| 0 <= i < s.len() ==> (#[trigger] s[i]) as u32 <= 0x7f,
    ensures
        byte_len(s) == s.len(),
    decreases s.len(),
{
    if s.len() > 0 {
        lemma_ascii_bytes(s.drop_last());
        lemma_byte_len_push(s.drop_last(), s.last());
        lemma_char_bytes(s.last());
        assert(s.drop_last().push(s.last()) =~= s);
    }
}

/// Reading back the decimal form of a signed number gives the number.
pub proof fn law_signed_round_trip(n: int)
    ensures
        signed_value(signed_text(n)) == Some(n),
{
    if n < 0 {
        lemma_decimal_digits((-n) as nat);
        assert(signed_text(n).skip(1) =~= decimal_text((-n) as nat));
    } else {
        law_decimal_round_trip(n as nat);
    }
}

// ---------------------------------------------------------------------------
// Hexadecimal
// ---------------------------------------------------------------------------

/// The lower-case hexadecimal digit `d`.
pub open spec fn hex_char(d: nat) -> char {
    if d < 10 {
        (48 + d) as char
    } else {
        (87 + d) as char
    }
}

/// The shortest lower-case hexadecimal form of `n`.
pub open spec fn hex_text(n: nat) -> Seq<char>
    decreases n,
{
    if n < 16 {
        seq![hex_char(n)]
    } else {
        hex_text(n / 16).push(hex_char(n % 16))
    }
}

/// The shortest lower-case hexadecimal form of `n`.
pub fn hexadecimal(n: u32) -> (out: String)
    ensures
        out@ == hex_text(n as nat),
    decreases n,
{
    let low: u8 = (n % 16) as u8;
    let last: char = if low < 10 {
        (48u8 + low) as char
    } else {
        (87u8 + low) as char
    };
    let mut out = if n < 16 {
        String::new()
    } else {
        hexadecimal(n / 16)
    };
    out.push(last);
    out
}

/// What a hexadecimal digit of either case stands for.
pub open spec fn hex_digit_value(c: char) -> Option<nat> {
    let n = c as u32;
    if 48 <= n <= 57 {
        Some((n - 48) as nat)
    } else if 65 <= n <= 70 {
        Some((n - 55) as nat)
    } else if 97 <= n <= 102 {
        Some((n - 87) as nat)
    } else {
        None
    }
}

/// Whether every character is a hexadecimal digit.
pub open spec fn all_hex(s: Seq<char>) -> bool {
    forall|i: int| 0 <= i < s.len() ==> hex_digit_value(#[trigger] s[i]) is Some
}

/// The number that a row of hexadecimal digits denotes.
pub open spec fn hex_value(s: Seq<char>) -> nat
    decreases s.len(),
{
    if s.len() == 0 {
        0
    } else {
        hex_value(s.drop_last()) * 16 + hex_digit_value(s.last())->0
    }
}

fn hex_digit(c: char) -> (out: Option<u32>)
    ensures
        match hex_digit_value(c) {
            Some(n) => out == Some(n as u32) && n < 16,
            None => out is None,
        },
{
    let n: u32 = c as u32;
    if 48 <= n && n <= 57 {
        Some(n - 48)
    } else if 65 <= n && n <= 70 {
        Some(n - 55)
    } else if 97 <= n && n <= 102 {
        Some(n - 87)
    } else {
        None
    }
}

/// The number written in the six hexadecimal digits `cs[from..from + 6]`.
pub fn parse_hex6(cs: &Vec<char>, from: usize) -> (out: Option<u32>)
    requires
        from + 6 <= cs.len(),
    ensures
        out is Some <==> all_hex(cs@.subrange(from as int, from + 6)),
        out is Some ==> out->0 == hex_value(cs@.subrange(from as int, from + 6)),
        out is Some ==> out->0 < 0x100_0000,
{
    let ghost s = cs@.subrange(from as int, from + 6);
    let mut i: usize = 0;
    let mut value: u32 = 0;
    let mut bound: u32 = 1;
    while i < 6
        invariant
            i <= 6,
            from + 6 <= cs.len(),
            s == cs@.subrange(from as int, from + 6),
            all_hex(s.take(i as int)),
            value == hex_value(s.take(i as int)),
            value < bound,
            bound == (if i == 0 { 1u32 } else if i == 1 { 16u32 } else if i == 2 { 256u32 } else if i == 3 { 4096u32 } else if i == 4 { 65536u32 } else if i == 5 { 0x10_0000u32 } else { 0x100_0000u32 }),
        decreases 6 - i,
    {
        proof {
            assert(s[i as int] == cs@[from + i]);
            assert(s.take(i as int + 1).drop_last() =~= s.take(i as int));
        }
        match hex_digit(cs[from + i]) {
            Some(d) => {
                value = value * 16 + d;
                bound = bound * 16;
            },
            None => {
                return None;
            },
        }
        i += 1;
    }
    proof {
        assert(s.take(6) =~= s);
    }
    Some(value)
}

proof fn lemma_hex_digits(n: nat)
    ensures
        hex_text(n).len() > 0,
        all_hex(hex_text(n)),
        hex_value(hex_text(n)) == n,
    decreases n,
{
    if n < 16 {
        assert(hex_text(n).drop_last() =~= Seq::<char>::empty());
        assert(hex_value(Seq::<char>::empty()) == 0);
    } else {
        lemma_hex_digits(n / 16);
        assert(hex_text(n).drop_last() =~= hex_text(n / 16));
    }
}

proof fn lemma_hex_zeros(k: nat, s: Seq<char>)
    requires
        all_hex(s),
    ensures
        all_hex(Seq::new(k, |i: int| '0') + s),
        hex_value(Seq::new(k, |i: int| '0') + s) == hex_value(s),
    decreases s.len(), k,
{
    let zeros = Seq::new(k, |i: int| '0');
    if s.len() > 0 {
        lemma_hex_zeros(k, s.drop_last());
        assert((zeros + s).drop_last() =~= zeros + s.drop_last());
    } else if k > 0 {
        lemma_hex_zeros((k - 1) as nat, s);
        assert((zeros + s).drop_last() =~= Seq::new((k - 1) as nat, |i: int| '0') + s);
        assert(zeros + s =~= zeros);
    }
}

proof fn lemma_hex_length(n: nat, k: nat)
    requires
        n < pow16(k),
        k > 0,
    ensures
        hex_text(n).len() <= k,
    decreases k,
{
    reveal_with_fuel(pow16, 3);
    if n >= 16 {
        assert(k >= 2);
        assert(n / 16 < pow16((k - 1) as nat));
        lemma_hex_length(n / 16, (k - 1) as nat);
    }
}

spec fn pow16(k: nat) -> nat
    decreases k,
{
    if k == 0 {
        1
    } else {
        16 * pow16((k - 1) as nat)
    }
}

/// The six-digit form of a 24-bit number has six hexadecimal digits that denote it.
pub proof fn law_hex_round_trip(n: nat)
    requires
        n < 0x100_0000,
    ensures
        zero_padded(hex_text(n), 6).len() == 6,
        all_hex(zero_padded(hex_text(n), 6)),
        hex_value(zero_padded(hex_text(n), 6)) == n,
{
    reveal_with_fuel(pow16, 7);
    lemma_hex_digits(n);
    lemma_hex_length(n, 6);
    let s = hex_text(n);
    if s.len() < 6 {
        lemma_hex_zeros((6 - s.len()) as nat, s);
    }
}

// ---------------------------------------------------------------------------
// ASCII
// ---------------------------------------------------------------------------

/// An ASCII letter.
pub open spec fn is_ascii_letter(c: char) -> bool {
    65 <= c as u32 <= 90 || 97 <= c as u32 <= 122
}

/// An ASCII letter or digit.
pub open spec fn is_ascii_alphanumeric(c: char) -> bool {
    is_ascii_letter(c) || is_digit(c)
}

/// Whether `c` is an ASCII letter.
pub fn ascii_letter(c: char) -> (result: bool)
    ensures
        result == is_ascii_letter(c),
{
    let n: u32 = c as u32;
    (65 <= n && n <= 90) || (97 <= n && n <= 122)
}

/// Whether `c` is an ASCII letter or digit.
pub fn ascii_alphanumeric(c: char) -> (result: bool)
    ensures
        result == is_ascii_alphanumeric(c),
{
    let n: u32 = c as u32;
    ascii_letter(c) || (48 <= n && n <= 57)
}

/// The lower-case form of an ASCII capital; any other character itself.
pub open spec fn ascii_lower(c: char) -> char {
    if 65 <= c as u32 <= 90 {
        (c as u32 + 32) as char
    } else {
        c
    }
}

/// The lower-case form of an ASCII capital; any other character itself.
pub fn to_ascii_lower(c: char) -> (out: char)
    ensures
        out == ascii_lower(c),
{
    let n: u32 = c as u32;
    if 65 <= n && n <= 90 {
        (n as u8 + 32) as char
    } else {
        c
    }
}

/// Equality up to the case of ASCII letters.
pub open spec fn same_ignoring_case(a: Seq<char>, b: Seq<char>) -> bool {
    &&& a.len() == b.len()
    &&& forall|i: int| 0 <= i < a.len() ==> ascii_lower(#[trigger] a[i]) == ascii_lower(b[i])
}

/// Whether two texts agree up to the case of ASCII letters.
pub fn eq_ignoring_case(a: &str, b: &str) -> (same: bool)
    ensures
        same == same_ignoring_case(a@, b@),
{
    let left = chars_of(a);
    let right = chars_of(b);
    if left.len() != right.len() {
        return false;
    }
    let mut i: usize = 0;
    while i < left.len()
        invariant
            i <= left.len(),
            left.len() == right.len(),
            left@ == a@,
            right@ == b@,
            forall|j: int| 0 <= j < i ==> ascii_lower(#[trigger] a@[j]) == ascii_lower(b@[j]),
        decreases left.len() - i,
    {
        if to_ascii_lower(left[i]) != to_ascii_lower(right[i]) {
            proof {
                assert(ascii_lower(a@[i as int]) != ascii_lower(b@[i as int]));
            }
            return false;
        }
        i += 1;
    }
    true
}

// ---------------------------------------------------------------------------
// Searching
// ---------------------------------------------------------------------------

/// Whether `p` stands in `s` at position `i`.
pub open spec fn occurs_at(s: Seq<char>, p: Seq<char>, i: int) -> bool {
    0 <= i && i + p.len() <= s.len() && s.subrange(i, i + p.len()) == p
}

/// The first position at or after `from` at which `p` stands in `s`.
pub open spec fn position_of(s: Seq<char>, p: Seq<char>, from: int) -> Option<int>
    decreases s.len() + 1 - from,
{
    if from < 0 || from + p.len() > s.len() {
        None
    } else if occurs_at(s, p, from) {
        Some(from)
    } else {
        position_of(s, p, from + 1)
    }
}

/// The last position before `end` that holds the character `c`.
pub open spec fn last_position(s: Seq<char>, c: char, end: int) -> Option<int>
    decreases end,
{
    if end <= 0 || end > s.len() {
        None
    } else if s[end - 1] == c {
        Some(end - 1)
    } else {
        last_position(s, c, end - 1)
    }
}

/// The last position up to `end` at which `p` stands in `s`.
pub open spec fn last_occurrence(s: Seq<char>, p: Seq<char>, end: int) -> Option<int>
    decreases end + 1,
{
    if end < 0 {
        None
    } else if occurs_at(s, p, end) {
        Some(end)
    } else {
        last_occurrence(s, p, end - 1)
    }
}

/// Whether `p` stands in `cs` at position `i`.
pub fn occurs(cs: &Vec<char>, p: &Vec<char>, i: usize) -> (found: bool)
    ensures
        found == occurs_at(cs@, p@, i as int),
{
    if p.len() > cs.len() || i > cs.len() - p.len() {
        return false;
    }
    let mut k: usize = 0;
    while k < p.len()
        invariant
            k <= p.len(),
            i + p.len() <= cs.len(),
            forall|j: int| 0 <= j < k ==> cs@[i + j] == #[trigger] p@[j],
        decreases p.len() - k,
    {
        if cs[i + k] != p[k] {
            proof {
                assert(cs@.subrange(i as int, i + p.len())[k as int] != p@[k as int]);
            }
            return false;
        }
        k += 1;
    }
    proof {
        assert(cs@.subrange(i as int, i + p.len()) =~= p@);
    }
    true
}

/// The first position at or after `from` at which `p` stands in `cs`.
pub fn find(cs: &Vec<char>, p: &Vec<char>, from: usize) -> (out: Option<usize>)
    ensures
        match position_of(cs@, p@, from as int) {
            Some(i) => out == Some(i as usize) && from <= i && i + p.len() <= cs.len() && occurs_at(
                cs@,
                p@,
                i,
            ),
            None => out is None,
        },
{
    let mut i: usize = from;
    while p.len() <= cs.len() && i <= cs.len() - p.len()
        invariant
            from <= i,
            position_of(cs@, p@, from as int) == position_of(cs@, p@, i as int),
        decreases cs.len() + 1 - i,
    {
        if occurs(cs, p, i) {
            return Some(i);
        }
        if i == cs.len() - p.len() {
            proof {
                assert(position_of(cs@, p@, i as int + 1) is None);
            }
            return None;
        }
        i += 1;
    }
    None
}

/// The last position before `end` that holds `c`.
pub fn find_last(cs: &Vec<char>, c: char, end: usize) -> (out: Option<usize>)
    requires
        end <= cs.len(),
    ensures
        match last_position(cs@, c, end as int) {
            Some(i) => out == Some(i as usize) && 0 <= i < end && cs@[i] == c,
            None => out is None,
        },
{
    let mut i: usize = end;
    while i > 0
        invariant
            i <= end <= cs.len(),
            last_position(cs@, c, end as int) == last_position(cs@, c, i as int),
        decreases i,
    {
        if cs[i - 1] == c {
            return Some(i - 1);
        }
        i -= 1;
    }
    None
}

/// The last position at which `p` stands in `cs`.
pub fn find_last_text(cs: &Vec<char>, p: &Vec<char>) -> (out: Option<usize>)
    ensures
        match last_occurrence(cs@, p@, cs.len() as int) {
            Some(i) => out == Some(i as usize) && 0 <= i && i + p.len() <= cs.len(),
            None => out is None,
        },
{
    let mut i: usize = cs.len();
    while !occurs(cs, p, i)
        invariant
            i <= cs.len(),
            last_occurrence(cs@, p@, cs.len() as int) == last_occurrence(cs@, p@, i as int),
        decreases i,
    {
        if i == 0 {
            proof {
                assert(last_occurrence(cs@, p@, -1) is None);
            }
            return None;
        }
        i -= 1;
    }
    Some(i)
}

/// Whether `p` is a prefix of `s`.
pub fn starts_with(s: &str, p: &str) -> (result: bool)
    ensures
        result == occurs_at(s@, p@, 0),
{
    occurs(&chars_of(s), &chars_of(p), 0)
}

/// What follows the prefix `p` in `s`.
pub fn strip_prefix(s: &str, p: &str) -> (out: Option<String>)
    ensures
        out is Some <==> occurs_at(s@, p@, 0),
        out is Some ==> out->0@ == s@.skip(p@.len() as int),
{
    let cs = chars_of(s);
    let prefix = chars_of(p);
    if occurs(&cs, &prefix, 0) {
        let rest = text_of(&cs, prefix.len(), cs.len());
        proof {
            assert(rest@ =~= s@.skip(p@.len() as int));
        }
        Some(rest)
    } else {
        None
    }
}

/// A text is found at the first place from `from` on at which it stands.
pub proof fn law_first_place_is_found(s: Seq<char>, p: Seq<char>, from: int, i: int)
    requires
        0 <= from <= i,
        occurs_at(s, p, i),
        forall|k: int| from <= k < i ==> !#[trigger] occurs_at(s, p, k),
    ensures
        position_of(s, p, from) == Some(i),
    decreases i - from,
{
    if from < i {
        assert(!occurs_at(s, p, from));
        law_first_place_is_found(s, p, from + 1, i);
    }
}

/// Where a text is found it stands, and it stands nowhere before from `from` on; where it is not
/// found it stands nowhere from there on.
pub proof fn law_found_texts_stand_there(s: Seq<char>, p: Seq<char>, from: int)
    requires
        0 <= from,
    ensures
        match position_of(s, p, from) {
            Some(i) => {
                &&& from <= i
                &&& i + p.len() <= s.len()
                &&& s.subrange(i, i + p.len()) == p
                &&& occurs_at(s, p, i)
                &&& forall|k: int| from <= k < i ==> !#[trigger] occurs_at(s, p, k)
            },
            None => forall|k: int| from <= k ==> !#[trigger] occurs_at(s, p, k),
        },
    decreases s.len() + 1 - from,
{
    if from + p.len() <= s.len() && !occurs_at(s, p, from) {
        law_found_texts_stand_there(s, p, from + 1);
    }
}

/// A character is found at the last place before `end` at which it stands.
pub proof fn law_last_place_is_found(s: Seq<char>, c: char, end: int)
    requires
        0 <= end <= s.len(),
    ensures
        match last_position(s, c, end) {
            Some(i) => 0 <= i < end && s[i] == c && forall|k: int| i < k < end ==> s[k] != c,
            None => forall|k: int| 0 <= k < end ==> s[k] != c,
        },
    decreases end,
{
    if end > 0 && s[end - 1] != c {
        law_last_place_is_found(s, c, end - 1);
    }
}

// ---------------------------------------------------------------------------
// Splitting
// ---------------------------------------------------------------------------

/// What separates the words of a text.
#[derive(Clone, Copy, Debug, PartialEq, Eq, Structural)]
pub enum Separator {
    WhiteSpace,
    DashOrUnderscore,
    NotAlphanumeric,
}

impl Separator {
    /// Whether `c` separates words.
    pub open spec fn separates(self, c: char) -> bool {
        match self {
            Separator::WhiteSpace => is_white_space(c),
            Separator::DashOrUnderscore => c == '-' || c == '_',
            Separator::NotAlphanumeric => !is_ascii_alphanumeric(c),
        }
    }

    fn test(&self, c: char) -> (result: bool)
        ensures
            result == self.separates(c),
    {
        match self {
            Separator::WhiteSpace => white_space(c),
            Separator::DashOrUnderscore => c == '-' || c == '_',
            Separator::NotAlphanumeric => !ascii_alphanumeric(c),
        }
    }
}

/// The longest runs of characters between separators, in order.
pub open spec fn word_runs(s: Seq<char>, sep: Separator) -> Seq<Seq<char>>
    decreases s.len(),
{
    if s.len() == 0 {
        Seq::empty()
    } else {
        let before = s.drop_last();
        let words = word_runs(before, sep);
        if sep.separates(s.last()) {
            words
        } else if before.len() > 0 && !sep.separates(before.last()) {
            words.drop_last().push(words.last().push(s.last()))
        } else {
            words.push(seq![s.last()])
        }
    }
}

/// The words of `cs`: the longest runs without separators, none of them empty.
pub fn words(cs: &Vec<char>, sep: Separator) -> (out: Vec<Vec<char>>)
    ensures
        out.len() == word_runs(cs@, sep).len(),
        forall|i: int| 0 <= i < out.len() ==> (#[trigger] out[i])@ == word_runs(cs@, sep)[i],
        forall|i: int| 0 <= i < out.len() ==> (#[trigger] out[i]).len() > 0,
{
    let mut out: Vec<Vec<char>> = Vec::new();
    let mut current: Vec<char> = Vec::new();
    let mut i: usize = 0;
    while i < cs.len()
        invariant
            i <= cs.len(),
            words_so_far(cs@.take(i as int), sep, out@, current@),
        decreases cs.len() - i,
    {
        let c: char = cs[i];
        let ghost before = cs@.take(i as int);
        let ghost after = cs@.take(i as int + 1);
        proof {
            assert(after.drop_last() =~= before);
            assert(after.last() == c);
        }
        let ghost was = current@;
        if sep.test(c) {
            if current.len() > 0 {
                out.push(current);
                current = Vec::new();
            }
        } else {
            current.push(c);
            proof {
                if was.len() == 0 {
                    assert(current@ =~= seq![c]);
                }
            }
        }
        i += 1;
    }
    proof {
        assert(cs@.take(i as int) =~= cs@);
    }
    if current.len() > 0 {
        out.push(current);
    }
    out
}

spec fn words_so_far(
    s: Seq<char>,
    sep: Separator,
    done: Seq<Vec<char>>,
    current: Seq<char>,
) -> bool {
    let runs = word_runs(s, sep);
    &&& current.len() > 0 <==> s.len() > 0 && !sep.separates(s.last())
    &&& runs.len() == done.len() + (if current.len() > 0 { 1int } else { 0 })
    &&& forall|i: int| 0 <= i < done.len() ==> (#[trigger] done[i])@ == runs[i]
    &&& forall|i: int| 0 <= i < done.len() ==> (#[trigger] done[i]).len() > 0
    &&& current.len() > 0 ==> runs.last() == current
}

/// The characters of a row of words.
pub open spec fn word_views(words: Seq<Vec<char>>) -> Seq<Seq<char>> {
    Seq::new(words.len(), |i: int| words[i]@)
}

/// The words one after another with `sep` between them.
pub open spec fn joined(words: Seq<Seq<char>>, sep: Seq<char>) -> Seq<char>
    decreases words.len(),
{
    if words.len() == 0 {
        Seq::empty()
    } else if words.len() == 1 {
        words[0]
    } else {
        joined(words.drop_last(), sep) + sep + words.last()
    }
}

/// The words one after another with `sep` between them.
pub fn join_words(words: &Vec<Vec<char>>, sep: &str) -> (out: String)
    ensures
        out@ == joined(word_views(words@), sep@),
{
    let ghost all = word_views(words@);
    let mut out = String::new();
    let mut i: usize = 0;
    while i < words.len()
        invariant
            i <= words.len(),
            all == word_views(words@),
            out@ == joined(all.take(i as int), sep@),
        decreases words.len() - i,
    {
        proof {
            assert(all.take(i as int + 1).drop_last() =~= all.take(i as int));
            assert(all.take(i as int + 1).last() == words@[i as int]@);
        }
        if i > 0 {
            out.append(sep);
        }
        let word = text_of(&words[i], 0, words[i].len());
        proof {
            assert(word@ =~= words@[i as int]@);
        }
        out.append(word.as_str());
        i += 1;
    }
    proof {
        assert(all.take(i as int) =~= all);
    }
    out
}

/// The lines one under another.
pub fn join_lines(lines: &Vec<String>) -> (out: String)
    ensures
        out@ == joined(texts(lines@), "\n"@),
{
    let ghost all = texts(lines@);
    let mut out = String::new();
    let mut i: usize = 0;
    while i < lines.len()
        invariant
            i <= lines.len(),
            all == texts(lines@),
            out@ == joined(all.take(i as int), "\n"@),
        decreases lines.len() - i,
    {
        proof {
            assert(all.take(i as int + 1).drop_last() =~= all.take(i as int));
            assert(all.take(i as int + 1).last() == lines@[i as int]@);
        }
        if i > 0 {
            out.append("\n");
        }
        out.append(lines[i].as_str());
        i += 1;
    }
    proof {
        assert(all.take(i as int) =~= all);
    }
    out
}

/// The pieces of `s` between the occurrences of `c`; there is always at least one.
pub open spec fn split_at_char(s: Seq<char>, c: char) -> Seq<Seq<char>>
    decreases s.len(),
{
    if s.len() == 0 {
        seq![Seq::empty()]
    } else {
        let pieces = split_at_char(s.drop_last(), c);
        if s.last() == c {
            pieces.push(Seq::empty())
        } else {
            pieces.drop_last().push(pieces.last().push(s.last()))
        }
    }
}

/// The pieces of `cs` between the occurrences of `c`.
pub fn split(cs: &Vec<char>, c: char) -> (out: Vec<Vec<char>>)
    ensures
        out.len() == split_at_char(cs@, c).len(),
        forall|i: int| 0 <= i < out.len() ==> (#[trigger] out[i])@ == split_at_char(cs@, c)[i],
{
    let mut out: Vec<Vec<char>> = Vec::new();
    let mut current: Vec<char> = Vec::new();
    let mut i: usize = 0;
    while i < cs.len()
        invariant
            i <= cs.len(),
            split_at_char(cs@.take(i as int), c).len() == out.len() + 1,
            forall|j: int|
                0 <= j < out.len() ==> (#[trigger] out[j])@ == split_at_char(
                    cs@.take(i as int),
                    c,
                )[j],
            split_at_char(cs@.take(i as int), c).last() == current@,
        decreases cs.len() - i,
    {
        proof {
            assert(cs@.take(i as int + 1).drop_last() =~= cs@.take(i as int));
            assert(cs@.take(i as int + 1).last() == cs@[i as int]);
        }
        if cs[i] == c {
            out.push(current);
            current = Vec::new();
        } else {
            current.push(cs[i]);
        }
        i += 1;
    }
    proof {
        assert(cs@.take(i as int) =~= cs@);
    }
    out.push(current);
    out
}

// ---------------------------------------------------------------------------
// Bytes
// ---------------------------------------------------------------------------

/// The bytes of a text are those of its parts.
pub proof fn lemma_byte_len_push(s: Seq<char>, c: char)
    ensures
        byte_len(s.push(c)) == byte_len(s) + byte_len(seq![c]),
    decreases s.len(),
{
    if s.len() == 0 {
        assert(s.push(c) =~= seq![c]);
        assert(encode_utf8(s).len() == 0);
    } else {
        lemma_byte_len_push(s.drop_first(), c);
        assert(s.push(c).drop_first() =~= s.drop_first().push(c));
        assert(s.push(c)[0] == s[0]);
    }
}

/// A character takes one to four bytes.
pub proof fn lemma_char_bytes(c: char)
    ensures
        byte_len(seq![c]) == (if c as u32 <= 0x7f {
            1nat
        } else if c as u32 <= 0x7ff {
            2
        } else if c as u32 <= 0xffff {
            3
        } else {
            4
        }),
{
    assert(seq![c].drop_first() =~= Seq::<char>::empty());
    assert(encode_utf8(Seq::<char>::empty()).len() == 0);
}

/// The number of bytes that `c` takes.
pub fn char_bytes(c: char) -> (n: usize)
    ensures
        n == byte_len(seq![c]),
        1 <= n <= 4,
{
    proof {
        lemma_char_bytes(c);
    }
    let code: u32 = c as u32;
    if code <= 0x7f {
        1
    } else if code <= 0x7ff {
        2
    } else if code <= 0xffff {
        3
    } else {
        4
    }
}

/// The longest prefix of `s` that takes at most `max` bytes.
pub open spec fn prefix_within(s: Seq<char>, max: nat) -> Seq<char>
    decreases s.len(),
{
    if byte_len(s) <= max || s.len() == 0 {
        s
    } else {
        prefix_within(s.drop_last(), max)
    }
}

proof fn lemma_prefix_bytes(s: Seq<char>, k: int)
    requires
        0 <= k <= s.len(),
    ensures
        byte_len(s.take(k)) <= byte_len(s),
    decreases s.len(),
{
    if k == s.len() {
        assert(s.take(k) =~= s);
    } else {
        lemma_prefix_bytes(s.drop_last(), k);
        assert(s.drop_last().take(k) =~= s.take(k));
        lemma_byte_len_push(s.drop_last(), s.last());
        assert(s.drop_last().push(s.last()) =~= s);
    }
}

proof fn lemma_prefix_within(s: Seq<char>, max: nat, k: int)
    requires
        0 <= k < s.len(),
        byte_len(s.take(k)) <= max < byte_len(s.take(k + 1)),
    ensures
        prefix_within(s, max) == s.take(k),
    decreases s.len(),
{
    lemma_prefix_bytes(s, k + 1);
    let p = s.drop_last();
    if k + 1 == s.len() {
        assert(p =~= s.take(k));
        assert(s.take(k + 1) =~= s);
        assert(prefix_within(p, max) == p);
    } else {
        assert(p.take(k) =~= s.take(k));
        assert(p.take(k + 1) =~= s.take(k + 1));
        lemma_prefix_within(p, max, k);
    }
}

/// The longest prefix of `s` that takes at most `max` bytes.
pub fn cut_to_bytes(s: &str, max: usize) -> (out: &str)
    ensures
        out@ == prefix_within(s@, max as nat),
{
    let cs = chars_of(s);
    let mut i: usize = 0;
    let mut used: usize = 0;
    while i < cs.len()
        invariant
            i <= cs.len(),
            cs@ == s@,
            used == byte_len(s@.take(i as int)),
            used <= max,
        decreases cs.len() - i,
    {
        let width: usize = char_bytes(cs[i]);
        proof {
            assert(s@.take(i as int + 1) =~= s@.take(i as int).push(s@[i as int]));
            lemma_byte_len_push(s@.take(i as int), s@[i as int]);
        }
        if width > max - used {
            proof {
                lemma_prefix_within(s@, max as nat, i as int);
            }
            return s.substring_char(0, i);
        }
        used += width;
        i += 1;
    }
    proof {
        assert(s@.take(i as int) =~= s@);
    }
    s.substring_char(0, i)
}

/// A cut text fits, and cutting changes only what does not fit.
pub proof fn law_cut_fits(s: Seq<char>, max: nat)
    ensures
        byte_len(prefix_within(s, max)) <= max,
        prefix_within(s, max).len() <= s.len(),
        prefix_within(s, max) == s.take(prefix_within(s, max).len() as int),
        byte_len(s) <= max ==> prefix_within(s, max) == s,
    decreases s.len(),
{
    assert(byte_len(Seq::<char>::empty()) == 0);
    if s.len() == 0 {
        assert(s =~= Seq::<char>::empty());
    }
    assert(s.take(s.len() as int) =~= s);
    if byte_len(s) > max && s.len() > 0 {
        law_cut_fits(s.drop_last(), max);
        let k = prefix_within(s, max).len() as int;
        assert(s.drop_last().take(k) =~= s.take(k));
    }
}

// ---------------------------------------------------------------------------
// What only the standard library knows
// ---------------------------------------------------------------------------

/// The upper-case form of a character, as Unicode maps it.
pub uninterp spec fn uppercase_of(c: char) -> Seq<char>;

/// `char::to_uppercase`: the upper-case form of `c`, one or more characters. What that form
/// is for a given character is left to the standard library's Unicode tables.
#[verifier::external_body]
pub(crate) fn uppercase(c: char) -> (out: String)
    ensures
        out@ == uppercase_of(c),
{
    c.to_uppercase().to_string()
}

/// A text as a quoted and escaped literal.
pub uninterp spec fn quoted_text(s: Seq<char>) -> Seq<char>;

/// `<str as Debug>::fmt`: the text between quotation marks with its escapes. Which
/// characters are escaped is left to the standard library.
#[verifier::external_body]
pub(crate) fn quoted(s: &str) -> (out: String)
    ensures
        out@ == quoted_text(s@),
{
    format!("{s:?}")
}

// ---------------------------------------------------------------------------
// What texts are, by their parts
// ---------------------------------------------------------------------------

proof fn lemma_lead_goes(lead: Seq<char>, rest: Seq<char>)
    requires
        forall|i: int| 0 <= i < lead.len() ==> is_white_space(#[trigger] lead[i]),
    ensures
        trimmed_start(lead + rest) == trimmed_start(rest),
    decreases lead.len(),
{
    if lead.len() == 0 {
        assert(lead + rest =~= rest);
    } else {
        assert((lead + rest)[0] == lead[0]);
        assert((lead + rest).skip(1) =~= lead.skip(1) + rest);
        lemma_lead_goes(lead.skip(1), rest);
    }
}

proof fn lemma_tail_goes(front: Seq<char>, tail: Seq<char>)
    requires
        forall|i: int| 0 <= i < tail.len() ==> is_white_space(#[trigger] tail[i]),
    ensures
        trimmed_end(front + tail) == trimmed_end(front),
    decreases tail.len(),
{
    if tail.len() == 0 {
        assert(front + tail =~= front);
    } else {
        assert((front + tail).last() == tail[tail.len() - 1]);
        assert((front + tail).drop_last() =~= front + tail.drop_last());
        lemma_tail_goes(front, tail.drop_last());
    }
}

/// Trimming takes off the white space around a text and nothing of the text; of white space alone
/// nothing is left.
pub proof fn law_trim_takes_the_edges(lead: Seq<char>, core: Seq<char>, tail: Seq<char>)
    requires
        forall|i: int| 0 <= i < lead.len() ==> is_white_space(#[trigger] lead[i]),
        forall|i: int| 0 <= i < tail.len() ==> is_white_space(#[trigger] tail[i]),
        core.len() > 0 ==> !is_white_space(core[0]) && !is_white_space(core.last()),
    ensures
        trimmed(lead + core + tail) == core,
{
    assert(lead + core + tail =~= lead + (core + tail));
    lemma_lead_goes(lead, core + tail);
    if core.len() == 0 {
        assert(core + tail =~= tail);
        lemma_lead_goes(tail, core);
        assert(tail + core =~= tail);
        assert(trimmed_start(tail) =~= core);
    } else {
        assert((core + tail)[0] == core[0]);
        lemma_tail_goes(core, tail);
    }
}

/// The space, the tabs and the line breaks are white space; letters, digits and the ASCII
/// punctuation are not.
pub proof fn law_white_space(c: char)
    ensures
        c == ' ' || c == '\t' || c == '\n' || c == '\r' ==> is_white_space(c),
        0x21 <= c as u32 <= 0x7e ==> !is_white_space(c),
{
}

proof fn lemma_run(s: Seq<char>, w: Seq<char>, sep: Separator)
    requires
        w.len() > 0,
        forall|i: int| 0 <= i < w.len() ==> !sep.separates(#[trigger] w[i]),
        s.len() > 0 ==> sep.separates(s.last()),
    ensures
        word_runs(s + w, sep) == word_runs(s, sep).push(w),
    decreases w.len(),
{
    let all = s + w;
    assert(all.last() == w[w.len() - 1]);
    assert(all.drop_last() =~= s + w.drop_last());
    if w.len() == 1 {
        assert(s + w.drop_last() =~= s);
        assert(seq![w[0]] =~= w);
    } else {
        let shorter = w.drop_last();
        lemma_run(s, shorter, sep);
        assert((s + shorter).last() == w[w.len() - 2]);
        let words = word_runs(s + shorter, sep);
        assert(words.last() == shorter);
        assert(words.drop_last() =~= word_runs(s, sep));
        assert(shorter.push(w[w.len() - 1]) =~= w);
    }
}

/// The words of a text are its longest runs without separators, in order: a separator ends a word
/// and adds none, and what stands between separators is one word more.
pub proof fn law_words_stand_between_separators(
    s: Seq<char>,
    c: char,
    word: Seq<char>,
    sep: Separator,
)
    requires
        sep.separates(c),
        word.len() > 0,
        forall|i: int| 0 <= i < word.len() ==> !sep.separates(#[trigger] word[i]),
    ensures
        word_runs(Seq::empty(), sep).len() == 0,
        word_runs(word, sep) == seq![word],
        word_runs(s.push(c), sep) == word_runs(s, sep),
        word_runs(s.push(c) + word, sep) == word_runs(s, sep).push(word),
{
    let none = Seq::<char>::empty();
    assert(none + word =~= word);
    lemma_run(none, word, sep);
    assert(word_runs(none, sep).push(word) =~= seq![word]);
    assert(s.push(c).drop_last() =~= s);
    lemma_run(s.push(c), word, sep);
}

/// A text is split at each occurrence of a character: what has none is one piece, and the pieces
/// on both sides of an occurrence stand one after the other.
pub proof fn law_split_at_each_occurrence(a: Seq<char>, b: Seq<char>, c: char)
    ensures
        (forall|i: int| 0 <= i < a.len() ==> #[trigger] a[i] != c) ==> split_at_char(a, c)
            == seq![a],
        split_at_char(a.push(c) + b, c) == split_at_char(a, c) + split_at_char(b, c),
{
    if forall|i: int| 0 <= i < a.len() ==> #[trigger] a[i] != c {
        lemma_one_piece(a, c);
    }
    lemma_split_sum(a, b, c);
}

proof fn lemma_one_piece(a: Seq<char>, c: char)
    requires
        forall|i: int| 0 <= i < a.len() ==> #[trigger] a[i] != c,
    ensures
        split_at_char(a, c) == seq![a],
    decreases a.len(),
{
    if a.len() > 0 {
        lemma_one_piece(a.drop_last(), c);
        assert(a[a.len() - 1] != c);
        assert(a.drop_last().push(a.last()) =~= a);
        assert(split_at_char(a, c) =~= seq![a]);
    } else {
        assert(a =~= Seq::<char>::empty());
    }
}

proof fn lemma_split_sum(a: Seq<char>, b: Seq<char>, c: char)
    ensures
        split_at_char(a.push(c) + b, c) == split_at_char(a, c) + split_at_char(b, c),
        split_at_char(b, c).len() > 0,
    decreases b.len(),
{
    let all = a.push(c) + b;
    if b.len() == 0 {
        assert(all =~= a.push(c));
        assert(a.push(c).drop_last() =~= a);
        assert(b =~= Seq::<char>::empty());
        assert(split_at_char(all, c) =~= split_at_char(a, c) + split_at_char(b, c));
    } else {
        lemma_split_sum(a, b.drop_last(), c);
        assert(all.drop_last() =~= a.push(c) + b.drop_last());
        assert(all.last() == b.last());
        let front = split_at_char(a, c);
        let back = split_at_char(b.drop_last(), c);
        assert((front + back).last() == back.last());
        assert(split_at_char(all, c) =~= front + split_at_char(b, c));
    }
}

/// Joined texts stand one after another with the separator between them and none at the ends.
pub proof fn law_joined_texts(words: Seq<Seq<char>>, word: Seq<char>, sep: Seq<char>)
    ensures
        joined(Seq::empty(), sep).len() == 0,
        joined(seq![word], sep) == word,
        words.len() > 0 ==> joined(words.push(word), sep) == joined(words, sep) + sep + word,
{
    assert(words.push(word).drop_last() =~= words);
}

/// A decimal form has one digit for each power of ten: the digits of a number stand for
/// themselves, and a number with one digit more has that digit at its end.
pub proof fn law_decimal_digits(n: nat, d: nat)
    requires
        d < 10,
    ensures
        n > 0 ==> decimal_text(n * 10 + d) == decimal_text(n) + decimal_text(d),
        decimal_text(d).len() == 1,
        decimal_text(0)[0] == '0',
        decimal_text(1)[0] == '1',
        decimal_text(2)[0] == '2',
        decimal_text(3)[0] == '3',
        decimal_text(4)[0] == '4',
        decimal_text(5)[0] == '5',
        decimal_text(6)[0] == '6',
        decimal_text(7)[0] == '7',
        decimal_text(8)[0] == '8',
        decimal_text(9)[0] == '9',
        n > 0 ==> signed_text(-(n as int)) == seq!['-'] + decimal_text(n),
        signed_text(n as int) == decimal_text(n),
{
    if n > 0 {
        assert((n * 10 + d) / 10 == n && (n * 10 + d) % 10 == d);
        assert(decimal_text(n * 10 + d) =~= decimal_text(n) + decimal_text(d));
    }
}

/// A hexadecimal form has one lower-case digit for each power of sixteen.
pub proof fn law_hex_digits(n: nat, d: nat)
    requires
        d < 16,
    ensures
        n > 0 ==> hex_text(n * 16 + d) == hex_text(n) + hex_text(d),
        hex_text(d).len() == 1,
        d < 10 ==> hex_text(d) == decimal_text(d),
        hex_text(10)[0] == 'a',
        hex_text(11)[0] == 'b',
        hex_text(12)[0] == 'c',
        hex_text(13)[0] == 'd',
        hex_text(14)[0] == 'e',
        hex_text(15)[0] == 'f',
{
    if n > 0 {
        assert((n * 16 + d) / 16 == n && (n * 16 + d) % 16 == d);
        assert(hex_text(n * 16 + d) =~= hex_text(n) + hex_text(d));
    }
}

/// A padded text has the width where the text is shorter: zeros, then the text.
pub proof fn law_padded_texts(s: Seq<char>, width: nat, i: int)
    ensures
        zero_padded(s, width).len() == (if s.len() < width {
            width
        } else {
            s.len()
        }),
        ({
            let padded = zero_padded(s, width);
            let zeros = padded.len() - s.len();
            &&& 0 <= i < zeros ==> padded[i] == '0'
            &&& zeros <= i < padded.len() ==> padded[i] == s[i - zeros]
        }),
{
}

/// The lower-case form of a capital is the small letter at its place in the alphabet, and every
/// other character is its own.
pub proof fn law_lower_case(c: char)
    ensures
        ascii_lower('A') == 'a',
        ascii_lower('Z') == 'z',
        'A' <= c <= 'Z' ==> ascii_lower(c) as u32 - 'a' as u32 == c as u32 - 'A' as u32,
        !('A' <= c <= 'Z') ==> ascii_lower(c) == c,
        is_ascii_letter(c) <==> 'a' <= c <= 'z' || 'A' <= c <= 'Z',
        is_digit(c) <==> '0' <= c <= '9',
        is_ascii_alphanumeric(c) <==> is_ascii_letter(c) || is_digit(c),
{
}

/// A text is cut at the last character boundary within the bytes: what is left fits, is how the
/// text starts, and with one character more it would not fit.
pub proof fn law_cut_keeps_what_fits(s: Seq<char>, max: nat)
    ensures
        ({
            let cut = prefix_within(s, max);
            &&& byte_len(s) <= max ==> cut == s
            &&& cut.len() <= s.len()
            &&& cut == s.take(cut.len() as int)
            &&& cut.len() > 0 ==> byte_len(cut) <= max
            &&& cut.len() < s.len() ==> byte_len(s.take(cut.len() as int + 1)) > max
        }),
    decreases s.len(),
{
    if byte_len(s) <= max || s.len() == 0 {
        assert(s.take(s.len() as int) =~= s);
    } else {
        let front = s.drop_last();
        law_cut_keeps_what_fits(front, max);
        let cut = prefix_within(front, max);
        assert(front.take(cut.len() as int) =~= s.take(cut.len() as int));
        if cut.len() < front.len() {
            assert(front.take(cut.len() as int + 1) =~= s.take(cut.len() as int + 1));
        } else {
            assert(s.take(cut.len() as int + 1) =~= s);
        }
    }
}

/// A number is read digit by digit, with or without a plus sign and, where it may be negative, a
/// minus sign; what holds anything but digits behind the sign, or nothing, is no number.
pub proof fn law_numbers_are_read_digit_by_digit(s: Seq<char>, c: char, i: int)
    ensures
        '0' <= c <= '9' ==> unsigned_value(seq![c]) == Some((c as u32 - '0' as u32) as nat),
        unsigned_value(s) is Some && '0' <= c <= '9' ==> unsigned_value(s.push(c)) == Some(
            (unsigned_value(s)->0 * 10 + (c as u32 - '0' as u32)) as nat,
        ),
        unsigned_value(Seq::empty()) is None,
        0 <= i < s.len() && !('0' as u32 <= s[i] as u32 <= '9' as u32) && !(i == 0 && s[0] == '+')
            ==> unsigned_value(s) is None,
        s.len() > 0 && '0' <= s[0] <= '9' ==> unsigned_value(seq!['+'] + s) == unsigned_value(s),
        s.len() > 0 && '0' <= s[0] <= '9' && unsigned_value(s) is Some ==> signed_value(
            seq!['-'] + s,
        ) == Some(-(unsigned_value(s)->0 as int)),
        unsigned_value(s) is Some ==> signed_value(s) == Some(unsigned_value(s)->0 as int),
        unsigned_value(seq!['+']) is None,
        signed_value(seq!['-']) is None,
{
    let d = seq![c];
    assert(d.drop_last() =~= Seq::<char>::empty());
    assert(digits_value(Seq::<char>::empty()) == 0);
    assert(digits_value(d) == (c as u32 - 48) as nat);
    let longer = s.push(c);
    if unsigned_value(s) is Some && '0' <= c <= '9' {
        assert(longer[0] == s[0]);
        let body = if s[0] == '+' {
            s.skip(1)
        } else {
            s
        };
        let longer_body = body.push(c);
        assert(longer.skip(1) =~= s.skip(1).push(c));
        assert(longer_body.drop_last() =~= body);
        assert(all_digits(longer_body)) by {
            assert forall|k: int| 0 <= k < longer_body.len() implies is_digit(
                #[trigger] longer_body[k],
            ) by {
                if k < body.len() {
                    assert(longer_body[k] == body[k]);
                }
            }
        }
    }
    if 0 <= i < s.len() && !('0' as u32 <= s[i] as u32 <= '9' as u32) && !(i == 0 && s[0]
        == '+') {
        assert(!is_digit(s[i]));
        if s[0] == '+' {
            assert(s.skip(1)[i - 1] == s[i]);
        }
    }
    assert((seq!['+'] + s).skip(1) =~= s);
    assert((seq!['-'] + s).skip(1) =~= s);
    assert(seq!['+'].skip(1) =~= Seq::<char>::empty());
    assert(seq!['-'].skip(1) =~= Seq::<char>::empty());
}

/// A hexadecimal number is read digit by digit, in either case.
pub proof fn law_hex_is_read_digit_by_digit(s: Seq<char>, c: char)
    ensures
        hex_value(Seq::empty()) == 0,
        hex_digit_value(c) is Some ==> hex_value(s.push(c)) == hex_value(s) * 16
            + hex_digit_value(c)->0,
        '0' <= c <= '9' ==> hex_digit_value(c) == Some((c as u32 - '0' as u32) as nat),
        'a' <= c <= 'f' ==> hex_digit_value(c) == Some((c as u32 - 'a' as u32 + 10) as nat),
        'A' <= c <= 'F' ==> hex_digit_value(c) == Some((c as u32 - 'A' as u32 + 10) as nat),
        hex_digit_value(c) is Some ==> '0' <= c <= '9' || 'a' <= c <= 'f' || 'A' <= c <= 'F',
{
    assert(s.push(c).drop_last() =~= s);
}

/// Texts are the same up to case where they have the same length and each character has the same
/// lower-case form.
pub proof fn law_same_up_to_case(a: Seq<char>, b: Seq<char>, c: char, d: char)
    ensures
        same_ignoring_case(Seq::empty(), Seq::empty()),
        same_ignoring_case(a.push(c), b.push(d)) <==> same_ignoring_case(a, b) && ascii_lower(c)
            == ascii_lower(d),
        same_ignoring_case(a, b) ==> a.len() == b.len(),
        same_ignoring_case(a, a),
        same_ignoring_case(a, b) <==> same_ignoring_case(b, a),
{
    let x = a.push(c);
    let y = b.push(d);
    if same_ignoring_case(x, y) {
        assert forall|i: int| 0 <= i < a.len() implies ascii_lower(#[trigger] a[i]) == ascii_lower(
            b[i],
        ) by {
            assert(x[i] == a[i] && y[i] == b[i]);
        }
        assert(x[a.len() as int] == c && y[a.len() as int] == d);
    }
    if same_ignoring_case(a, b) {
        assert forall|i: int| 0 <= i < b.len() implies ascii_lower(#[trigger] b[i]) == ascii_lower(
            a[i],
        ) by {
            assert(ascii_lower(a[i]) == ascii_lower(b[i]));
        }
    }
    if same_ignoring_case(b, a) {
        assert forall|i: int| 0 <= i < a.len() implies ascii_lower(#[trigger] a[i]) == ascii_lower(
            b[i],
        ) by {
            assert(ascii_lower(b[i]) == ascii_lower(a[i]));
        }
    }
}

/// White space is the tabs and line breaks from 9 to 13, the space, and the spaces and separators
/// beyond ASCII.
pub proof fn law_white_space_beyond_ascii(c: char)
    ensures
        is_white_space(c) <==> ({
            let n = c as u32;
            n == 9 || n == 10 || n == 11 || n == 12 || n == 13 || n == 32 || n == 0x85 || n == 0xa0
                || n == 0x1680 || (n > 0x1fff && n < 0x200b) || n == 0x2028 || n == 0x2029 || n
                == 0x202f || n == 0x205f || n == 0x3000
        }),
{
}

} // verus!
