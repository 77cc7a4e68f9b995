use vstd::prelude::*;
use vstd::string::StrSliceExecFns;
use vstd::string::StringExecFns;
use vstd::utf8::decode_utf8;
use vstd::utf8::valid_utf8;

verus! {

/// The character of a decimal digit `d < 10`.
pub open spec fn digit_char(d: nat) -> char {
    if d == 0 { '0' }
    else if d == 1 { '1' }
    else if d == 2 { '2' }
    else if d == 3 { '3' }
    else if d == 4 { '4' }
    else if d == 5 { '5' }
    else if d == 6 { '6' }
    else if d == 7 { '7' }
    else if d == 8 { '8' }
    else { '9' }
}

/// The decimal notation of `n`, without sign or leading zeros.
pub open spec fn decimal(n: nat) -> Seq<char>
    decreases n,
{
    if n < 10 {
        seq![digit_char(n)]
    } else {
        decimal(n / 10).push(digit_char(n % 10))
    }
}

/// Whether `c` is one of the ASCII digits.
pub open spec fn is_digit(c: char) -> bool {
    '0' <= c && c <= '9'
}

/// The value of a string of ASCII digits read in base ten.
pub open spec fn digits_value(s: Seq<char>) -> nat
    decreases s.len(),
{
    if s.len() == 0 {
        0
    } else {
        digits_value(s.drop_last()) * 10 + ((s.last() as u32 - '0' as u32) as nat)
    }
}

/// The digits of an unsigned number in text: all but an optional leading `+`.
pub open spec fn unsigned_body(s: Seq<char>) -> Seq<char> {
    if s.len() > 0 && s[0] == '+' {
        s.drop_first()
    } else {
        s
    }
}

/// The `u8` that `s` writes in decimal, as Rust's integer parsing reads it: an
/// optional `+`, then one or more ASCII digits whose value is at most 255.
pub open spec fn parsed_u8(s: Seq<char>) -> Option<u8> {
    let body = unsigned_body(s);
    if body.len() > 0 && (forall|i: int| 0 <= i < body.len() ==> is_digit(#[trigger] body[i]))
        && digits_value(body) <= 255 {
        Some(digits_value(body) as u8)
    } else {
        None
    }
}

/// What `str::trim` makes of a text: the text without its leading and trailing
/// whitespace, as Unicode defines whitespace.
pub uninterp spec fn trimmed(s: Seq<char>) -> Seq<char>;

/// Relies on `str::trim`: the result is the text without leading and trailing
/// whitespace, and depends on the text alone.
#[verifier::external_body]
pub(crate) fn trim(s: &str) -> (r: &str)
    ensures
        r@ == trimmed(s@),
{
    s.trim()
}

/// Relies on `std::str::from_utf8`: it accepts exactly the byte sequences that
/// are valid UTF-8, and then yields the characters they encode.
#[verifier::external_body]
pub(crate) fn utf8_text(bytes: &[u8]) -> (r: Option<String>)
    ensures
        r is Some <==> valid_utf8(bytes@),
        r matches Some(s) ==> s@ == decode_utf8(bytes@),
{
    match std::str::from_utf8(bytes) {
        Ok(s) => Some(s.to_string()),
        Err(_) => None,
    }
}

fn digit_str(d: u8) -> (r: &'static str)
    requires
        d < 10,
    ensures
        r@ == seq![digit_char(d as nat)],
{
    proof {
        reveal_strlit("0");
        reveal_strlit("1");
        reveal_strlit("2");
        reveal_strlit("3");
        reveal_strlit("4");
        reveal_strlit("5");
        reveal_strlit("6");
        reveal_strlit("7");
        reveal_strlit("8");
        reveal_strlit("9");
    }
    match d {
        0 => "0",
        1 => "1",
        2 => "2",
        3 => "3",
        4 => "4",
        5 => "5",
        6 => "6",
        7 => "7",
        8 => "8",
        _ => "9",
    }
}

/// Writes `n` in decimal.
pub fn decimal_string(n: u8) -> (r: String)
    ensures
        r@ == decimal(n as nat),
{
    if n < 10 {
        String::from_str(digit_str(n))
    } else if n < 100 {
        proof {
            let m = n as nat;
            assert(decimal(m / 10) == seq![digit_char(m / 10)]);
            assert(decimal(m) == decimal(m / 10).push(digit_char(m % 10)));
            assert(m / 10 == (n / 10) as nat);
            assert(m % 10 == (n % 10) as nat);
        }
        let tens = String::from_str(digit_str(n / 10));
        tens.concat(digit_str(n % 10))
    } else {
        proof {
            let k = n as nat;
            let m = k / 10;
            assert(decimal(m / 10) == seq![digit_char(m / 10)]);
            assert(decimal(m) == decimal(m / 10).push(digit_char(m % 10)));
            assert(decimal(k) == decimal(m).push(digit_char(k % 10)));
            assert(m / 10 == (n / 100) as nat);
            assert(m % 10 == ((n / 10) % 10) as nat);
            assert(k % 10 == (n % 10) as nat);
        }
        let hundreds = String::from_str(digit_str(n / 100));
        let tens = hundreds.concat(digit_str((n / 10) % 10));
        tens.concat(digit_str(n % 10))
    }
}

/// Reads `s` as a decimal `u8`, as `str::parse::<u8>` does.
pub fn parse_u8(s: &str) -> (r: Option<u8>)
    ensures
        r == parsed_u8(s@),
{
    let len = s.unicode_len();
    let ghost body = unsigned_body(s@);
    let mut i: usize = 0;
    if len > 0 && s.get_char(0) == '+' {
        i = 1;
    }
    let start = i;
    if start == len {
        return None;
    }
    let mut value: u32 = 0;
    while i < len
        invariant
            start <= i <= len,
            len == s@.len(),
            start < len,
            body == s@.subrange(start as int, len as int),
            body == unsigned_body(s@),
            forall|k: int| 0 <= k < i - start ==> is_digit(#[trigger] body[k]),
            value as nat == digits_value(body.subrange(0, i - start)),
            value <= 255,
        decreases len - i,
    {
        let c = s.get_char(i);
        assert(body[i - start] == c);
        if !('0' <= c && c <= '9') {
            assert(!is_digit(body[i - start]));
            return None;
        }
        let next: u32 = value * 10 + (c as u32 - '0' as u32);
        proof {
            let pre = body.subrange(0, i - start);
            let post = body.subrange(0, i + 1 - start);
            assert(post.drop_last() =~= pre);
            assert(post.last() == c);
            assert(digits_value(post) == digits_value(pre) * 10 + ((c as u32 - '0' as u32) as nat));
            assert(digits_value(post) == next as nat);
        }
        if next > 255 {
            proof {
                lemma_digits_value_grows(body, (i + 1 - start) as int);
            }
            return None;
        }
        value = next;
        i = i + 1;
    }
    assert(body.subrange(0, len - start) =~= body);
    Some(value as u8)
}

/// A longer prefix of digits is worth at least as much as a shorter one.
proof fn lemma_digits_value_grows(s: Seq<char>, k: int)
    requires
        0 <= k <= s.len(),
    ensures
        digits_value(s.subrange(0, k)) <= digits_value(s),
    decreases s.len() - k,
{
    if k < s.len() {
        lemma_digits_value_grows(s, k + 1);
        let a = s.subrange(0, k);
        let b = s.subrange(0, k + 1);
        assert(b.drop_last() =~= a);
        assert(digits_value(a) <= digits_value(b)) by (nonlinear_arith)
            requires
                digits_value(b) == digits_value(a) * 10 + ((b.last() as u32 - '0' as u32) as nat),
        ;
    } else {
        assert(s.subrange(0, k) =~= s);
    }
}

} // verus!
