use vstd::prelude::*;
use vstd::string::*;

verus! {

/// `String::push` appends one character at the end of the string, as its documentation
/// says. Like every growth of a `String`, it aborts where memory cannot be had; that is
/// not stated.
pub assume_specification[ String::push ](s: &mut String, ch: char)
    ensures
        final(s)@ == old(s)@.push(ch),
;

/// The character of a decimal digit `0 <= d < 10`.
pub open spec fn digit_char(d: int) -> char {
    (48 + d) as char
}

/// Whether a character is an ASCII decimal digit.
pub open spec fn is_digit(c: char) -> bool {
    '0' <= c && c <= '9'
}

/// The value of an ASCII decimal digit.
pub open spec fn digit_value(c: char) -> int {
    c as int - 48
}

/// The decimal digits of a natural number, most significant first, without leading zeros.
pub open spec fn nat_text(n: nat) -> Seq<char>
    decreases n,
{
    if n < 10 {
        seq![digit_char(n as int)]
    } else {
        nat_text(n / 10).push(digit_char((n % 10) as int))
    }
}

/// The decimal text of an integer, with a leading `-` for negative values.
pub open spec fn int_text(n: int) -> Seq<char> {
    if n < 0 {
        seq!['-'] + nat_text((-n) as nat)
    } else {
        nat_text(n as nat)
    }
}

pub open spec fn all_digits(s: Seq<char>) -> bool {
    forall|i: int| 0 <= i < s.len() ==> #[trigger] is_digit(s[i])
}

/// The value of a sequence of decimal digits read most significant first.
pub open spec fn digits_value(s: Seq<char>) -> nat
    decreases s.len(),
{
    if s.len() == 0 {
        0
    } else {
        (10 * digits_value(s.drop_last()) + digit_value(s.last())) as nat
    }
}

/// What `i32::from_str` gives for a text: an optional `+` or `-`, then at least one
/// decimal digit and nothing else, whose value fits in an `i32`.
pub open spec fn parsed_i32(s: Seq<char>) -> Option<i32> {
    let signed = s.len() > 0 && (s[0] == '+' || s[0] == '-');
    let negative = s.len() > 0 && s[0] == '-';
    let body = if signed { s.drop_first() } else { s };
    if body.len() == 0 || !all_digits(body) {
        None
    } else {
        let v: int = if negative { -(digits_value(body) as int) } else { digits_value(body) as int };
        if i32::MIN <= v <= i32::MAX {
            Some(v as i32)
        } else {
            None
        }
    }
}

proof fn lemma_nat_text_digits(n: nat)
    ensures
        nat_text(n).len() > 0,
        all_digits(nat_text(n)),
        digits_value(nat_text(n)) == n,
    decreases n,
{
    if n < 10 {
        assert(digit_value(digit_char(n as int)) == n);
        assert(nat_text(n).drop_last() =~= Seq::<char>::empty());
        assert(digits_value(nat_text(n).drop_last()) == 0);
    } else {
        lemma_nat_text_digits(n / 10);
        let t = nat_text(n);
        assert(t.drop_last() =~= nat_text(n / 10));
        assert(digit_value(digit_char((n % 10) as int)) == n % 10);
        assert(digits_value(t) == 10 * (n / 10) + n % 10);
        assert(n == 10 * (n / 10) + n % 10);
        assert forall|i: int| 0 <= i < t.len() implies #[trigger] is_digit(t[i]) by {
            if i < t.len() - 1 {
                assert(t[i] == nat_text(n / 10)[i]);
            }
        }
    }
}

/// Reading back the decimal text of an `i32` gives the same `i32`.
pub proof fn law_i32_text_round_trip(n: i32)
    ensures
        parsed_i32(int_text(n as int)) == Some(n),
{
    if n < 0 {
        let m = (-(n as int)) as nat;
        lemma_nat_text_digits(m);
        let s = int_text(n as int);
        assert(s.drop_first() =~= nat_text(m));
    } else {
        let m = n as nat;
        lemma_nat_text_digits(m);
        let s = int_text(n as int);
        assert(is_digit(s[0]));
    }
}

/// Appends the decimal digits of `n` to `s`.
pub fn push_nat_text(s: &mut String, n: u64)
    ensures
        final(s)@ == old(s)@ + nat_text(n as nat),
    decreases n,
{
    if n >= 10 {
        push_nat_text(s, n / 10);
    }
    let d: u64 = n % 10;
    let c: char = ((48 + d) as u8) as char;
    s.push(c);
    proof {
        if n >= 10 {
            assert(final(s)@ =~= old(s)@ + nat_text(n as nat));
        } else {
            assert(final(s)@ =~= old(s)@ + nat_text(n as nat));
        }
    }
}

/// The decimal text of `n`, as `i32`'s `Display` writes it.
pub fn format_i32(n: i32) -> (s: String)
    ensures
        s@ == int_text(n as int),
{
    let mut s = String::new();
    if n < 0 {
        s.push('-');
        let m: u64 = (-(n as i64)) as u64;
        push_nat_text(&mut s, m);
    } else {
        push_nat_text(&mut s, n as u64);
    }
    s
}

proof fn lemma_digits_value_push(s: Seq<char>, c: char)
    requires
        is_digit(c),
    ensures
        digits_value(s.push(c)) == 10 * digits_value(s) + digit_value(c),
{
    assert(s.push(c).drop_last() =~= s);
}

/// Reads an `i32` from decimal text as `i32::from_str` does; `None` where it fails.
pub fn parse_i32(s: &str) -> (r: Option<i32>)
    ensures
        r == parsed_i32(s@),
{
    let len = s.unicode_len();
    if len == 0 {
        return None;
    }
    let first = s.get_char(0);
    let signed = first == '+' || first == '-';
    let negative = first == '-';
    let start: usize = if signed { 1 } else { 0 };
    let ghost body = if signed { s@.drop_first() } else { s@ };
    assert(body =~= s@.subrange(start as int, len as int));
    if start == len {
        return None;
    }
    let mut acc: u64 = 0;
    let mut over = false;
    let mut i = start;
    while i < len
        invariant
            len == s@.len(),
            start <= i <= len,
            body =~= s@.subrange(start as int, len as int),
            signed == (s@.len() > 0 && (s@[0] == '+' || s@[0] == '-')),
            negative == (s@.len() > 0 && s@[0] == '-'),
            body == (if signed { s@.drop_first() } else { s@ }),
            all_digits(s@.subrange(start as int, i as int)),
            !over ==> acc == digits_value(s@.subrange(start as int, i as int)) && acc <= 2147483648,
            over ==> digits_value(s@.subrange(start as int, i as int)) > 2147483648,
        decreases len - i,
    {
        let c = s.get_char(i);
        let ghost prefix = s@.subrange(start as int, i as int);
        if !('0' <= c && c <= '9') {
            assert(body[i - start] == c);
            assert(!is_digit(body[i - start]));
            assert(!all_digits(body));
            return None;
        }
        assert(s@.subrange(start as int, i + 1) =~= prefix.push(c));
        proof {
            lemma_digits_value_push(prefix, c);
        }
        let d: u64 = (c as u32 - 48) as u64;
        if !over {
            let next = acc * 10 + d;
            if next > 2147483648 {
                over = true;
            } else {
                acc = next;
            }
        }
        i += 1;
    }
    assert(s@.subrange(start as int, i as int) =~= body);
    if over {
        return None;
    }
    if negative {
        Some((-(acc as i64)) as i32)
    } else if acc <= 2147483647 {
        Some(acc as i32)
    } else {
        None
    }
}

/// Whether two texts hold the same characters.
pub fn str_eq(a: &str, b: &str) -> (r: bool)
    ensures
        r == (a@ == b@),
{
    let n = a.unicode_len();
    if n != b.unicode_len() {
        return false;
    }
    let mut i: usize = 0;
    while i < n
        invariant
            n == a@.len(),
            n == b@.len(),
            i <= n,
            forall|k: int| 0 <= k < i ==> a@[k] == b@[k],
        decreases n - i,
    {
        if a.get_char(i) != b.get_char(i) {
            return false;
        }
        i += 1;
    }
    assert(a@ =~= b@);
    true
}

/// `c` with an ASCII lower-case letter mapped to its upper case.
pub open spec fn ascii_upper_char(c: char) -> char {
    if 'a' <= c && c <= 'z' {
        (c as int - 32) as char
    } else {
        c
    }
}

/// The text with every ASCII lower-case letter mapped to upper case, the rest unchanged.
pub open spec fn ascii_upper(s: Seq<char>) -> Seq<char> {
    Seq::new(s.len(), |i: int| ascii_upper_char(s[i]))
}

/// A copy of `s` with ASCII letters in upper case, as `str::to_ascii_uppercase` gives it.
pub fn to_ascii_upper(s: &str) -> (r: String)
    ensures
        r@ == ascii_upper(s@),
{
    let n = s.unicode_len();
    let mut r = String::new();
    let mut i: usize = 0;
    while i < n
        invariant
            n == s@.len(),
            i <= n,
            r@ =~= ascii_upper(s@).subrange(0, i as int),
        decreases n - i,
    {
        let c = s.get_char(i);
        if 'a' <= c && c <= 'z' {
            let u: char = ((c as u32 - 32) as u8) as char;
            r.push(u);
        } else {
            r.push(c);
        }
        i += 1;
    }
    r
}

/// A fresh `String` holding `s`.
pub fn owned(s: &str) -> (r: String)
    ensures
        r@ == s@,
{
    String::from_str(s)
}

/// `s` followed by `t`.
pub fn join(mut s: String, t: &str) -> (r: String)
    ensures
        r@ == s@ + t@,
{
    s.append(t);
    s
}

} // verus!
