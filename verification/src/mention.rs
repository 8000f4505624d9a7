use vstd::prelude::*;
use vstd::string::*;

use crate::text::{decimal, digit_char};

verus! {

/// Whether `c` is an ASCII decimal digit.
pub open spec fn is_ascii_digit(c: char) -> bool {
    48 <= c as int <= 57
}

/// The value of a run of decimal digits, read most significant first.
pub open spec fn digits_value(s: Seq<char>) -> nat
    decreases s.len(),
{
    if s.len() == 0 {
        0
    } else {
        digits_value(s.drop_last()) * 10 + (s.last() as int - 48) as nat
    }
}

/// What `u64::from_str` gives: an optional `+` followed by one or more ASCII
/// digits whose value fits in 64 bits; anything else is an error.
pub open spec fn decimal_u64(s: Seq<char>) -> Option<u64> {
    let body = if s.len() > 0 && s[0] == '+' {
        s.drop_first()
    } else {
        s
    };
    if body.len() > 0 && (forall|i: int| 0 <= i < body.len() ==> is_ascii_digit(#[trigger] body[i]))
        && digits_value(body) <= u64::MAX {
        Some(digits_value(body) as u64)
    } else {
        None
    }
}

/// Whether `s` starts with `<@`.
pub open spec fn opens_user_mention(s: Seq<char>) -> bool {
    s.len() >= 2 && s[0] == '<' && s[1] == '@'
}

/// The inputs on which serenity's `parse_username` panics: it drops the last
/// byte of a string that starts with `<@`, which splits a last character that
/// takes more than one byte.
pub open spec fn username_parse_panics(s: Seq<char>) -> bool {
    opens_user_mention(s) && s.last() as int >= 128
}

/// The user id in a mention `<@id>` or `<@!id>`. The last character is dropped
/// unseen, and the id is read as `u64::from_str` reads it.
pub open spec fn user_mention_id(s: Seq<char>) -> Option<u64> {
    if s.len() >= 4 && opens_user_mention(s) && s[2] == '!' {
        decimal_u64(s.subrange(3, s.len() - 1))
    } else if s.len() >= 4 && opens_user_mention(s) {
        decimal_u64(s.subrange(2, s.len() - 1))
    } else {
        None
    }
}

/// Calls `<u64 as FromStr>::from_str`, which accepts exactly an optional `+`
/// followed by ASCII digits whose value fits in a `u64` (its documentation);
/// the contract claims `decimal_u64` of the input.
#[verifier::external_body]
pub(crate) fn parse_decimal_u64(s: &str) -> (r: Option<u64>)
    ensures
        r == decimal_u64(s@),
{
    s.parse::<u64>().ok()
}

/// Calls `serenity::utils::parse_username`. Its source checks for a byte length
/// of at least four and a `<@!` or `<@` prefix, drops the last byte and parses
/// the rest as a `u64`; the contract claims `user_mention_id`, on the inputs on
/// which it does not panic.
#[verifier::external_body]
pub(crate) fn serenity_parse_username(s: &str) -> (r: Option<u64>)
    requires
        !username_parse_panics(s@),
    ensures
        r == user_mention_id(s@),
{
    serenity::utils::parse_username(s)
}

/// Whether serenity's mention parser would panic on `name`.
pub fn mention_parse_would_panic(name: &str) -> (b: bool)
    ensures
        b == username_parse_panics(name@),
{
    let n: usize = name.unicode_len();
    if n < 2 {
        return false;
    }
    let first: char = name.get_char(0);
    let second: char = name.get_char(1);
    let last: char = name.get_char(n - 1);
    first == '<' && second == '@' && (last as u32) >= 128
}

/// The decimal text of a number is a non-empty run of ASCII digits whose value is
/// the number.
pub proof fn lemma_decimal_digits(n: nat)
    ensures
        decimal(n).len() > 0,
        forall|i: int| 0 <= i < decimal(n).len() ==> is_ascii_digit(#[trigger] decimal(n)[i]),
        digits_value(decimal(n)) == n,
    decreases n,
{
    if n < 10 {
        assert(digit_char(n) as int == 48 + n);
        assert(decimal(n).drop_last() =~= Seq::<char>::empty());
        assert(digits_value(Seq::<char>::empty()) == 0);
        assert(decimal(n).last() == digit_char(n));
    } else {
        lemma_decimal_digits(n / 10);
        let head = decimal(n / 10);
        assert(digit_char(n % 10) as int == 48 + n % 10);
        assert(decimal(n).drop_last() =~= head);
        assert(decimal(n).last() == digit_char(n % 10));
        assert(digits_value(decimal(n)) == digits_value(head) * 10 + (n % 10));
        assert forall|i: int| 0 <= i < decimal(n).len() implies is_ascii_digit(#[trigger] decimal(n)[i]) by {
            if i < head.len() {
                assert(decimal(n)[i] == head[i]);
            }
        }
    }
}

/// Reading back the decimal text of a number, as `u64::from_str` does, gives the
/// number again.
pub proof fn lemma_decimal_reads_back(n: u64)
    ensures
        decimal_u64(decimal(n as nat)) == Some(n),
{
    lemma_decimal_digits(n as nat);
    assert(is_ascii_digit(decimal(n as nat)[0]));
}

/// A mention `<@id>` or `<@!id>` of a user, written with the id in decimal, names
/// that user, and the mention parser does not panic on it.
pub proof fn lemma_mention_of_id(n: u64)
    ensures
        !username_parse_panics(seq!['<', '@'] + decimal(n as nat) + seq!['>']),
        user_mention_id(seq!['<', '@'] + decimal(n as nat) + seq!['>']) == Some(n),
        !username_parse_panics(seq!['<', '@', '!'] + decimal(n as nat) + seq!['>']),
        user_mention_id(seq!['<', '@', '!'] + decimal(n as nat) + seq!['>']) == Some(n),
{
    lemma_decimal_reads_back(n);
    lemma_decimal_digits(n as nat);
    let d = decimal(n as nat);
    let a = seq!['<', '@'] + d + seq!['>'];
    let b = seq!['<', '@', '!'] + d + seq!['>'];
    assert(a.subrange(2, a.len() - 1) =~= d);
    assert(b.subrange(3, b.len() - 1) =~= d);
    assert(a[2] == d[0]);
    assert(is_ascii_digit(d[0]));
    assert(a.last() == '>');
    assert(b.last() == '>');
}

} // verus!
