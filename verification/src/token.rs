//! The token codec.
//!
//! A token is the text `user-<id>.<expiry>.<signature>`: the literal prefix
//! `user-`, one or more decimal digits, a dot, one or more characters other
//! than a dot, a second dot, and one or more further characters. The digits
//! name the user and must fit in 64 bits.
//!
//! The expiry and signature fields are captured and handed back, but nothing
//! checks them: a token that has this shape is accepted whatever they hold.

use crate::error::Error;
use vstd::prelude::*;

verus! {

/// The characters every token starts with: `user-`.
pub open spec fn token_prefix() -> Seq<char> {
    seq!['u', 's', 'e', 'r', '-']
}

/// `c` is one of the decimal digits `0` to `9`.
pub open spec fn is_digit(c: char) -> bool {
    '0' <= c && c <= '9'
}

/// The number that the digit `c` stands for.
pub open spec fn digit_value(c: char) -> nat
    recommends
        is_digit(c),
{
    (c as u32 - '0' as u32) as nat
}

/// Every character of `s` is a decimal digit.
pub open spec fn all_digits(s: Seq<char>) -> bool {
    forall|k: int| 0 <= k < s.len() ==> is_digit(#[trigger] s[k])
}

/// The number that the digit string `s` denotes in base ten. Leading zeros
/// count for nothing, and the empty string denotes zero.
pub open spec fn decimal_value(s: Seq<char>) -> nat
    recommends
        all_digits(s),
    decreases s.len(),
{
    if s.len() == 0 {
        0
    } else {
        decimal_value(s.drop_last()) * 10 + digit_value(s.last())
    }
}

/// The text of the token with these three fields.
pub open spec fn token_text(digits: Seq<char>, expiry: Seq<char>, signature: Seq<char>) -> Seq<
    char,
> {
    token_prefix() + digits + seq!['.'] + expiry + seq!['.'] + signature
}

/// `token` has the shape of a token, and `digits`, `expiry` and `signature`
/// are its three fields. Says nothing about the size of the number.
pub open spec fn is_token_of(
    token: Seq<char>,
    digits: Seq<char>,
    expiry: Seq<char>,
    signature: Seq<char>,
) -> bool {
    &&& token == token_text(digits, expiry, signature)
    &&& digits.len() > 0
    &&& all_digits(digits)
    &&& expiry.len() > 0
    &&& !expiry.contains('.')
    &&& signature.len() > 0
}

/// `token` is a well-formed token with these fields: it has the shape, and
/// its number fits in 64 bits.
pub open spec fn is_valid_token_of(
    token: Seq<char>,
    digits: Seq<char>,
    expiry: Seq<char>,
    signature: Seq<char>,
) -> bool {
    is_token_of(token, digits, expiry, signature) && decimal_value(digits) <= u64::MAX
}

/// What the codec reads out of `token`: the user identifier, the expiry field
/// and the signature field of a well-formed token, and `None` for any other
/// text.
pub open spec fn token_fields(token: Seq<char>) -> Option<(u64, Seq<char>, Seq<char>)> {
    if exists|d: Seq<char>, e: Seq<char>, s: Seq<char>| is_valid_token_of(token, d, e, s) {
        let (d, e, s) = choose|d: Seq<char>, e: Seq<char>, s: Seq<char>|
            is_valid_token_of(token, d, e, s);
        Some((decimal_value(d) as u64, e, s))
    } else {
        None
    }
}

/// The first dot of `t` is at `i` and the second at `j`, with the prefix and
/// digits before the first, and no field empty.
spec fn dots_at(t: Seq<char>, i: int, j: int) -> bool {
    &&& 5 < i
    &&& i + 1 < j
    &&& j + 1 < t.len()
    &&& t.subrange(0, 5) == token_prefix()
    &&& forall|k: int| 5 <= k < i ==> is_digit(#[trigger] t[k])
    &&& t[i] == '.'
    &&& forall|k: int| i < k < j ==> #[trigger] t[k] != '.'
    &&& t[j] == '.'
}

/// Where the first dot stands in a token whose digits are `d`.
spec fn first_dot_of(d: Seq<char>) -> int {
    5 + d.len() as int
}

/// Where the second dot stands in a token whose first two fields are `d` and
/// `e`.
spec fn second_dot_of(d: Seq<char>, e: Seq<char>) -> int {
    6 + d.len() as int + e.len() as int
}

/// A token's fields lie between its prefix and its two dots.
proof fn lemma_fields_lie_between_dots(t: Seq<char>, d: Seq<char>, e: Seq<char>, s: Seq<char>)
    requires
        is_token_of(t, d, e, s),
    ensures
        dots_at(t, first_dot_of(d), second_dot_of(d, e)),
        d == t.subrange(5, first_dot_of(d)),
        e == t.subrange(first_dot_of(d) + 1, second_dot_of(d, e)),
        s == t.subrange(second_dot_of(d, e) + 1, t.len() as int),
{
    let i: int = first_dot_of(d);
    let j: int = second_dot_of(d, e);
    assert(t.len() == 7 + d.len() + e.len() + s.len());
    assert(t.subrange(0, 5) =~= token_prefix());
    assert forall|k: int| 5 <= k < i implies is_digit(#[trigger] t[k]) by {
        assert(t[k] == d[k - 5]);
    }
    assert forall|k: int| i < k < j implies #[trigger] t[k] != '.' by {
        assert(t[k] == e[k - i - 1]);
        assert(e.contains(e[k - i - 1]));
    }
    assert(d =~= t.subrange(5, i));
    assert(e =~= t.subrange(i + 1, j));
    assert(s =~= t.subrange(j + 1, t.len() as int));
}

/// Text with its two dots in place is a token, and the fields are what lies
/// between them.
proof fn lemma_dots_give_fields(t: Seq<char>, i: int, j: int)
    requires
        dots_at(t, i, j),
    ensures
        is_token_of(t, t.subrange(5, i), t.subrange(i + 1, j), t.subrange(j + 1, t.len() as int)),
{
    let d = t.subrange(5, i);
    let e = t.subrange(i + 1, j);
    let s = t.subrange(j + 1, t.len() as int);
    assert(t =~= t.subrange(0, 5) + d + seq!['.'] + e + seq!['.'] + s);
    assert forall|k: int| 0 <= k < d.len() implies is_digit(#[trigger] d[k]) by {
        assert(d[k] == t[k + 5]);
    }
    if e.contains('.') {
        let k: int = choose|k: int| 0 <= k < e.len() && e[k] == '.';
        assert(e[k] == t[k + i + 1]);
    }
}

/// A text has its two dots in one place only.
proof fn lemma_dots_unique(t: Seq<char>, i1: int, j1: int, i2: int, j2: int)
    requires
        dots_at(t, i1, j1),
        dots_at(t, i2, j2),
    ensures
        i1 == i2,
        j1 == j2,
{
    if i1 < i2 {
        assert(is_digit(t[i1]));
    }
    if i2 < i1 {
        assert(is_digit(t[i2]));
    }
    if j1 < j2 {
        assert(t[j1] != '.');
    }
    if j2 < j1 {
        assert(t[j2] != '.');
    }
}

/// A digit string is worth at least as much as any of its prefixes.
proof fn lemma_decimal_value_grows(s: Seq<char>, k: int)
    requires
        0 <= k <= s.len(),
    ensures
        decimal_value(s.take(k)) <= decimal_value(s),
    decreases s.len() - k,
{
    if k == s.len() {
        assert(s.take(k) =~= s);
    } else {
        lemma_decimal_value_grows(s.drop_last(), k);
        assert(s.drop_last().take(k) =~= s.take(k));
    }
}

/// A token has one set of fields only.
pub proof fn lemma_token_fields_unique(
    token: Seq<char>,
    d1: Seq<char>,
    e1: Seq<char>,
    s1: Seq<char>,
    d2: Seq<char>,
    e2: Seq<char>,
    s2: Seq<char>,
)
    requires
        is_token_of(token, d1, e1, s1),
        is_token_of(token, d2, e2, s2),
    ensures
        d1 == d2,
        e1 == e2,
        s1 == s2,
{
    lemma_fields_lie_between_dots(token, d1, e1, s1);
    lemma_fields_lie_between_dots(token, d2, e2, s2);
    lemma_dots_unique(
        token,
        first_dot_of(d1),
        second_dot_of(d1, e1),
        first_dot_of(d2),
        second_dot_of(d2, e2),
    );
}

/// Every well-formed token is read, and read exactly: the codec returns the
/// number its digits denote, and the two other fields as they stand.
pub proof fn lemma_well_formed_token_is_read(
    digits: Seq<char>,
    expiry: Seq<char>,
    signature: Seq<char>,
)
    requires
        digits.len() > 0,
        all_digits(digits),
        decimal_value(digits) <= u64::MAX,
        expiry.len() > 0,
        !expiry.contains('.'),
        signature.len() > 0,
    ensures
        token_fields(token_text(digits, expiry, signature)) == Some(
            (decimal_value(digits) as u64, expiry, signature),
        ),
{
    let token = token_text(digits, expiry, signature);
    assert(is_valid_token_of(token, digits, expiry, signature));
    let (d, e, s) = choose|d: Seq<char>, e: Seq<char>, s: Seq<char>|
        is_valid_token_of(token, d, e, s);
    lemma_token_fields_unique(token, digits, expiry, signature, d, e, s);
}

/// Text that is no token, or whose number does not fit in 64 bits, is not
/// read at all.
pub proof fn lemma_malformed_token_is_rejected(token: Seq<char>)
    requires
        forall|d: Seq<char>, e: Seq<char>, s: Seq<char>| #[trigger]
            is_token_of(token, d, e, s) ==> decimal_value(d) > u64::MAX,
    ensures
        token_fields(token) is None,
{
}

/// The fields of the token whose dots are at `i` and `j`.
proof fn lemma_token_fields_at_dots(t: Seq<char>, i: int, j: int)
    requires
        dots_at(t, i, j),
    ensures
        decimal_value(t.subrange(5, i)) <= u64::MAX ==> token_fields(t) == Some(
            (
                decimal_value(t.subrange(5, i)) as u64,
                t.subrange(i + 1, j),
                t.subrange(j + 1, t.len() as int),
            ),
        ),
        decimal_value(t.subrange(5, i)) > u64::MAX ==> token_fields(t) is None,
{
    let d = t.subrange(5, i);
    let e = t.subrange(i + 1, j);
    let s = t.subrange(j + 1, t.len() as int);
    lemma_dots_give_fields(t, i, j);
    assert forall|d2: Seq<char>, e2: Seq<char>, s2: Seq<char>| #[trigger]
        is_token_of(t, d2, e2, s2) implies d2 == d && e2 == e && s2 == s by {
        lemma_token_fields_unique(t, d, e, s, d2, e2, s2);
    }
    if decimal_value(d) <= u64::MAX {
        assert(is_valid_token_of(t, d, e, s));
    }
}

/// Text that does not start with the prefix is no token.
proof fn lemma_prefix_is_needed(t: Seq<char>)
    requires
        t.len() < 5 || t.subrange(0, 5) != token_prefix(),
    ensures
        token_fields(t) is None,
{
    assert forall|d: Seq<char>, e: Seq<char>, s: Seq<char>| !is_token_of(t, d, e, s) by {
        if is_token_of(t, d, e, s) {
            lemma_fields_lie_between_dots(t, d, e, s);
        }
    }
}

/// Text whose digits end at `i`, where the digits are missing or no dot
/// follows them, is no token.
proof fn lemma_first_dot_is_needed(t: Seq<char>, i: int)
    requires
        5 <= i <= t.len(),
        forall|k: int| 5 <= k < i ==> is_digit(#[trigger] t[k]),
        i == 5 || i == t.len() || t[i] != '.',
        i < t.len() ==> !is_digit(t[i]),
    ensures
        token_fields(t) is None,
{
    assert forall|d: Seq<char>, e: Seq<char>, s: Seq<char>| !is_token_of(t, d, e, s) by {
        if is_token_of(t, d, e, s) {
            lemma_fields_lie_between_dots(t, d, e, s);
            let i2: int = first_dot_of(d);
            if i2 < i {
                assert(is_digit(t[i2]));
            }
            if i < i2 {
                assert(is_digit(t[i]));
            }
        }
    }
}

/// Text whose digits run on past a number of more than 64 bits is no
/// well-formed token.
proof fn lemma_number_must_fit(t: Seq<char>, i: int)
    requires
        5 < i <= t.len(),
        forall|k: int| 5 <= k < i ==> is_digit(#[trigger] t[k]),
        decimal_value(t.subrange(5, i)) > u64::MAX,
    ensures
        token_fields(t) is None,
{
    assert forall|d: Seq<char>, e: Seq<char>, s: Seq<char>| !is_valid_token_of(t, d, e, s) by {
        if is_token_of(t, d, e, s) {
            lemma_fields_lie_between_dots(t, d, e, s);
            let i2: int = first_dot_of(d);
            if i2 < i {
                assert(is_digit(t[i2]));
            }
            lemma_decimal_value_grows(d, i - 5);
            assert(d.take(i - 5) =~= t.subrange(5, i));
        }
    }
}

/// Text with its first dot at `i` whose second field ends at `j`, where that
/// field or the third is empty or no second dot follows, is no token.
proof fn lemma_second_dot_is_needed(t: Seq<char>, i: int, j: int)
    requires
        5 < i < j <= t.len(),
        forall|k: int| 5 <= k < i ==> is_digit(#[trigger] t[k]),
        t[i] == '.',
        forall|k: int| i < k < j ==> #[trigger] t[k] != '.',
        j < t.len() ==> t[j] == '.',
        j == i + 1 || j + 1 >= t.len(),
    ensures
        token_fields(t) is None,
{
    assert forall|d: Seq<char>, e: Seq<char>, s: Seq<char>| !is_token_of(t, d, e, s) by {
        if is_token_of(t, d, e, s) {
            lemma_fields_lie_between_dots(t, d, e, s);
            let i2: int = first_dot_of(d);
            let j2: int = second_dot_of(d, e);
            if i2 < i {
                assert(is_digit(t[i2]));
            }
            if i < i2 {
                assert(is_digit(t[i]));
            }
            if j2 < j {
                assert(t[j2] != '.');
            }
            if j < j2 {
                assert(t[j] != '.');
            }
        }
    }
}

/// The characters of `s`, in order.
fn chars_of(s: &str) -> (v: Vec<char>)
    ensures
        v@ == s@,
{
    let mut v: Vec<char> = Vec::new();
    for c in it: s.chars()
        invariant
            it.seq() == s@,
            v@ == it.seq().take(it.index()),
    {
        v.push(c);
        assert(it.seq().take(it.index() + 1) =~= it.seq().take(it.index()).push(c));
    }
    assert(v@ =~= s@);
    v
}

/// Reads a token.
///
/// Returns the user identifier, the expiry field and the signature field of
/// a well-formed token, and `AuthFailTokenWrongFormat` for any other text.
/// The expiry and the signature are not checked.
pub fn parse_token(token: String) -> (r: Result<(u64, String, String), Error>)
    ensures
        match r {
            Ok((user_id, expiry, signature)) => token_fields(token@) == Some(
                (user_id, expiry@, signature@),
            ),
            Err(e) => e == Error::AuthFailTokenWrongFormat && token_fields(token@) is None,
        },
{
    let text = token.as_str();
    let chars = chars_of(text);
    let n = chars.len();
    let ghost t = token@;
    if n < 5 || chars[0] != 'u' || chars[1] != 's' || chars[2] != 'e' || chars[3] != 'r'
        || chars[4] != '-' {
        proof {
            if n >= 5 {
                assert(t.subrange(0, 5)[0] == t[0]);
                assert(t.subrange(0, 5)[1] == t[1]);
                assert(t.subrange(0, 5)[2] == t[2]);
                assert(t.subrange(0, 5)[3] == t[3]);
                assert(t.subrange(0, 5)[4] == t[4]);
            }
            lemma_prefix_is_needed(t);
        }
        return Err(Error::AuthFailTokenWrongFormat);
    }
    assert(t.subrange(0, 5) =~= token_prefix());

    let mut user_id: u64 = 0;
    let mut i: usize = 5;
    while i < n && '0' <= chars[i] && chars[i] <= '9'
        invariant
            t == token@,
            chars@ == t,
            n == t.len(),
            5 <= i <= n,
            forall|k: int| 5 <= k < i ==> is_digit(#[trigger] t[k]),
            user_id == decimal_value(t.subrange(5, i as int)),
        decreases n - i,
    {
        let digit: u64 = (chars[i] as u32 - '0' as u32) as u64;
        proof {
            assert(t.subrange(5, i + 1).drop_last() =~= t.subrange(5, i as int));
            assert(t.subrange(5, i + 1).last() == t[i as int]);
        }
        let shifted = match user_id.checked_mul(10) {
            Some(tens) => tens.checked_add(digit),
            None => None,
        };
        match shifted {
            Some(value) => {
                user_id = value;
            },
            None => {
                proof {
                    lemma_number_must_fit(t, i + 1);
                }
                return Err(Error::AuthFailTokenWrongFormat);
            },
        }
        i = i + 1;
    }
    if i == 5 || i == n || chars[i] != '.' {
        proof {
            lemma_first_dot_is_needed(t, i as int);
        }
        return Err(Error::AuthFailTokenWrongFormat);
    }
    let mut j: usize = i + 1;
    while j < n && chars[j] != '.'
        invariant
            chars@ == t,
            n == t.len(),
            i < j <= n,
            forall|k: int| i < k < j ==> #[trigger] t[k] != '.',
        decreases n - j,
    {
        j = j + 1;
    }
    if j == i + 1 || j == n || j + 1 == n {
        proof {
            lemma_second_dot_is_needed(t, i as int, j as int);
        }
        return Err(Error::AuthFailTokenWrongFormat);
    }
    let expiry = text.substring_char(i + 1, j).to_owned();
    let signature = text.substring_char(j + 1, n).to_owned();
    proof {
        lemma_token_fields_at_dots(t, i as int, j as int);
    }
    Ok((user_id, expiry, signature))
}

} // verus!
