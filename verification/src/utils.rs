//! Casing utilities: classifying identifiers as snake_case, camelCase
//! or PascalCase, and converting between those casings, together with
//! small decimal-digit helpers used elsewhere in the library.

use vstd::prelude::*;

verus! {

/// Whether `c` is an ASCII lowercase letter.
pub open spec fn spec_is_lower(c: char) -> bool {
    'a' as u32 <= c as u32 && c as u32 <= 'z' as u32
}

/// Whether `c` is an ASCII uppercase letter.
pub open spec fn spec_is_upper(c: char) -> bool {
    'A' as u32 <= c as u32 && c as u32 <= 'Z' as u32
}

/// `c` with an ASCII uppercase letter folded to lowercase.
pub open spec fn spec_lower(c: char) -> char {
    if spec_is_upper(c) {
        ((c as u32 + 32) as u8) as char
    } else {
        c
    }
}

/// `c` with an ASCII lowercase letter raised to uppercase.
pub open spec fn spec_upper(c: char) -> char {
    if spec_is_lower(c) {
        ((c as u32 - 32) as u8) as char
    } else {
        c
    }
}

/// Whether `c` is an ASCII decimal digit.
pub open spec fn spec_is_digit(c: char) -> bool {
    '0' as u32 <= c as u32 && c as u32 <= '9' as u32
}

/// The numeric value of the ASCII digit `c`.
pub open spec fn spec_digit_val(c: char) -> int {
    c as u32 - '0' as u32
}

/// The ASCII digit for the value `d` (`0 <= d <= 9`).
pub open spec fn spec_digit_char(d: int) -> char {
    (('0' as u32 + d) as u8) as char
}

/// An identifier is snake_case when it is nonempty and every character
/// is an ASCII lowercase letter or an underscore.
pub open spec fn spec_is_snake_case(s: Seq<char>) -> bool {
    s.len() > 0 && forall|i: int|
        0 <= i < s.len() ==> spec_is_lower(#[trigger] s[i]) || s[i] == '_'
}

/// An identifier is camelCase when it is nonempty, not snake_case,
/// starts with an ASCII lowercase letter, and holds no underscore.
pub open spec fn spec_is_camel_case(s: Seq<char>) -> bool {
    s.len() > 0 && !spec_is_snake_case(s) && spec_is_lower(s[0]) && forall|i: int|
        0 <= i < s.len() ==> #[trigger] s[i] != '_'
}

/// An identifier is PascalCase when it is nonempty, not snake_case,
/// starts with an ASCII uppercase letter, and holds no underscore.
pub open spec fn spec_is_pascal_case(s: Seq<char>) -> bool {
    s.len() > 0 && !spec_is_snake_case(s) && spec_is_upper(s[0]) && forall|i: int|
        0 <= i < s.len() ==> #[trigger] s[i] != '_'
}

/// How one non-leading character expands under snake_case conversion:
/// an uppercase letter becomes an underscore and its lowercase form.
pub open spec fn spec_snake_expansion(c: char) -> Seq<char> {
    if spec_is_upper(c) {
        seq!['_', spec_lower(c)]
    } else {
        seq![c]
    }
}

/// The snake_case conversion of every character after the first.
pub open spec fn spec_snake_rest(s: Seq<char>) -> Seq<char>
    decreases s,
{
    if s.len() == 0 {
        Seq::empty()
    } else {
        spec_snake_expansion(s[0]) + spec_snake_rest(s.drop_first())
    }
}

/// The snake_case conversion of an identifier: the first character is
/// lowercased, and each later uppercase letter becomes an underscore
/// followed by its lowercase form.
pub open spec fn spec_to_snake_case(s: Seq<char>) -> Seq<char> {
    if s.len() == 0 {
        Seq::empty()
    } else {
        seq![spec_lower(s[0])] + spec_snake_rest(s.drop_first())
    }
}

/// The camelCase conversion of every character after the first:
/// underscores are dropped and the character right after a run of
/// underscores is uppercased.
pub open spec fn spec_camel_rest(s: Seq<char>, up_next: bool) -> Seq<char>
    decreases s,
{
    if s.len() == 0 {
        Seq::empty()
    } else if s[0] == '_' {
        spec_camel_rest(s.drop_first(), true)
    } else if up_next {
        seq![spec_upper(s[0])] + spec_camel_rest(s.drop_first(), false)
    } else {
        seq![s[0]] + spec_camel_rest(s.drop_first(), false)
    }
}

/// The camelCase conversion of an identifier: the first character is
/// lowercased, underscores are dropped, and each character right after
/// an underscore is uppercased.
pub open spec fn spec_to_camel_case(s: Seq<char>) -> Seq<char> {
    if s.len() == 0 {
        Seq::empty()
    } else {
        seq![spec_lower(s[0])] + spec_camel_rest(s.drop_first(), false)
    }
}

/// The PascalCase conversion of an identifier: its camelCase conversion
/// with the first character uppercased.
pub open spec fn spec_to_pascal_case(s: Seq<char>) -> Seq<char> {
    let c = spec_to_camel_case(s);
    if c.len() == 0 {
        Seq::empty()
    } else {
        seq![spec_upper(c[0])] + c.drop_first()
    }
}

/// Relies on `String::push` from std: appends exactly the given
/// character to the end of the string.
#[verifier::external_body]
pub fn push_char(s: &mut String, c: char)
    ensures
        final(s)@ == old(s)@.push(c),
{
    s.push(c);
}

/// Whether `c` is an ASCII lowercase letter.
pub fn is_lower_char(c: char) -> (r: bool)
    ensures
        r == spec_is_lower(c),
{
    let u = c as u32;
    97 <= u && u <= 122
}

/// Whether `c` is an ASCII uppercase letter.
pub fn is_upper_char(c: char) -> (r: bool)
    ensures
        r == spec_is_upper(c),
{
    let u = c as u32;
    65 <= u && u <= 90
}

/// Whether `c` is an ASCII decimal digit.
pub fn is_digit_char(c: char) -> (r: bool)
    ensures
        r == spec_is_digit(c),
{
    let u = c as u32;
    48 <= u && u <= 57
}

/// `c` with an ASCII uppercase letter folded to lowercase.
pub fn to_lower_char(c: char) -> (r: char)
    ensures
        r == spec_lower(c),
{
    if is_upper_char(c) {
        let u = c as u32;
        ((u + 32) as u8) as char
    } else {
        c
    }
}

/// `c` with an ASCII lowercase letter raised to uppercase.
pub fn to_upper_char(c: char) -> (r: char)
    ensures
        r == spec_upper(c),
{
    if is_lower_char(c) {
        let u = c as u32;
        ((u - 32) as u8) as char
    } else {
        c
    }
}

/// Whether the identifier is snake_case.
pub fn is_snake_case(s: &str) -> (r: bool)
    ensures
        r == spec_is_snake_case(s@),
{
    let n = s.unicode_len();
    if n == 0 {
        return false;
    }
    let mut i: usize = 0;
    while i < n
        invariant
            0 <= i <= n,
            n == s@.len(),
            forall|j: int| 0 <= j < i ==> spec_is_lower(#[trigger] s@[j]) || s@[j] == '_',
        decreases n - i,
    {
        let c = s.get_char(i);
        if !(is_lower_char(c) || c == '_') {
            return false;
        }
        i = i + 1;
    }
    true
}

/// Whether the identifier holds no underscore.
fn has_no_underscore(s: &str) -> (r: bool)
    ensures
        r == (forall|i: int| 0 <= i < s@.len() ==> #[trigger] s@[i] != '_'),
{
    let n = s.unicode_len();
    let mut i: usize = 0;
    while i < n
        invariant
            0 <= i <= n,
            n == s@.len(),
            forall|j: int| 0 <= j < i ==> #[trigger] s@[j] != '_',
        decreases n - i,
    {
        if s.get_char(i) == '_' {
            return false;
        }
        i = i + 1;
    }
    true
}

/// Whether the identifier is camelCase.
pub fn is_camel_case(s: &str) -> (r: bool)
    ensures
        r == spec_is_camel_case(s@),
{
    let n = s.unicode_len();
    if n == 0 {
        return false;
    }
    if is_snake_case(s) {
        return false;
    }
    is_lower_char(s.get_char(0)) && has_no_underscore(s)
}

/// Whether the identifier is PascalCase.
pub fn is_pascal_case(s: &str) -> (r: bool)
    ensures
        r == spec_is_pascal_case(s@),
{
    let n = s.unicode_len();
    if n == 0 {
        return false;
    }
    if is_snake_case(s) {
        return false;
    }
    is_upper_char(s.get_char(0)) && has_no_underscore(s)
}

/// Converts an identifier to snake_case.
pub fn to_snake_case(s: &str) -> (r: String)
    ensures
        r@ == spec_to_snake_case(s@),
{
    let n = s.unicode_len();
    let mut res = String::new();
    if n == 0 {
        return res;
    }
    push_char(&mut res, to_lower_char(s.get_char(0)));
    proof {
        assert(s@.skip(1) =~= s@.drop_first());
        assert(res@ =~= seq![spec_lower(s@[0])]);
    }
    let mut i: usize = 1;
    while i < n
        invariant
            1 <= i <= n,
            n == s@.len(),
            spec_to_snake_case(s@) == res@ + spec_snake_rest(s@.skip(i as int)),
        decreases n - i,
    {
        let ghost rest = s@.skip(i as int);
        proof {
            assert(rest.len() > 0);
            assert(rest[0] == s@[i as int]);
            assert(rest.drop_first() =~= s@.skip(i as int + 1));
        }
        let c = s.get_char(i);
        if is_upper_char(c) {
            push_char(&mut res, '_');
            push_char(&mut res, to_lower_char(c));
            proof {
                assert(spec_snake_expansion(rest[0]) =~= seq!['_', spec_lower(c)]);
                assert(res@ =~= (res@.drop_last().drop_last() + spec_snake_expansion(rest[0])));
            }
        } else {
            push_char(&mut res, c);
            proof {
                assert(spec_snake_expansion(rest[0]) =~= seq![c]);
                assert(res@ =~= (res@.drop_last() + spec_snake_expansion(rest[0])));
            }
        }
        i = i + 1;
    }
    proof {
        assert(s@.skip(n as int) =~= Seq::<char>::empty());
        assert(res@ + Seq::<char>::empty() =~= res@);
    }
    res
}

/// Converts an identifier to camelCase.
pub fn to_camel_case(s: &str) -> (r: String)
    ensures
        r@ == spec_to_camel_case(s@),
{
    let n = s.unicode_len();
    let mut res = String::new();
    if n == 0 {
        return res;
    }
    push_char(&mut res, to_lower_char(s.get_char(0)));
    proof {
        assert(s@.skip(1) =~= s@.drop_first());
        assert(res@ =~= seq![spec_lower(s@[0])]);
    }
    let mut up_next = false;
    let mut i: usize = 1;
    while i < n
        invariant
            1 <= i <= n,
            n == s@.len(),
            spec_to_camel_case(s@) == res@ + spec_camel_rest(s@.skip(i as int), up_next),
        decreases n - i,
    {
        let ghost rest = s@.skip(i as int);
        proof {
            assert(rest.len() > 0);
            assert(rest[0] == s@[i as int]);
            assert(rest.drop_first() =~= s@.skip(i as int + 1));
        }
        let c = s.get_char(i);
        if c == '_' {
            up_next = true;
        } else if up_next {
            push_char(&mut res, to_upper_char(c));
            up_next = false;
            proof {
                assert(res@ =~= (res@.drop_last() + seq![spec_upper(c)]));
            }
        } else {
            push_char(&mut res, c);
            proof {
                assert(res@ =~= (res@.drop_last() + seq![c]));
            }
        }
        i = i + 1;
    }
    proof {
        assert(s@.skip(n as int) =~= Seq::<char>::empty());
        assert(res@ + Seq::<char>::empty() =~= res@);
    }
    res
}

/// Converts an identifier to PascalCase.
pub fn to_pascal_case(s: &str) -> (r: String)
    ensures
        r@ == spec_to_pascal_case(s@),
{
    let camel = to_camel_case(s);
    let n = camel.as_str().unicode_len();
    let mut res = String::new();
    if n == 0 {
        return res;
    }
    push_char(&mut res, to_upper_char(camel.as_str().get_char(0)));
    let mut i: usize = 1;
    while i < n
        invariant
            1 <= i <= n,
            n == camel@.len(),
            camel@ == spec_to_camel_case(s@),
            res@ == seq![spec_upper(camel@[0])] + camel@.subrange(1, i as int),
        decreases n - i,
    {
        let c = camel.as_str().get_char(i);
        push_char(&mut res, c);
        proof {
            assert(camel@.subrange(1, i as int + 1) =~= camel@.subrange(1, i as int).push(c));
        }
        i = i + 1;
    }
    proof {
        assert(camel@.subrange(1, n as int) =~= camel@.drop_first());
        assert(res@ =~= spec_to_pascal_case(s@));
    }
    res
}

/// The decimal digits of `n`, most significant first.
pub open spec fn spec_decimal(n: nat) -> Seq<char>
    decreases n,
{
    if n < 10 {
        seq![spec_digit_char(n as int)]
    } else {
        spec_decimal(n / 10) + seq![spec_digit_char((n % 10) as int)]
    }
}

/// The ASCII digit for the value `d`.
pub fn digit_char(d: u32) -> (r: char)
    requires
        d < 10,
    ensures
        r == spec_digit_char(d as int),
{
    ((48 + d) as u8) as char
}

/// Renders `n` in decimal.
pub fn usize_to_string(n: usize) -> (r: String)
    ensures
        r@ == spec_decimal(n as nat),
    decreases n,
{
    if n < 10 {
        let mut r = String::new();
        push_char(&mut r, digit_char(n as u32));
        proof {
            assert(r@ =~= seq![spec_digit_char(n as int)]);
        }
        r
    } else {
        let mut r = usize_to_string(n / 10);
        push_char(&mut r, digit_char((n % 10) as u32));
        proof {
            assert((n / 10) as nat == (n as nat) / 10);
            assert((n % 10) as nat == (n as nat) % 10);
            assert(r@ =~= spec_decimal((n as nat) / 10) + seq![
                spec_digit_char(((n as nat) % 10) as int),
            ]);
        }
        r
    }
}

/// Whether every character of `s` is an ASCII decimal digit.
pub open spec fn spec_all_digits(s: Seq<char>) -> bool {
    forall|i: int| 0 <= i < s.len() ==> spec_is_digit(#[trigger] s[i])
}

/// The value of `s` read as base-10 digits, most significant first.
pub open spec fn spec_decimal_value(s: Seq<char>) -> int
    decreases s,
{
    if s.len() == 0 {
        0
    } else {
        spec_decimal_value(s.drop_last()) * 10 + spec_digit_val(s.last())
    }
}

/// A digit string's value is never negative.
pub proof fn lemma_decimal_value_nonneg(s: Seq<char>)
    requires
        spec_all_digits(s),
    ensures
        spec_decimal_value(s) >= 0,
    decreases s,
{
    if s.len() > 0 {
        assert(spec_all_digits(s.drop_last())) by {
            assert(forall|i: int|
                0 <= i < s.len() - 1 ==> s.drop_last()[i] == #[trigger] s[i]);
        }
        lemma_decimal_value_nonneg(s.drop_last());
    }
}

/// A digit string's value only grows as more digits follow.
pub proof fn lemma_decimal_value_take_le(s: Seq<char>, i: int)
    requires
        spec_all_digits(s),
        0 <= i <= s.len(),
    ensures
        spec_decimal_value(s.take(i)) <= spec_decimal_value(s),
    decreases s.len() - i,
{
    if i == s.len() {
        assert(s.take(i) =~= s);
    } else {
        lemma_decimal_value_take_le(s, i + 1);
        assert(s.take(i + 1).drop_last() =~= s.take(i));
        assert(s.take(i + 1).last() == s[i]);
        assert(spec_all_digits(s.take(i))) by {
            assert(forall|j: int| 0 <= j < i ==> s.take(i)[j] == #[trigger] s[j]);
        }
        lemma_decimal_value_nonneg(s.take(i));
    }
}

/// Reads a nonempty string of decimal digits as a `usize`. Returns
/// `None` exactly when the string is empty, holds a non-digit, or
/// names a value too large for `usize`.
pub fn parse_usize_digits(s: &str) -> (r: Option<usize>)
    ensures
        match r {
            Some(v) => s@.len() > 0 && spec_all_digits(s@) && v as int == spec_decimal_value(s@),
            None => !(s@.len() > 0 && spec_all_digits(s@) && spec_decimal_value(s@)
                <= usize::MAX as int),
        },
{
    let n = s.unicode_len();
    if n == 0 {
        return None;
    }
    let mut acc: usize = 0;
    let mut i: usize = 0;
    while i < n
        invariant
            0 <= i <= n,
            n == s@.len(),
            spec_all_digits(s@.take(i as int)),
            acc as int == spec_decimal_value(s@.take(i as int)),
        decreases n - i,
    {
        let c = s.get_char(i);
        if !is_digit_char(c) {
            proof {
                assert(!spec_is_digit(s@[i as int]));
            }
            return None;
        }
        let d = (c as u32 - 48) as usize;
        proof {
            assert(s@.take(i as int + 1).drop_last() =~= s@.take(i as int));
            assert(s@.take(i as int + 1).last() == s@[i as int]);
            assert(spec_all_digits(s@.take(i as int + 1))) by {
                assert(forall|j: int|
                    0 <= j < i as int + 1 ==> s@.take(i as int + 1)[j] == #[trigger] s@[j]);
            }
        }
        if acc > usize::MAX / 10 || (acc == usize::MAX / 10 && d > usize::MAX % 10) {
            proof {
                vstd::arithmetic::div_mod::lemma_fundamental_div_mod(usize::MAX as int, 10);
                assert(spec_decimal_value(s@.take(i as int + 1)) == acc as int * 10 + d as int);
                assert(acc as int * 10 + d as int > usize::MAX as int);
                if spec_all_digits(s@) {
                    lemma_decimal_value_take_le(s@, i as int + 1);
                }
            }
            return None;
        }
        proof {
            vstd::arithmetic::div_mod::lemma_fundamental_div_mod(usize::MAX as int, 10);
            assert(acc as int * 10 + d as int <= usize::MAX as int);
        }
        acc = acc * 10 + d;
        i = i + 1;
    }
    proof {
        assert(s@.take(n as int) =~= s@);
    }
    Some(acc)
}

/// Convert a string between the recognized identifier casings.
pub trait RuaCaseConverter {
    /// Converts to snake_case.
    fn to_snake_case(&self) -> (r: String);

    /// Converts to camelCase.
    fn to_camel_case(&self) -> (r: String);

    /// Converts to PascalCase.
    fn to_pascal_case(&self) -> (r: String);
}

impl RuaCaseConverter for String {
    fn to_snake_case(&self) -> (r: String)
        ensures
            r@ == spec_to_snake_case(self@),
    {
        to_snake_case(self.as_str())
    }

    fn to_camel_case(&self) -> (r: String)
        ensures
            r@ == spec_to_camel_case(self@),
    {
        to_camel_case(self.as_str())
    }

    fn to_pascal_case(&self) -> (r: String)
        ensures
            r@ == spec_to_pascal_case(self@),
    {
        to_pascal_case(self.as_str())
    }
}

} // verus!
