//! Verified matchers for the two fixed text patterns the validation rules use:
//! the email shape `local@domain.tld` (local part of letters, digits and
//! `._%+-`; domain of letters, digits and `.-`; alphabetic top level of at
//! least two letters) and the phone shape (an optional `+`, a leading nonzero
//! digit, then one to fourteen digits). Password category scanning lives here
//! too.

use vstd::prelude::*;
use vstd::string::StrSliceExecFns;

verus! {

/// Whether a character is an ASCII uppercase letter.
pub open spec fn is_upper_char(c: char) -> bool {
    65 <= c as u32 <= 90
}

/// Whether a character is an ASCII lowercase letter.
pub open spec fn is_lower_char(c: char) -> bool {
    97 <= c as u32 <= 122
}

/// Whether a character is an ASCII letter.
pub open spec fn is_alpha_char(c: char) -> bool {
    is_upper_char(c) || is_lower_char(c)
}

/// Whether a character is an ASCII letter or digit.
pub open spec fn is_alnum_char(c: char) -> bool {
    is_alpha_char(c) || crate::text::is_digit_char(c)
}

/// Whether a character may appear in the local part of an email address.
pub open spec fn is_local_char(c: char) -> bool {
    is_alnum_char(c) || c == '.' || c == '_' || c == '%' || c == '+' || c == '-'
}

/// Whether a character may appear in the domain part of an email address.
pub open spec fn is_domain_char(c: char) -> bool {
    is_alnum_char(c) || c == '.' || c == '-'
}

fn upper_char(c: char) -> (r: bool)
    ensures
        r == is_upper_char(c),
{
    let u: u32 = c as u32;
    65 <= u && u <= 90
}

fn lower_char(c: char) -> (r: bool)
    ensures
        r == is_lower_char(c),
{
    let u: u32 = c as u32;
    97 <= u && u <= 122
}

fn alpha_char(c: char) -> (r: bool)
    ensures
        r == is_alpha_char(c),
{
    upper_char(c) || lower_char(c)
}

fn digit_char_exec(c: char) -> (r: bool)
    ensures
        r == crate::text::is_digit_char(c),
{
    let u: u32 = c as u32;
    48 <= u && u <= 57
}

fn alnum_char(c: char) -> (r: bool)
    ensures
        r == is_alnum_char(c),
{
    alpha_char(c) || digit_char_exec(c)
}

fn local_char(c: char) -> (r: bool)
    ensures
        r == is_local_char(c),
{
    alnum_char(c) || c == '.' || c == '_' || c == '%' || c == '+' || c == '-'
}

fn domain_char(c: char) -> (r: bool)
    ensures
        r == is_domain_char(c),
{
    alnum_char(c) || c == '.' || c == '-'
}

/// A decomposition of `s` as local part, `@` at `i`, domain part, `.` at `j`,
/// and a top-level part of at least two letters.
pub open spec fn email_split_at(s: Seq<char>, i: int, j: int) -> bool {
    &&& 1 <= i
    &&& i + 1 < j
    &&& j + 3 <= s.len()
    &&& s[i] == '@'
    &&& s[j] == '.'
    &&& (forall|k: int| 0 <= k < i ==> is_local_char(#[trigger] s[k]))
    &&& (forall|k: int| i < k < j ==> is_domain_char(#[trigger] s[k]))
    &&& (forall|k: int| j < k < s.len() ==> is_alpha_char(#[trigger] s[k]))
}

/// Whether the whole sequence has the email shape.
pub open spec fn is_email(s: Seq<char>) -> bool {
    exists|i: int, j: int| email_split_at(s, i, j)
}

/// In any email decomposition the `@` must sit at the first `@` of the string.
proof fn lemma_split_pins_at(s: Seq<char>, a: int, i: int, j: int)
    requires
        email_split_at(s, i, j),
        0 <= a < s.len(),
        s[a] == '@',
        forall|k: int| 0 <= k < a ==> s[k] != '@',
    ensures
        i == a,
{
    if i < a {
        if i < j && a < j && a != i {
            if a < j {
                if i < a && a < j {
                    assert(is_domain_char(s[a]));
                    assert(!is_domain_char('@'));
                }
            }
        }
        if a == j {
            assert(s[j] == '.');
        }
        if a > j {
            assert(is_alpha_char(s[a]));
            assert(!is_alpha_char('@'));
        }
    }
    if i > a {
        assert(is_local_char(s[a]));
        assert(!is_local_char('@'));
    }
}

/// In any email decomposition the `.` must sit at the last `.` of the string.
proof fn lemma_split_pins_dot(s: Seq<char>, d: int, i: int, j: int)
    requires
        email_split_at(s, i, j),
        0 <= d < s.len(),
        s[d] == '.',
        forall|k: int| d < k < s.len() ==> s[k] != '.',
    ensures
        j == d,
{
    if j < d {
        assert(s[d] != '.');
    }
    if j > d {
        assert(s[j] == '.');
    }
}

fn find_char_from(s: &str, start: usize, target: char) -> (r: Option<usize>)
    requires
        start <= s@.len(),
    ensures
        (match r {
            Some(p) => start <= p < s@.len() && s@[p as int] == target && (forall|k: int|
                start <= k < p ==> s@[k] != target),
            None => forall|k: int| start <= k < s@.len() ==> s@[k] != target,
        }),
{
    let n = s.unicode_len();
    let mut i = start;
    while i < n
        invariant
            start <= i <= n,
            n == s@.len(),
            forall|k: int| start <= k < i ==> s@[k] != target,
        decreases n - i,
    {
        if s.get_char(i) == target {
            return Some(i);
        }
        i += 1;
    }
    None
}

fn find_last_char_from(s: &str, start: usize, target: char) -> (r: Option<usize>)
    requires
        start <= s@.len(),
    ensures
        (match r {
            Some(p) => start <= p < s@.len() && s@[p as int] == target && (forall|k: int|
                p < k < s@.len() ==> s@[k] != target),
            None => forall|k: int| start <= k < s@.len() ==> s@[k] != target,
        }),
{
    let n = s.unicode_len();
    let mut i = start;
    let mut best: Option<usize> = None;
    while i < n
        invariant
            start <= i <= n,
            n == s@.len(),
            (match best {
                Some(p) => start <= p < i && s@[p as int] == target && (forall|k: int|
                    p < k < i ==> s@[k] != target),
                None => forall|k: int| start <= k < i ==> s@[k] != target,
            }),
        decreases n - i,
    {
        if s.get_char(i) == target {
            best = Some(i);
        }
        i += 1;
    }
    best
}

/// Whether the string has the email shape `local@domain.tld`.
pub fn is_valid_email(s: &str) -> (r: bool)
    ensures
        r == is_email(s@),
{
    let n = s.unicode_len();
    let a = match find_char_from(s, 0, '@') {
        None => {
            proof {
                if is_email(s@) {
                    let (i, j): (int, int) = choose|i: int, j: int| email_split_at(s@, i, j);
                    assert(s@[i] == '@');
                }
            }
            return false;
        },
        Some(a) => a,
    };
    if a == 0 {
        proof {
            if is_email(s@) {
                let (i, j): (int, int) = choose|i: int, j: int| email_split_at(s@, i, j);
                lemma_split_pins_at(s@, 0, i, j);
            }
        }
        return false;
    }
    // every character before the `@` must be a local-part character
    let mut k: usize = 0;
    while k < a
        invariant
            0 <= k <= a < n,
            n == s@.len(),
            s@[a as int] == '@',
            forall|t: int| 0 <= t < a ==> s@[t] != '@',
            forall|t: int| 0 <= t < k ==> is_local_char(#[trigger] s@[t]),
        decreases a - k,
    {
        if !local_char(s.get_char(k)) {
            proof {
                if is_email(s@) {
                    let (i, j): (int, int) = choose|i: int, j: int| email_split_at(s@, i, j);
                    lemma_split_pins_at(s@, a as int, i, j);
                    assert(is_local_char(s@[k as int]));
                }
            }
            return false;
        }
        k += 1;
    }
    // no second `@` may appear
    match find_char_from(s, a + 1, '@') {
        Some(b) => {
            proof {
                if is_email(s@) {
                    let (i, j): (int, int) = choose|i: int, j: int| email_split_at(s@, i, j);
                    lemma_split_pins_at(s@, a as int, i, j);
                    if i < b && b < j {
                        assert(is_domain_char(s@[b as int]));
                    }
                    if b > j {
                        assert(is_alpha_char(s@[b as int]));
                    }
                }
            }
            return false;
        },
        None => {},
    }
    // the `.` before the top-level part is the last `.` of the string
    let d = match find_last_char_from(s, a + 1, '.') {
        None => {
            proof {
                if is_email(s@) {
                    let (i, j): (int, int) = choose|i: int, j: int| email_split_at(s@, i, j);
                    lemma_split_pins_at(s@, a as int, i, j);
                    assert(s@[j] == '.');
                }
            }
            return false;
        },
        Some(d) => d,
    };
    proof {
        if is_email(s@) {
            let (i, j): (int, int) = choose|i: int, j: int| email_split_at(s@, i, j);
            lemma_split_pins_at(s@, a as int, i, j);
            lemma_split_pins_dot(s@, d as int, i, j);
        }
    }
    if d < a + 2 {
        return false;
    }
    if n < 3 || d > n - 3 {
        return false;
    }
    // every character strictly between the `@` and the last `.` must be a
    // domain character
    let mut k2: usize = a + 1;
    while k2 < d
        invariant
            a < k2 <= d < n,
            n == s@.len(),
            forall|t: int| a < t < k2 ==> is_domain_char(#[trigger] s@[t]),
            is_email(s@) ==> email_split_at(s@, a as int, d as int),
        decreases d - k2,
    {
        if !domain_char(s.get_char(k2)) {
            return false;
        }
        k2 += 1;
    }
    // everything after the last `.` must be alphabetic
    let mut k3: usize = d + 1;
    while k3 < n
        invariant
            d < k3 <= n,
            n == s@.len(),
            forall|t: int| d < t < k3 ==> is_alpha_char(#[trigger] s@[t]),
            is_email(s@) ==> email_split_at(s@, a as int, d as int),
            a >= 1 && a + 1 < d && d + 3 <= n,
            s@[a as int] == '@' && s@[d as int] == '.',
            forall|t: int| 0 <= t < a ==> is_local_char(#[trigger] s@[t]),
            forall|t: int| a < t < d ==> is_domain_char(#[trigger] s@[t]),
        decreases n - k3,
    {
        if !alpha_char(s.get_char(k3)) {
            return false;
        }
        k3 += 1;
    }
    proof {
        assert(email_split_at(s@, a as int, d as int));
    }
    true
}

/// Whether the digit run of a phone number is well-shaped: a nonzero leading
/// digit and one to fourteen further digits.
pub open spec fn phone_digits_ok(t: Seq<char>) -> bool {
    &&& 2 <= t.len() <= 15
    &&& t.len() > 0 ==> 49 <= t[0] as u32 <= 57
    &&& (forall|k: int| 1 <= k < t.len() ==> crate::text::is_digit_char(#[trigger] t[k]))
}

/// Whether the sequence has the phone shape: an optional `+`, a nonzero
/// digit, then one to fourteen further digits.
pub open spec fn is_phone(s: Seq<char>) -> bool {
    if s.len() > 0 && s[0] == '+' {
        phone_digits_ok(s.drop_first())
    } else {
        phone_digits_ok(s)
    }
}

/// Whether the string has the phone shape.
pub fn is_valid_phone(s: &str) -> (r: bool)
    ensures
        r == is_phone(s@),
{
    let n = s.unicode_len();
    if n == 0 {
        return false;
    }
    let plus = s.get_char(0) == '+';
    let off: usize = if plus {
        1
    } else {
        0
    };
    let ghost t: Seq<char> = if plus {
        s@.drop_first()
    } else {
        s@
    };
    proof {
        assert(t.len() == n - off);
        assert(forall|k: int| 0 <= k < t.len() ==> #[trigger] t[k] == s@[k + off]);
        assert(is_phone(s@) == phone_digits_ok(t));
    }
    let tlen = n - off;
    if tlen < 2 || tlen > 15 {
        return false;
    }
    let c0 = s.get_char(off);
    let u0: u32 = c0 as u32;
    if u0 < 49 || u0 > 57 {
        return false;
    }
    let mut k = off + 1;
    while k < n
        invariant
            off + 1 <= k <= n,
            n == s@.len(),
            off <= 1,
            off == 1 <==> (s@.len() > 0 && s@[0] == '+'),
            t == (if s@.len() > 0 && s@[0] == '+' {
                s@.drop_first()
            } else {
                s@
            }),
            t.len() == n - off,
            forall|j: int| 0 <= j < t.len() ==> #[trigger] t[j] == s@[j + off],
            2 <= t.len() <= 15,
            49 <= t[0] as u32 <= 57,
            forall|t2: int| off < t2 < k ==> crate::text::is_digit_char(#[trigger] s@[t2]),
            is_phone(s@) == phone_digits_ok(t),
        decreases n - k,
    {
        if !digit_char_exec(s.get_char(k)) {
            proof {
                assert(t[k - off] == s@[k as int]);
                assert(1 <= k - off < t.len());
                assert(!crate::text::is_digit_char(t[k - off]));
                assert(!phone_digits_ok(t));
            }
            return false;
        }
        k += 1;
    }
    proof {
        assert(forall|k2: int| 1 <= k2 < t.len() ==> crate::text::is_digit_char(#[trigger] t[k2]));
        assert(phone_digits_ok(t));
    }
    true
}

/// Whether some character of the sequence is an ASCII uppercase letter.
pub open spec fn has_upper(s: Seq<char>) -> bool {
    exists|i: int| 0 <= i < s.len() && is_upper_char(#[trigger] s[i])
}

/// Whether some character of the sequence is an ASCII lowercase letter.
pub open spec fn has_lower(s: Seq<char>) -> bool {
    exists|i: int| 0 <= i < s.len() && is_lower_char(#[trigger] s[i])
}

/// Whether some character of the sequence is an ASCII digit.
pub open spec fn has_digit(s: Seq<char>) -> bool {
    exists|i: int| 0 <= i < s.len() && crate::text::is_digit_char(#[trigger] s[i])
}

/// Whether some character of the sequence is outside ASCII letters and digits.
pub open spec fn has_special(s: Seq<char>) -> bool {
    exists|i: int| 0 <= i < s.len() && !is_alnum_char(#[trigger] s[i])
}

/// Scans a password once and reports which character categories appear:
/// uppercase, lowercase, digit, and anything outside ASCII letters and digits.
pub fn password_categories(s: &str) -> (r: (bool, bool, bool, bool))
    ensures
        r.0 == has_upper(s@),
        r.1 == has_lower(s@),
        r.2 == has_digit(s@),
        r.3 == has_special(s@),
{
    let n = s.unicode_len();
    let mut up = false;
    let mut low = false;
    let mut dig = false;
    let mut spec_c = false;
    let mut i: usize = 0;
    while i < n
        invariant
            0 <= i <= n,
            n == s@.len(),
            up == exists|k: int| 0 <= k < i && is_upper_char(#[trigger] s@[k]),
            low == exists|k: int| 0 <= k < i && is_lower_char(#[trigger] s@[k]),
            dig == exists|k: int| 0 <= k < i && crate::text::is_digit_char(#[trigger] s@[k]),
            spec_c == exists|k: int| 0 <= k < i && !is_alnum_char(#[trigger] s@[k]),
        decreases n - i,
    {
        let c = s.get_char(i);
        if upper_char(c) {
            up = true;
        } else if lower_char(c) {
            low = true;
        } else if digit_char_exec(c) {
            dig = true;
        } else {
            spec_c = true;
            proof {
                assert(!is_alnum_char(s@[i as int]));
            }
        }
        i += 1;
    }
    (up, low, dig, spec_c)
}

} // verus!
