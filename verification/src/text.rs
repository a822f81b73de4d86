//! Small verified text helpers: character case folding, substring search,
//! decimal rendering and list joining. Everything is specified over the
//! character sequences behind `String` and `&str`.

use vstd::prelude::*;
use vstd::string::StrSliceExecFns;
use vstd::string::StringExecFns;

verus! {

/// ASCII whitespace, as far as trimming input is concerned.
pub open spec fn is_space(c: char) -> bool {
    c == ' ' || c == '\t' || c == '\n' || c == '\r'
}

fn is_space_exec(c: char) -> (r: bool)
    ensures
        r == is_space(c),
{
    c == ' ' || c == '\t' || c == '\n' || c == '\r'
}

/// `s` without its leading whitespace.
pub open spec fn spec_drop_leading(s: Seq<char>) -> Seq<char>
    decreases s.len(),
{
    if s.len() > 0 && is_space(s[0]) {
        spec_drop_leading(s.subrange(1, s.len() as int))
    } else {
        s
    }
}

/// `s` without its trailing whitespace.
pub open spec fn spec_drop_trailing(s: Seq<char>) -> Seq<char>
    decreases s.len(),
{
    if s.len() > 0 && is_space(s.last()) {
        spec_drop_trailing(s.drop_last())
    } else {
        s
    }
}

/// `s` without surrounding whitespace.
pub open spec fn spec_trim(s: Seq<char>) -> Seq<char> {
    spec_drop_trailing(spec_drop_leading(s))
}

proof fn lemma_drop_leading_subrange(s: Seq<char>, a: int)
    requires
        0 <= a <= s.len(),
        forall|i: int| 0 <= i < a ==> is_space(s[i]),
        a < s.len() ==> !is_space(s[a]),
    ensures
        spec_drop_leading(s) =~= s.subrange(a, s.len() as int),
    decreases a,
{
    if a == 0 {
        if s.len() > 0 && is_space(s[0]) {
            assert(false);
        } else {
            assert(s.subrange(0, s.len() as int) =~= s);
        }
    } else {
        assert(is_space(s[0]));
        let t = s.subrange(1, s.len() as int);
        lemma_drop_leading_subrange(t, a - 1);
        assert(t.subrange(a - 1, t.len() as int) =~= s.subrange(a, s.len() as int));
    }
}

proof fn lemma_drop_trailing_subrange(s: Seq<char>, b: int)
    requires
        0 <= b <= s.len(),
        forall|i: int| b <= i < s.len() ==> is_space(s[i]),
        b > 0 ==> !is_space(s[b - 1]),
    ensures
        spec_drop_trailing(s) =~= s.subrange(0, b),
    decreases s.len(),
{
    if b == s.len() {
        if s.len() > 0 && is_space(s.last()) {
            assert(false);
        } else {
            assert(s.subrange(0, b) =~= s);
        }
    } else {
        assert(is_space(s.last()));
        lemma_drop_trailing_subrange(s.drop_last(), b);
        assert(s.drop_last().subrange(0, b) =~= s.subrange(0, b));
    }
}

/// Strip surrounding whitespace.
pub fn trim_str(s: &str) -> (r: String)
    ensures
        r@ == spec_trim(s@),
{
    let len = s.unicode_len();
    let mut first: usize = 0;
    while first < len && is_space_exec(s.get_char(first))
        invariant
            first <= len,
            len == s@.len(),
            forall|i: int| 0 <= i < first ==> is_space(s@[i]),
        decreases len - first,
    {
        first = first + 1;
    }
    if first == len {
        proof {
            lemma_drop_leading_subrange(s@, len as int);
            lemma_drop_trailing_subrange(s@.subrange(len as int, len as int), 0);
        }
        return String::new();
    }
    let mut last: usize = len - 1;
    while last > first && is_space_exec(s.get_char(last))
        invariant
            first <= last < len,
            len == s@.len(),
            forall|i: int| last < i < len ==> is_space(s@[i]),
        decreases last,
    {
        last = last - 1;
    }
    let r = s.substring_char(first, last + 1);
    proof {
        lemma_drop_leading_subrange(s@, first as int);
        let t = s@.subrange(first as int, len as int);
        lemma_drop_trailing_subrange(t, last + 1 - first as int);
        assert(t.subrange(0, last + 1 - first as int) =~= s@.subrange(
            first as int,
            last + 1 as int,
        ));
    }
    String::from_str(r)
}

/// The two string slices hold the same characters.
pub fn str_eq(a: &str, b: &str) -> (r: bool)
    ensures
        r == (a@ == b@),
{
    let al = a.unicode_len();
    let bl = b.unicode_len();
    if al != bl {
        return false;
    }
    let mut i: usize = 0;
    while i < al
        invariant
            i <= al,
            al == a@.len(),
            al == b@.len(),
            forall|j: int| 0 <= j < i ==> a@[j] == b@[j],
        decreases al - i,
    {
        if a.get_char(i) != b.get_char(i) {
            return false;
        }
        i = i + 1;
    }
    proof {
        assert(a@ =~= b@);
    }
    true
}

/// The code point of `c` with an ASCII capital letter folded to lower case.
pub open spec fn lower_code(c: char) -> int {
    if 65 <= c as int && c as int <= 90 {
        c as int + 32
    } else {
        c as int
    }
}

/// `c` with an ASCII capital letter folded to lower case.
pub fn to_lower_char(c: char) -> (r: char)
    ensures
        r as int == lower_code(c),
{
    if c >= 'A' && c <= 'Z' {
        proof {
            vstd::utf8::char_is_scalar(c);
        }
        ((c as u8) + 32) as char
    } else {
        c
    }
}

/// The two characters are equal up to ASCII case.
pub fn chars_eq_ignore_case(a: char, b: char) -> (r: bool)
    ensures
        r == (lower_code(a) == lower_code(b)),
{
    let la = to_lower_char(a);
    let lb = to_lower_char(b);
    la == lb
}

/// The needle occurs in the haystack at offset `at`, comparing characters
/// up to ASCII case.
pub open spec fn ci_match_at(hay: Seq<char>, needle: Seq<char>, at: int) -> bool {
    &&& 0 <= at
    &&& at + needle.len() <= hay.len()
    &&& forall|j: int| 0 <= j < needle.len() ==> lower_code(hay[at + j]) == lower_code(needle[j])
}

/// The needle occurs somewhere in the haystack, up to ASCII case.
pub open spec fn ci_contains(hay: Seq<char>, needle: Seq<char>) -> bool {
    exists|at: int| #[trigger] ci_match_at(hay, needle, at)
}

/// Case-insensitive (ASCII) substring search.
pub fn contains_ci(hay: &str, needle: &str) -> (r: bool)
    ensures
        r == ci_contains(hay@, needle@),
{
    let hl = hay.unicode_len();
    let nl = needle.unicode_len();
    if nl > hl {
        return false;
    }
    let mut at: usize = 0;
    while at <= hl - nl
        invariant
            hl == hay@.len(),
            nl == needle@.len(),
            nl <= hl,
            at <= hl - nl + 1,
            forall|k: int| 0 <= k < at ==> !ci_match_at(hay@, needle@, k),
        decreases hl - nl - at + 1,
    {
        let mut j: usize = 0;
        let mut hit = true;
        while j < nl
            invariant
                hl == hay@.len(),
                nl == needle@.len(),
                at + nl <= hl,
                j <= nl,
                hit ==> forall|j2: int| 0 <= j2 < j
                    ==> lower_code(hay@[at + j2]) == lower_code(needle@[j2]),
                !hit ==> !ci_match_at(hay@, needle@, at as int),
            decreases nl - j,
        {
            if !chars_eq_ignore_case(hay.get_char(at + j), needle.get_char(j)) {
                proof {
                    assert(!(lower_code(hay@[at as int + j as int])
                        == lower_code(needle@[j as int])));
                }
                hit = false;
                j = nl;
            } else {
                j = j + 1;
            }
        }
        if hit {
            proof {
                assert(ci_match_at(hay@, needle@, at as int));
            }
            return true;
        }
        at = at + 1;
    }
    false
}

/// The needle occurs in the haystack at offset `at`, character for
/// character.
pub open spec fn match_at(hay: Seq<char>, needle: Seq<char>, at: int) -> bool {
    &&& 0 <= at
    &&& at + needle.len() <= hay.len()
    &&& forall|j: int| 0 <= j < needle.len() ==> hay[at + j] == needle[j]
}

/// The needle occurs somewhere in the haystack.
pub open spec fn str_contains(hay: Seq<char>, needle: Seq<char>) -> bool {
    exists|at: int| #[trigger] match_at(hay, needle, at)
}

/// Exact substring search.
pub fn contains_sub(hay: &str, needle: &str) -> (r: bool)
    ensures
        r == str_contains(hay@, needle@),
{
    let hl = hay.unicode_len();
    let nl = needle.unicode_len();
    if nl > hl {
        return false;
    }
    let mut at: usize = 0;
    while at <= hl - nl
        invariant
            hl == hay@.len(),
            nl == needle@.len(),
            nl <= hl,
            at <= hl - nl + 1,
            forall|k: int| 0 <= k < at ==> !match_at(hay@, needle@, k),
        decreases hl - nl - at + 1,
    {
        let mut j: usize = 0;
        let mut hit = true;
        while j < nl
            invariant
                hl == hay@.len(),
                nl == needle@.len(),
                at + nl <= hl,
                j <= nl,
                hit ==> forall|j2: int| 0 <= j2 < j ==> hay@[at + j2] == needle@[j2],
                !hit ==> !match_at(hay@, needle@, at as int),
            decreases nl - j,
        {
            if hay.get_char(at + j) != needle.get_char(j) {
                hit = false;
                j = nl;
            } else {
                j = j + 1;
            }
        }
        if hit {
            proof {
                assert(match_at(hay@, needle@, at as int));
            }
            return true;
        }
        at = at + 1;
    }
    false
}

/// The decimal digit character for `d`.
pub open spec fn spec_digit(d: int) -> char {
    if d == 0 {
        '0'
    } else if d == 1 {
        '1'
    } else if d == 2 {
        '2'
    } else if d == 3 {
        '3'
    } else if d == 4 {
        '4'
    } else if d == 5 {
        '5'
    } else if d == 6 {
        '6'
    } else if d == 7 {
        '7'
    } else if d == 8 {
        '8'
    } else {
        '9'
    }
}

/// The usual decimal rendering of a natural number, without leading zeros.
pub open spec fn spec_u64_dec(n: nat) -> Seq<char>
    decreases n,
{
    if n < 10 {
        seq![spec_digit(n as int)]
    } else {
        spec_u64_dec(n / 10).push(spec_digit((n % 10) as int))
    }
}

/// The decimal rendering of an integer: a minus sign before the digits of
/// its magnitude when negative.
pub open spec fn spec_int_dec(n: int) -> Seq<char> {
    if n < 0 {
        seq!['-'] + spec_u64_dec((-n) as nat)
    } else {
        spec_u64_dec(n as nat)
    }
}

fn digit_str(d: u64) -> (r: &'static str)
    requires
        d < 10,
    ensures
        r@ =~= seq![spec_digit(d as int)],
{
    proof {
        reveal_strlit("0");
        reveal_strlit("1");
        reveal_strlit("2");
        reveal_strlit("3");
        reveal_strlit("4");
        reveal_strlit("5");
        reveal_strlit("6");
        reveal_strlit("7");
        reveal_strlit("8");
        reveal_strlit("9");
    }
    if d == 0 {
        "0"
    } else if d == 1 {
        "1"
    } else if d == 2 {
        "2"
    } else if d == 3 {
        "3"
    } else if d == 4 {
        "4"
    } else if d == 5 {
        "5"
    } else if d == 6 {
        "6"
    } else if d == 7 {
        "7"
    } else if d == 8 {
        "8"
    } else {
        "9"
    }
}

/// Render `n` in decimal.
pub fn u64_to_string(n: u64) -> (r: String)
    ensures
        r@ == spec_u64_dec(n as nat),
    decreases n,
{
    if n < 10 {
        String::from_str(digit_str(n))
    } else {
        let rest = u64_to_string(n / 10);
        let r = rest.concat(digit_str(n % 10));
        proof {
            assert(spec_u64_dec(n as nat) =~= spec_u64_dec((n / 10) as nat).push(
                spec_digit((n % 10) as int),
            ));
            assert(spec_u64_dec((n / 10) as nat).push(spec_digit((n % 10) as int)) =~= spec_u64_dec(
                (n / 10) as nat,
            ) + seq![spec_digit((n % 10) as int)]);
        }
        r
    }
}

/// Render `n` in decimal, minus sign included.
pub fn i32_to_string(n: i32) -> (r: String)
    requires
        n > i32::MIN,
    ensures
        r@ == spec_int_dec(n as int),
{
    if n < 0 {
        let mag: u64 = (-n) as u64;
        let digits = u64_to_string(mag);
        let sign = String::from_str("-");
        proof {
            reveal_strlit("-");
            assert(sign@ =~= seq!['-']);
        }
        let r = sign.concat(digits.as_str());
        proof {
            assert(r@ =~= spec_int_dec(n as int));
        }
        r
    } else {
        u64_to_string(n as u64)
    }
}

/// The sequence, space-padded on the left to at least three characters.
pub open spec fn spec_pad3(s: Seq<char>) -> Seq<char> {
    if s.len() >= 3 {
        s
    } else if s.len() == 2 {
        seq![' '] + s
    } else {
        seq![' ', ' '] + s
    }
}

/// Left-pad with spaces to a width of three characters.
pub fn pad3(s: String) -> (r: String)
    ensures
        r@ == spec_pad3(s@),
{
    let len = s.as_str().unicode_len();
    proof {
        reveal_strlit(" ");
        reveal_strlit("  ");
    }
    if len >= 3 {
        s
    } else if len == 2 {
        let r = String::from_str(" ").concat(s.as_str());
        proof {
            assert(r@ =~= spec_pad3(s@));
        }
        r
    } else {
        let r = String::from_str("  ").concat(s.as_str());
        proof {
            assert(r@ =~= spec_pad3(s@));
        }
        r
    }
}

/// Relies on std's `String::push`: appends the given character to the end
/// of the string.
#[verifier::external_body]
pub(crate) fn push_char(s: &mut String, c: char)
    ensures
        final(s)@ == old(s)@.push(c),
{
    s.push(c);
}

/// Relies on std's `String::pop`: removes the last character and returns
/// it, or returns `None` and leaves the string alone when it is empty.
#[verifier::external_body]
pub(crate) fn pop_char(s: &mut String) -> (r: Option<char>)
    ensures
        old(s)@.len() == 0 ==> final(s)@ == old(s)@ && r is None,
        old(s)@.len() > 0 ==> final(s)@ == old(s)@.drop_last() && r == Option::Some(
            old(s)@.last(),
        ),
{
    s.pop()
}

/// The views of the first `n` strings joined with commas.
pub open spec fn spec_join_prefix(items: Seq<Seq<char>>, n: int) -> Seq<char>
    decreases n,
{
    if n <= 0 {
        Seq::empty()
    } else if n == 1 {
        items[0]
    } else {
        spec_join_prefix(items, n - 1) + ","@ + items[n - 1]
    }
}

/// All the strings joined with commas.
pub open spec fn spec_join_comma(items: Seq<Seq<char>>) -> Seq<char> {
    spec_join_prefix(items, items.len() as int)
}

/// Join the strings with commas, in order, with no trailing separator.
pub fn join_comma(items: &Vec<String>) -> (r: String)
    ensures
        r@ == spec_join_comma(items@.map_values(|s: String| s@)),
{
    let ghost views = items@.map_values(|s: String| s@);
    let mut acc = String::new();
    let mut i: usize = 0;
    while i < items.len()
        invariant
            i <= items@.len(),
            views == items@.map_values(|s: String| s@),
            views.len() == items@.len(),
            acc@ == spec_join_prefix(views, i as int),
        decreases items@.len() - i,
    {
        if i > 0 {
            acc.append(",");
        }
        acc.append(items[i].as_str());
        proof {
            assert(views[i as int] == items@[i as int]@);
            assert(acc@ =~= spec_join_prefix(views, i as int + 1));
        }
        i = i + 1;
    }
    acc
}

} // verus!
