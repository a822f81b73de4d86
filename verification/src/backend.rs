//! The capability interfaces the dashboard consumes, and the pure rules
//! applied to what the backends hand back: signal formatting, sysfs
//! attribute parsing, and the retry rule for privileged link commands.

use vstd::prelude::*;
use vstd::string::StrSliceExecFns;
use crate::ethernet::EthernetIface;
use crate::text::{
    spec_int_dec, spec_pad3, str_contains, contains_sub, i32_to_string, pad3,
};
use crate::wifi::WifiState;

verus! {

/// A source of wireless snapshots.
pub trait WifiBackend {
    fn query_state(&self) -> Result<WifiState, String>;
}

/// A source of wired snapshots.
pub trait EthernetBackend {
    fn list_ifaces(&self) -> Result<Vec<EthernetIface>, String>;
}

/// The boolean a sysfs attribute holds: `"0"` is false, `"1"` is true,
/// anything else is no boolean.
pub open spec fn spec_read_bool(s: Seq<char>) -> Option<bool> {
    if s =~= "0"@ {
        Option::Some(false)
    } else if s =~= "1"@ {
        Option::Some(true)
    } else {
        Option::None
    }
}

/// Interpret a trimmed sysfs attribute as a boolean.
pub fn read_bool(s: &str) -> (r: Option<bool>)
    ensures
        r == spec_read_bool(s@),
{
    proof {
        reveal_strlit("0");
        reveal_strlit("1");
    }
    if s.unicode_len() != 1 {
        return Option::None;
    }
    let c = s.get_char(0);
    if c == '0' {
        proof {
            assert(s@ =~= "0"@);
        }
        Option::Some(false)
    } else if c == '1' {
        proof {
            assert(s@ =~= "1"@);
        }
        Option::Some(true)
    } else {
        proof {
            assert(!(s@ =~= "0"@) && !(s@ =~= "1"@));
        }
        Option::None
    }
}

/// `c` is an ASCII decimal digit.
pub open spec fn is_digit(c: char) -> bool {
    48 <= c as int <= 57
}

/// The value of a digit character.
pub open spec fn digit_val(c: char) -> int {
    c as int - 48
}

/// The value of a digit string read as a decimal number.
pub open spec fn digits_val(s: Seq<char>) -> int
    decreases s.len(),
{
    if s.len() == 0 {
        0
    } else {
        digits_val(s.drop_last()) * 10 + digit_val(s.last())
    }
}

/// Every character of `s` is a decimal digit.
pub open spec fn all_digits(s: Seq<char>) -> bool {
    forall|i: int| 0 <= i < s.len() ==> is_digit(s[i])
}

/// The digits of a number, after an optional leading plus sign.
pub open spec fn spec_u32_body(s: Seq<char>) -> Seq<char> {
    if s.len() > 0 && s[0] == '+' {
        s.subrange(1, s.len() as int)
    } else {
        s
    }
}

/// `s` parses as a `u32`: an optional plus sign, then at least one digit,
/// and a value that fits.
pub open spec fn spec_u32_valid(s: Seq<char>) -> bool {
    let body = spec_u32_body(s);
    body.len() > 0 && all_digits(body) && digits_val(body) <= u32::MAX
}

proof fn lemma_digits_val_nonneg(s: Seq<char>)
    requires
        all_digits(s),
    ensures
        digits_val(s) >= 0,
    decreases s.len(),
{
    if s.len() > 0 {
        assert(all_digits(s.drop_last()));
        lemma_digits_val_nonneg(s.drop_last());
    }
}

proof fn lemma_digits_val_prefix(s: Seq<char>, n: int)
    requires
        all_digits(s),
        0 <= n <= s.len(),
    ensures
        digits_val(s) >= digits_val(s.subrange(0, n)),
    decreases s.len() - n,
{
    if n < s.len() {
        lemma_digits_val_prefix(s, n + 1);
        let p = s.subrange(0, n);
        let q = s.subrange(0, n + 1);
        assert(q.drop_last() =~= p);
        assert(all_digits(p));
        lemma_digits_val_nonneg(p);
        assert(digits_val(q) == digits_val(p) * 10 + digit_val(q.last()));
    } else {
        assert(s.subrange(0, n) =~= s);
    }
}

/// Interpret a trimmed sysfs attribute as a decimal `u32`: an optional
/// leading plus sign, then digits; anything else, or a value that does not
/// fit, is no number.
pub fn read_u32(s: &str) -> (r: Option<u32>)
    ensures
        match r {
            Option::Some(v) => spec_u32_valid(s@) && v == digits_val(spec_u32_body(s@)),
            Option::None => !spec_u32_valid(s@),
        },
{
    let len = s.unicode_len();
    let mut start: usize = 0;
    if len > 0 && s.get_char(0) == '+' {
        start = 1;
    }
    let ghost body = spec_u32_body(s@);
    proof {
        assert(body =~= s@.subrange(start as int, len as int));
    }
    if start == len {
        return Option::None;
    }
    let mut acc: u64 = 0;
    let mut i: usize = start;
    while i < len
        invariant
            start <= i <= len,
            len == s@.len(),
            start < len,
            body == spec_u32_body(s@),
            body =~= s@.subrange(start as int, len as int),
            all_digits(body.subrange(0, i - start)),
            acc == digits_val(body.subrange(0, i - start)),
            acc <= u32::MAX,
        decreases len - i,
    {
        let c = s.get_char(i);
        if !(c >= '0' && c <= '9') {
            proof {
                assert(body[i - start] == s@[i as int]);
                assert(!is_digit(body[i - start]));
                assert(!all_digits(body));
            }
            return Option::None;
        }
        let d: u64 = (c as u32 as u64) - 48;
        let next: u64 = acc * 10 + d;
        proof {
            let p = body.subrange(0, i - start);
            let q = body.subrange(0, i + 1 - start);
            assert(q.drop_last() =~= p);
            assert(q.last() == body[i - start]);
            assert(body[i - start] == s@[i as int]);
            assert(is_digit(q.last()));
            assert(all_digits(q));
            assert(digits_val(q) == digits_val(p) * 10 + digit_val(q.last()));
            assert(digits_val(q) == next);
        }
        if next > 0xffff_ffff {
            proof {
                let q = body.subrange(0, i + 1 - start);
                if spec_u32_valid(s@) {
                    assert(all_digits(body));
                    lemma_digits_val_prefix(body, i + 1 - start);
                    assert(digits_val(body) >= digits_val(q));
                    assert(false);
                }
            }
            return Option::None;
        }
        acc = next;
        i = i + 1;
    }
    proof {
        assert(body.subrange(0, len - start) =~= body);
    }
    Option::Some(acc as u32)
}

/// A plain `networkctl` run is worth retrying under `sudo`: the command was
/// refused for lack of privilege, or exited with status one.
pub fn should_retry_with_sudo(stderr: &str, status: Option<i32>) -> (r: bool)
    ensures
        r == (str_contains(stderr@, "Operation not permitted"@) || str_contains(
            stderr@,
            "Permission denied"@,
        ) || status == Option::Some(1i32)),
{
    contains_sub(stderr, "Operation not permitted") || contains_sub(stderr, "Permission denied")
        || status == Option::Some(1i32)
}

/// The percentage the approximation assigns to a raw signal reading: the
/// reading is in hundredths of dBm, anything at or above -50 dBm counts as
/// full strength, and below that the percentage falls off linearly (and may
/// fall below zero; the truncating division is kept as observed).
pub open spec fn spec_signal_pct(dbm: int) -> int {
    let q = if dbm >= 0 {
        dbm / 100
    } else {
        -((-dbm) / 100)
    };
    if q >= -50 {
        100
    } else {
        2 * (100 + q)
    }
}

/// The glyph shown beside a signal percentage.
pub open spec fn spec_signal_glyph(pct: int) -> Seq<char> {
    if pct >= 75 {
        "󰤨"@
    } else if 50 <= pct < 75 {
        "󰤥"@
    } else if 25 <= pct < 50 {
        "󰤢"@
    } else {
        "󰤟"@
    }
}

/// The rendered signal label: the percentage padded to three characters,
/// a percent sign, and the strength glyph.
pub open spec fn spec_percent_signal(dbm: int) -> Seq<char> {
    spec_pad3(spec_int_dec(spec_signal_pct(dbm))) + "% "@ + spec_signal_glyph(spec_signal_pct(dbm))
}

/// Render a raw station signal reading as the percentage label shown in the
/// network lists.
pub fn percent_signal(signal_dbm: i16) -> (r: String)
    ensures
        r@ == spec_percent_signal(signal_dbm as int),
{
    let d: i32 = signal_dbm as i32;
    let mag: u32 = if d >= 0 {
        d as u32
    } else {
        (-d) as u32
    };
    let qm: u32 = mag / 100;
    let q: i32 = if d >= 0 {
        qm as i32
    } else {
        -(qm as i32)
    };
    let pct: i32 = if q >= -50 {
        100
    } else {
        2 * (100 + q)
    };
    proof {
        assert(pct as int == spec_signal_pct(signal_dbm as int));
    }
    let num = pad3(i32_to_string(pct));
    let glyph: &'static str = if pct >= 75 {
        "󰤨"
    } else if pct >= 50 {
        "󰤥"
    } else if pct >= 25 {
        "󰤢"
    } else {
        "󰤟"
    };
    let r = num.concat("% ").concat(glyph);
    proof {
        assert(r@ =~= spec_percent_signal(signal_dbm as int));
    }
    r
}

} // verus!
