//! The key bindings of the dashboard: one character per action, with the
//! built-in defaults and the rule for applying a configured override.

use vstd::prelude::*;
use crate::text::{is_space, lower_code, to_lower_char};
use vstd::string::StrSliceExecFns;

verus! {

/// One character per dashboard action. Matching against a pressed key is
/// always done up to ASCII case.
#[derive(Clone, Copy, Debug, PartialEq, Eq, Structural)]
pub struct Keybinds {
    pub quit: char,
    pub refresh: char,
    pub up: char,
    pub down: char,
    pub prev_tab: char,
    pub next_tab: char,
    pub wifi_scan: char,
    pub wifi_show_all: char,
    pub wifi_forget: char,
    pub wifi_autoconnect: char,
    pub wifi_hidden: char,
    pub wifi_details: char,
    pub ethernet_renew: char,
}

impl Default for Keybinds {
    /// The built-in bindings.
    fn default() -> (r: Keybinds)
        ensures
            r == (Keybinds {
                quit: 'q',
                refresh: 'r',
                up: 'k',
                down: 'j',
                prev_tab: 'h',
                next_tab: 'l',
                wifi_scan: 's',
                wifi_show_all: 'a',
                wifi_forget: 'd',
                wifi_autoconnect: 't',
                wifi_hidden: 'n',
                wifi_details: 'i',
                ethernet_renew: 'n',
            }),
    {
        Keybinds {
            quit: 'q',
            refresh: 'r',
            up: 'k',
            down: 'j',
            prev_tab: 'h',
            next_tab: 'l',
            wifi_scan: 's',
            wifi_show_all: 'a',
            wifi_forget: 'd',
            wifi_autoconnect: 't',
            wifi_hidden: 'n',
            wifi_details: 'i',
            ethernet_renew: 'n',
        }
    }
}

/// `s` holds exactly one character that is not whitespace, and it stands at
/// offset `a`.
pub open spec fn single_non_space(s: Seq<char>, a: int) -> bool {
    &&& 0 <= a < s.len()
    &&& !is_space(s[a])
    &&& forall|j: int| 0 <= j < s.len() && j != a ==> is_space(s[j])
}

fn is_space_exec(c: char) -> (r: bool)
    ensures
        r == is_space(c),
{
    c == ' ' || c == '\t' || c == '\n' || c == '\r'
}

/// Apply one configured binding: when the value, stripped of surrounding
/// whitespace, is exactly one character, the binding becomes that character
/// folded to lower case; any other value (absent, blank, or longer than one
/// character) leaves the binding alone.
pub fn apply_override(target: &mut char, value: Option<String>)
    ensures
        match value {
            Option::None => *final(target) == *old(target),
            Option::Some(v) => {
                &&& (forall|a: int| single_non_space(v@, a) ==> *final(target) as int
                    == lower_code(v@[a]))
                &&& ((forall|a: int| !single_non_space(v@, a)) ==> *final(target) == *old(
                    target,
                ))
            },
        },
{
    let v = match value {
        Option::Some(v) => v,
        Option::None => {
            return ;
        },
    };
    let s = v.as_str();
    let len = s.unicode_len();
    let mut first: usize = 0;
    while first < len && is_space_exec(s.get_char(first))
        invariant
            first <= len,
            len == s@.len(),
            forall|j: int| 0 <= j < first ==> is_space(s@[j]),
        decreases len - first,
    {
        first = first + 1;
    }
    if first == len {
        // Entirely whitespace (or empty): nothing to apply.
        proof {
            assert(forall|a: int| !single_non_space(v@, a));
        }
        return ;
    }
    let mut last: usize = len - 1;
    while last > first && is_space_exec(s.get_char(last))
        invariant
            first <= last < len,
            len == s@.len(),
            forall|j: int| last < j < len ==> is_space(s@[j]),
        decreases last,
    {
        last = last - 1;
    }
    if first == last {
        let c = s.get_char(first);
        proof {
            assert(single_non_space(v@, first as int));
        }
        *target = to_lower_char(c);
        proof {
            assert(forall|a: int| single_non_space(v@, a) ==> a == first as int);
        }
    } else {
        // At least two characters survive the trim: ignore the value.
        proof {
            assert(!is_space(s@[first as int]) && !is_space(s@[last as int]));
            assert(forall|a: int| single_non_space(v@, a) ==> false) by {
                assert forall|a: int| single_non_space(v@, a) implies false by {
                    if a != first as int {
                        assert(is_space(v@[first as int]));
                    } else {
                        assert(is_space(v@[last as int]));
                    }
                }
            }
        }
    }
}

} // verus!
