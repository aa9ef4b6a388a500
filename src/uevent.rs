//! Reading the fields of a kernel uevent message that the engines act on.
use vstd::prelude::*;
use crate::text::{chars_of, contains, contains_chars, has_prefix, prefix_in, window_is};

verus! {

/// The value of `POWER_SUPPLY_STATUS` in a uevent.
#[derive(Clone, Copy, Debug, PartialEq, Eq, Structural)]
pub enum ChargeStatus {
    Charging,
    Discharging,
    Full,
    NotCharging,
    Unknown,
}

/// What the engines read from one uevent message.
#[derive(Clone, Copy, Debug, PartialEq, Eq, Structural)]
pub struct Uevent {
    /// The message mentions `POWER_SUPPLY` anywhere.
    pub is_power_supply_event: bool,
    /// The message mentions one of the PD authentication nodes (`pd_verifed`,
    /// `usbpd_verifed`; the kernel spells them so).
    pub pd_auth_related: bool,
    /// The charging status, when the message carries a known one.
    pub status: Option<ChargeStatus>,
}

/// Fields are separated by NUL characters or line breaks.
pub open spec fn is_field_sep(c: char) -> bool {
    c == '\0' || c == '\n'
}

/// The number of characters before the first separator of `s` (all of them if none).
pub open spec fn field_len(s: Seq<char>) -> nat
    decreases s.len(),
{
    if s.len() == 0 {
        0
    } else if is_field_sep(s[0]) {
        0
    } else {
        1 + field_len(s.skip(1))
    }
}

pub open spec fn status_key() -> Seq<char> {
    "POWER_SUPPLY_STATUS="@
}

/// The value of the first field that begins with `POWER_SUPPLY_STATUS=`, if any: the
/// rest of the field after that key.
pub open spec fn status_field(s: Seq<char>) -> Option<Seq<char>>
    decreases s.len(),
{
    let n = field_len(s);
    let f = s.take(n as int);
    if has_prefix(f, status_key()) {
        Some(f.skip(status_key().len() as int))
    } else if n < s.len() {
        status_field(s.skip(n + 1 as int))
    } else {
        None
    }
}

/// The status that a value names, if it is one of the known ones.
pub open spec fn status_named(v: Seq<char>) -> Option<ChargeStatus> {
    if v == "Charging"@ {
        Some(ChargeStatus::Charging)
    } else if v == "Discharging"@ {
        Some(ChargeStatus::Discharging)
    } else if v == "Full"@ {
        Some(ChargeStatus::Full)
    } else if v == "Not charging"@ {
        Some(ChargeStatus::NotCharging)
    } else if v == "Unknown"@ {
        Some(ChargeStatus::Unknown)
    } else {
        None
    }
}

/// What a uevent message says, read off its text.
pub open spec fn uevent_of(s: Seq<char>) -> Uevent {
    Uevent {
        is_power_supply_event: contains(s, "POWER_SUPPLY"@),
        pd_auth_related: contains(s, "pd_verifed"@) || contains(s, "usbpd_verifed"@),
        status: match status_field(s) {
            Some(v) => status_named(v),
            None => None,
        },
    }
}

/// A separator at `n` with none before it is the first one.
proof fn lemma_field_len_at(s: Seq<char>, n: int)
    requires
        0 <= n <= s.len(),
        forall|j: int| 0 <= j < n ==> !is_field_sep(#[trigger] s[j]),
        n < s.len() ==> is_field_sep(s[n]),
    ensures
        field_len(s) == n,
    decreases n,
{
    if n > 0 {
        let t = s.skip(1);
        assert forall|j: int| 0 <= j < n - 1 implies !is_field_sep(#[trigger] t[j]) by {
            assert(t[j] == s[j + 1]);
        }
        lemma_field_len_at(t, n - 1);
    }
}

/// The status that the text `s[start..end]` names.
fn status_in(s: &Vec<char>, start: usize, end: usize) -> (r: Option<ChargeStatus>)
    requires
        start <= end <= s.len(),
    ensures
        r == status_named(s@.subrange(start as int, end as int)),
{
    if window_is(s, start, end, &chars_of("Charging")) {
        Some(ChargeStatus::Charging)
    } else if window_is(s, start, end, &chars_of("Discharging")) {
        Some(ChargeStatus::Discharging)
    } else if window_is(s, start, end, &chars_of("Full")) {
        Some(ChargeStatus::Full)
    } else if window_is(s, start, end, &chars_of("Not charging")) {
        Some(ChargeStatus::NotCharging)
    } else if window_is(s, start, end, &chars_of("Unknown")) {
        Some(ChargeStatus::Unknown)
    } else {
        None
    }
}

/// The charging status that the first `POWER_SUPPLY_STATUS=` field of `s` names.
fn find_status(s: &Vec<char>) -> (r: Option<ChargeStatus>)
    ensures
        r == match status_field(s@) {
            Some(v) => status_named(v),
            None => None,
        },
{
    let key = chars_of("POWER_SUPPLY_STATUS=");
    let mut start: usize = 0;
    assert(s@.skip(0) =~= s@);
    loop
        invariant
            start <= s.len(),
            key@ == status_key(),
            status_field(s@.skip(start as int)) == status_field(s@),
        decreases s.len() - start,
    {
        let mut end = start;
        while end < s.len() && s[end] != '\0' && s[end] != '\n'
            invariant
                start <= end <= s.len(),
                forall|j: int| start <= j < end ==> !is_field_sep(#[trigger] s@[j]),
            decreases s.len() - end,
        {
            end += 1;
        }
        let ghost t = s@.skip(start as int);
        proof {
            assert forall|j: int| 0 <= j < end - start implies !is_field_sep(#[trigger] t[j]) by {
                assert(t[j] == s@[start + j]);
            }
            lemma_field_len_at(t, end - start);
            assert(t.take(end - start) =~= s@.subrange(start as int, end as int));
        }
        if prefix_in(s, start, end, &key) {
            let v = start + key.len();
            assert(s@.subrange(start as int, end as int).skip(key@.len() as int)
                =~= s@.subrange(v as int, end as int));
            return status_in(s, v, end);
        }
        if end < s.len() {
            assert(t.skip(end - start + 1) =~= s@.skip(end + 1));
            start = end + 1;
        } else {
            return None;
        }
    }
}

/// Reads a uevent message: whether it is a power-supply event, whether it concerns a PD
/// authentication node, and the charging status its first `POWER_SUPPLY_STATUS=` field
/// names. Each message stands alone.
pub fn parse_uevent(data: &str) -> (r: Uevent)
    ensures
        r == uevent_of(data@),
{
    let cs = chars_of(data);
    let is_power_supply_event = contains_chars(&cs, &chars_of("POWER_SUPPLY"));
    let pd_auth_related = contains_chars(&cs, &chars_of("pd_verifed"))
        || contains_chars(&cs, &chars_of("usbpd_verifed"));
    let status = find_status(&cs);
    Uevent { is_power_supply_event, pd_auth_related, status }
}

} // verus!
