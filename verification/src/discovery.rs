//! The name under which the receiver announces itself on the local network.
//!
//! The beacon broadcasts the chosen name and the listening port while no
//! phone is connected. The name is the user's custom host name, unless the
//! user asked for the system name or left the custom one blank.

use vstd::prelude::*;

verus! {

/// The UDP port that phones listen on for beacons.
pub const BROADCAST_TARGET_PORT: u16 = 8888;

/// The name announced when the system has no usable host name.
pub const UNKNOWN_HOST_NAME: &'static str = "Unknown-PC";

/// Whether `c` has the Unicode `White_Space` property (the characters for
/// which `char::is_whitespace` holds).
pub open spec fn spec_is_whitespace(c: char) -> bool {
    let u = c as u32;
    ||| 0x09 <= u <= 0x0d
    ||| u == 0x20
    ||| u == 0x85
    ||| u == 0xa0
    ||| u == 0x1680
    ||| 0x2000 <= u <= 0x200a
    ||| u == 0x2028
    ||| u == 0x2029
    ||| u == 0x202f
    ||| u == 0x205f
    ||| u == 0x3000
}

/// Whether `c` is white space.
pub fn is_whitespace(c: char) -> (r: bool)
    ensures
        r == spec_is_whitespace(c),
{
    let u = c as u32;
    (0x09 <= u && u <= 0x0d) || u == 0x20 || u == 0x85 || u == 0xa0 || u == 0x1680 || (0x2000
        <= u && u <= 0x200a) || u == 0x2028 || u == 0x2029 || u == 0x202f || u == 0x205f || u
        == 0x3000
}

/// Whether every character of `s` is white space.
pub open spec fn all_whitespace(s: Seq<char>) -> bool {
    forall|k: int| 0 <= k < s.len() ==> #[trigger] spec_is_whitespace(s[k])
}

/// `s` without leading and trailing white space: the unique slice
/// `s[start..end]` whose outside characters are all white space and whose
/// first and last characters (if any) are not.
pub open spec fn is_trim_of(s: Seq<char>, start: int, end: int) -> bool {
    &&& 0 <= start <= end <= s.len()
    &&& all_whitespace(s.subrange(0, start))
    &&& all_whitespace(s.subrange(end, s.len() as int))
    &&& start < end ==> !spec_is_whitespace(s[start]) && !spec_is_whitespace(s[end - 1])
    &&& start == end ==> all_whitespace(s)
}

/// The trimmed text of `s`.
pub open spec fn spec_trim(s: Seq<char>) -> Seq<char> {
    let (start, end) = choose|start: int, end: int| is_trim_of(s, start, end);
    s.subrange(start, end)
}

/// The trimmed slice is unique, so it is the one `spec_trim` names.
proof fn lemma_trim_unique(s: Seq<char>, start: int, end: int)
    requires
        is_trim_of(s, start, end),
    ensures
        spec_trim(s) == s.subrange(start, end),
{
    let (a, b) = choose|a: int, b: int| is_trim_of(s, a, b);
    assert(is_trim_of(s, a, b));
    if start < end {
        if a < b {
            if a < start {
                assert(s.subrange(0, start)[a] == s[a]);
            }
            if start < a {
                assert(s.subrange(0, a)[start] == s[start]);
            }
            if b < end {
                assert(s.subrange(b, s.len() as int)[end - 1 - b] == s[end - 1]);
            }
            if end < b {
                assert(s.subrange(end, s.len() as int)[b - 1 - end] == s[b - 1]);
            }
        } else {
            assert(s[start] == s[start]);
            assert(spec_is_whitespace(s[start]));
        }
    } else {
        if a < b {
            assert(spec_is_whitespace(s[a]));
        }
    }
    assert(s.subrange(a, b) =~= s.subrange(start, end));
}

/// Removes leading and trailing white space, as `str::trim` does.
pub fn trim(s: &str) -> (r: &str)
    ensures
        r@ == spec_trim(s@),
{
    let n = s.unicode_len();
    let mut start: usize = 0;
    while start < n && is_whitespace(s.get_char(start))
        invariant
            n == s@.len(),
            start <= n,
            forall|k: int| 0 <= k < start ==> #[trigger] spec_is_whitespace(s@[k]),
        decreases n - start,
    {
        start = start + 1;
    }
    let mut end: usize = n;
    while end > start && is_whitespace(s.get_char(end - 1))
        invariant
            n == s@.len(),
            start <= end <= n,
            forall|k: int| end <= k < n ==> #[trigger] spec_is_whitespace(s@[k]),
        decreases end,
    {
        end = end - 1;
    }
    proof {
        assert forall|k: int| 0 <= k < start implies #[trigger] spec_is_whitespace(
            s@.subrange(0, start as int)[k],
        ) by {
            assert(s@.subrange(0, start as int)[k] == s@[k]);
        }
        assert forall|k: int| 0 <= k < n - end implies #[trigger] spec_is_whitespace(
            s@.subrange(end as int, n as int)[k],
        ) by {
            assert(s@.subrange(end as int, n as int)[k] == s@[end + k]);
        }
        if start == end {
            assert forall|k: int| 0 <= k < s@.len() implies #[trigger] spec_is_whitespace(s@[k]) by {
                if k >= end {
                    assert(spec_is_whitespace(s@[k]));
                }
            }
        }
        lemma_trim_unique(s@, start as int, end as int);
    }
    s.substring_char(start, end)
}

/// The name announced by the beacon: the system name when the user chose it
/// or left the custom name blank, otherwise the trimmed custom name.
pub open spec fn spec_beacon_name(
    use_default_hostname: bool,
    custom: Seq<char>,
    system_name: Seq<char>,
) -> Seq<char> {
    if use_default_hostname || spec_trim(custom).len() == 0 {
        system_name
    } else {
        spec_trim(custom)
    }
}

/// Chooses the name that the beacon announces.
pub fn beacon_name(use_default_hostname: bool, custom: &str, system_name: &str) -> (r: String)
    ensures
        r@ == spec_beacon_name(use_default_hostname, custom@, system_name@),
{
    let trimmed = trim(custom);
    if use_default_hostname || trimmed.unicode_len() == 0 {
        String::from_str(system_name)
    } else {
        String::from_str(trimmed)
    }
}

/// The system's host name as announced: trimmed, or [`UNKNOWN_HOST_NAME`]
/// when it could not be read or is blank.
pub fn system_name_or_unknown(raw: Option<String>) -> (r: String)
    ensures
        r@ == match raw {
            Some(h) if spec_trim(h@).len() > 0 => spec_trim(h@),
            _ => UNKNOWN_HOST_NAME@,
        },
{
    match raw {
        Some(h) => {
            let t = trim(h.as_str());
            if t.unicode_len() > 0 {
                String::from_str(t)
            } else {
                String::from_str(UNKNOWN_HOST_NAME)
            }
        },
        None => String::from_str(UNKNOWN_HOST_NAME),
    }
}

/// Whether the beacon must encode a new payload: the name changed, or no
/// payload could be encoded yet.
pub fn needs_new_payload(desired_name: &String, cached_name: &String, payload_len: usize) -> (r:
    bool)
    ensures
        r == (desired_name@ != cached_name@ || payload_len == 0),
{
    !desired_name.eq(cached_name) || payload_len == 0
}

} // verus!
