//! The rate-limit snapshot that a usage-limit rejection carries, read from the
//! response headers: which limit was hit, its display name, the credit state of
//! the account and the kind of limit that was reached.

use vstd::prelude::*;
use crate::headers::{HeaderList, hdr, header_lookup, header_text, all_visible_ascii, ascii_text, bytes_text, lemma_lookup_skip};
use crate::text::{ov, str_eq};

verus! {

/// The limit that a snapshot describes when the response names none.
pub const DEFAULT_LIMIT_ID: &'static str = "kodex";
pub const RATE_LIMIT_REACHED_TYPE_HEADER: &'static str = "x-kodex-rate-limit-reached-type";
pub const CREDITS_HAS_CREDITS_HEADER: &'static str = "x-kodex-credits-has-credits";
pub const CREDITS_UNLIMITED_HEADER: &'static str = "x-kodex-credits-unlimited";
pub const CREDITS_BALANCE_HEADER: &'static str = "x-kodex-credits-balance";

/// The kind of limit that the service reports as reached.
#[derive(Clone, Copy, Debug, PartialEq, Eq, Structural)]
pub enum RateLimitReachedType {
    WorkspaceMemberUsageLimitReached,
}

/// The account's credit state.
pub struct CreditsSnapshot {
    pub has_credits: bool,
    pub unlimited: bool,
    pub balance: Option<String>,
}

/// What the headers say about the limit that was hit.
pub struct RateLimitSnapshot {
    pub limit_id: Option<String>,
    pub limit_name: Option<String>,
    pub credits: Option<CreditsSnapshot>,
    pub rate_limit_reached_type: Option<RateLimitReachedType>,
}

pub struct CreditsView {
    pub has_credits: bool,
    pub unlimited: bool,
    pub balance: Option<Seq<char>>,
}

pub struct SnapshotView {
    pub limit_id: Option<Seq<char>>,
    pub limit_name: Option<Seq<char>>,
    pub credits: Option<CreditsView>,
    pub rate_limit_reached_type: Option<RateLimitReachedType>,
}

impl CreditsSnapshot {
    pub open spec fn view(self) -> CreditsView {
        CreditsView { has_credits: self.has_credits, unlimited: self.unlimited, balance: ov(self.balance) }
    }
}

impl RateLimitSnapshot {
    pub open spec fn view(self) -> SnapshotView {
        SnapshotView {
            limit_id: ov(self.limit_id),
            limit_name: ov(self.limit_name),
            credits: match self.credits {
                Some(c) => Some(c.view()),
                None => None,
            },
            rate_limit_reached_type: self.rate_limit_reached_type,
        }
    }
}

pub open spec fn osnap(s: Option<RateLimitSnapshot>) -> Option<SnapshotView> {
    match s {
        Some(s) => Some(s.view()),
        None => None,
    }
}

/// A limit id as it appears inside header names: `_` written as `-`.
pub open spec fn dashed(id: Seq<char>) -> Seq<char> {
    id.map_values(|c: char| if c == '_' { '-' } else { c })
}

/// The header that carries the display name of limit `id`: `x-<id>-limit-name`.
pub open spec fn limit_name_header(id: Seq<char>) -> Seq<char> {
    seq!['x', '-'] + dashed(id) + seq!['-', 'l', 'i', 'm', 'i', 't', '-', 'n', 'a', 'm', 'e']
}

/// The reached-limit kind that a header value names, if it is one this runtime knows.
pub open spec fn reached_type_of(text: Seq<char>) -> Option<RateLimitReachedType> {
    if text == "workspace_member_usage_limit_reached"@ {
        Some(RateLimitReachedType::WorkspaceMemberUsageLimitReached)
    } else {
        None
    }
}

/// The reached-limit kind of a response: its header, when it names a known kind.
pub open spec fn spec_reached_type(headers: Option<HeaderList>) -> Option<RateLimitReachedType> {
    match hdr(headers, RATE_LIMIT_REACHED_TYPE_HEADER@) {
        Some(t) => reached_type_of(t),
        None => None,
    }
}

/// A boolean written as `bool::from_str` reads one.
pub open spec fn bool_text(t: Seq<char>) -> Option<bool> {
    if t == "true"@ {
        Some(true)
    } else if t == "false"@ {
        Some(false)
    } else {
        None
    }
}

/// The credit state: present when both flags are readable booleans; an empty
/// balance is no balance.
pub open spec fn spec_credits(headers: Option<HeaderList>) -> Option<CreditsView> {
    let has = match hdr(headers, CREDITS_HAS_CREDITS_HEADER@) {
        Some(t) => bool_text(t),
        None => None,
    };
    let unlimited = match hdr(headers, CREDITS_UNLIMITED_HEADER@) {
        Some(t) => bool_text(t),
        None => None,
    };
    match (has, unlimited) {
        (Some(h), Some(u)) => Some(CreditsView {
            has_credits: h,
            unlimited: u,
            balance: match hdr(headers, CREDITS_BALANCE_HEADER@) {
                Some(b) => if b.len() == 0 {
                    None
                } else {
                    Some(b)
                },
                None => None,
            },
        }),
        _ => None,
    }
}

/// The snapshot of limit `limit_id` (the default limit when none is named), when
/// headers were received. Its display name is read from the limit's own header and
/// never falls back to the id.
pub open spec fn spec_rate_limit_snapshot(headers: Option<HeaderList>, limit_id: Option<Seq<char>>) -> Option<SnapshotView> {
    match headers {
        None => None,
        Some(h) => {
            let id = match limit_id {
                Some(i) => i,
                None => DEFAULT_LIMIT_ID@,
            };
            Some(SnapshotView {
                limit_id: Some(id),
                limit_name: header_text(Some(&h), limit_name_header(id)),
                credits: spec_credits(headers),
                rate_limit_reached_type: spec_reached_type(headers),
            })
        },
    }
}

fn header_text_of(headers: &Option<HeaderList>, name: &str) -> (r: Option<String>)
    ensures
        ov(r) == hdr(*headers, name@),
{
    match headers {
        Some(h) => crate::headers::extract_header(Some(h), name),
        None => None,
    }
}

/// Reads the reached-limit kind of a response.
pub fn parse_rate_limit_reached_type(headers: &Option<HeaderList>) -> (r: Option<RateLimitReachedType>)
    ensures
        r == spec_reached_type(*headers),
{
    match header_text_of(headers, RATE_LIMIT_REACHED_TYPE_HEADER) {
        Some(t) => if str_eq(t.as_str(), "workspace_member_usage_limit_reached") {
            Some(RateLimitReachedType::WorkspaceMemberUsageLimitReached)
        } else {
            None
        },
        None => None,
    }
}

fn parse_bool(t: Option<String>) -> (r: Option<bool>)
    ensures
        r == match ov(t) {
            Some(s) => bool_text(s),
            None => None,
        },
{
    match t {
        Some(s) => if str_eq(s.as_str(), "true") {
            Some(true)
        } else if str_eq(s.as_str(), "false") {
            Some(false)
        } else {
            None
        },
        None => None,
    }
}

/// Reads the account's credit state.
pub fn parse_credits(headers: &Option<HeaderList>) -> (r: Option<CreditsSnapshot>)
    ensures
        match r {
            Some(c) => spec_credits(*headers) == Some(c.view()),
            None => spec_credits(*headers) is None,
        },
{
    let has = parse_bool(header_text_of(headers, CREDITS_HAS_CREDITS_HEADER));
    let unlimited = parse_bool(header_text_of(headers, CREDITS_UNLIMITED_HEADER));
    match (has, unlimited) {
        (Some(h), Some(u)) => {
            let balance = match header_text_of(headers, CREDITS_BALANCE_HEADER) {
                Some(b) => if b.as_str().unicode_len() == 0 {
                    None
                } else {
                    Some(b)
                },
                None => None,
            };
            Some(CreditsSnapshot { has_credits: h, unlimited: u, balance })
        },
        _ => None,
    }
}

/// Decides whether `name` is the display-name header of limit `id`.
fn is_limit_name_header(name: &str, id: &str) -> (r: bool)
    ensures
        r == (name@ == limit_name_header(id@)),
{
    let n = name.unicode_len();
    let m = id.unicode_len();
    let ghost want = limit_name_header(id@);
    assert(want.len() == m + 13);
    if n < 13 || n - 13 != m {
        return false;
    }
    if name.get_char(0) != 'x' || name.get_char(1) != '-' {
        assert(name@[0] != want[0] || name@[1] != want[1]);
        return false;
    }
    let mut i: usize = 0;
    while i < m
        invariant
            n == name@.len(),
            m == id@.len(),
            n == m + 13,
            want == limit_name_header(id@),
            i <= m,
            forall|k: int| 0 <= k < 2 + i ==> name@[k] == want[k],
        decreases m - i,
    {
        let c = id.get_char(i);
        let d = if c == '_' { '-' } else { c };
        assert(want[2 + i] == d);
        if name.get_char(2 + i) != d {
            return false;
        }
        i = i + 1;
    }
    let suffix = "-limit-name";
    proof {
        reveal_strlit("-limit-name");
    }
    let mut j: usize = 0;
    while j < 11
        invariant
            n == name@.len(),
            m == id@.len(),
            n == m + 13,
            want == limit_name_header(id@),
            suffix@ == seq!['-', 'l', 'i', 'm', 'i', 't', '-', 'n', 'a', 'm', 'e'],
            j <= 11,
            forall|k: int| 0 <= k < 2 + m + j ==> name@[k] == want[k],
        decreases 11 - j,
    {
        if name.get_char(2 + m + j) != suffix.get_char(j) {
            assert(want[2 + m + j] == suffix@[j as int]);
            return false;
        }
        assert(want[2 + m + j] == suffix@[j as int]);
        j = j + 1;
    }
    assert(name@ =~= want);
    true
}

/// The first header value stored under the display-name header of limit `id`.
fn limit_name_value<'a>(h: &'a HeaderList, id: &str) -> (r: Option<&'a Vec<u8>>)
    ensures
        match r {
            Some(v) => header_lookup(h.entries@, limit_name_header(id@)) == Some(v@),
            None => header_lookup(h.entries@, limit_name_header(id@)) is None,
        },
{
    let ghost name = limit_name_header(id@);
    let n = h.entries.len();
    let mut i: usize = 0;
    assert(h.entries@.subrange(0, n as int) =~= h.entries@);
    while i < n
        invariant
            n == h.entries@.len(),
            name == limit_name_header(id@),
            i <= n,
            header_lookup(h.entries@, name) == header_lookup(h.entries@.subrange(i as int, n as int), name),
        decreases n - i,
    {
        if is_limit_name_header(h.entries[i].0.as_str(), id) {
            assert(h.entries@.subrange(i as int, n as int)[0] == h.entries@[i as int]);
            return Some(&h.entries[i].1);
        }
        proof {
            lemma_lookup_skip(h.entries@, name, i as int);
        }
        i = i + 1;
    }
    assert(h.entries@.subrange(n as int, n as int).len() == 0);
    None
}

/// Reads the snapshot of limit `limit_id` (the default limit when `None`).
pub fn parse_rate_limit_for_limit(headers: &Option<HeaderList>, limit_id: Option<&str>) -> (r: Option<RateLimitSnapshot>)
    ensures
        osnap(r) == spec_rate_limit_snapshot(*headers, crate::text::osv(limit_id)),
{
    let h = match headers {
        Some(h) => h,
        None => return None,
    };
    let id = match limit_id {
        Some(i) => String::from_str(i),
        None => String::from_str(DEFAULT_LIMIT_ID),
    };
    let limit_name = match limit_name_value(h, id.as_str()) {
        Some(bytes) => bytes_text(bytes),
        None => None,
    };
    proof {
        let hl = header_lookup(h.entries@, limit_name_header(id@));
        assert(header_text(Some(h), limit_name_header(id@)) == match hl {
            Some(bytes) => if all_visible_ascii(bytes) { Some(ascii_text(bytes)) } else { None },
            None => None,
        });
    }
    Some(RateLimitSnapshot {
        limit_id: Some(id),
        limit_name,
        credits: parse_credits(headers),
        rate_limit_reached_type: parse_rate_limit_reached_type(headers),
    })
}

} // verus!
