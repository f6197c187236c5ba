//! Parser for the forwarding header (`X-Forwarded-For`): the originating
//! client address is the first comma-separated entry, with surrounding
//! whitespace removed.

use vstd::prelude::*;

use crate::headers::{header_value, Headers};

verus! {

/// The characters that trimming removes (the Unicode whitespace set).
pub open spec fn is_space(c: char) -> bool {
    ||| c == ' '
    ||| c == '\t'
    ||| c == '\n'
    ||| c == '\u{0B}'
    ||| c == '\u{0C}'
    ||| c == '\r'
    ||| c == '\u{85}'
    ||| c == '\u{A0}'
    ||| c == '\u{1680}'
    ||| ('\u{2000}' <= c && c <= '\u{200A}')
    ||| c == '\u{2028}'
    ||| c == '\u{2029}'
    ||| c == '\u{202F}'
    ||| c == '\u{205F}'
    ||| c == '\u{3000}'
}

/// The index of the first comma, or the length when there is none.
pub open spec fn first_comma(s: Seq<char>) -> int
    decreases s.len(),
{
    if s.len() == 0 {
        0
    } else if s[0] == ',' {
        0
    } else {
        1 + first_comma(s.subrange(1, s.len() as int))
    }
}

/// `s` without its leading whitespace.
pub open spec fn trim_start(s: Seq<char>) -> Seq<char>
    decreases s.len(),
{
    if s.len() > 0 && is_space(s[0]) {
        trim_start(s.subrange(1, s.len() as int))
    } else {
        s
    }
}

/// `s` without its trailing whitespace.
pub open spec fn trim_end(s: Seq<char>) -> Seq<char>
    decreases s.len(),
{
    if s.len() > 0 && is_space(s[s.len() - 1]) {
        trim_end(s.subrange(0, s.len() - 1))
    } else {
        s
    }
}

/// `s` without leading and trailing whitespace.
pub open spec fn trimmed(s: Seq<char>) -> Seq<char> {
    trim_end(trim_start(s))
}

/// The client address carried by a forwarding-header value: its first
/// comma-separated entry, trimmed.
pub open spec fn client_ip_of(v: Seq<char>) -> Seq<char> {
    trimmed(v.subrange(0, first_comma(v)))
}

proof fn lemma_first_comma_at(s: Seq<char>, i: int)
    requires
        0 <= i <= s.len(),
        forall|j: int| 0 <= j < i ==> s[j] != ',',
        i == s.len() || s[i] == ',',
    ensures
        first_comma(s) == i,
    decreases i,
{
    if s.len() == 0 {
    } else if s[0] == ',' {
        assert(i == 0);
    } else {
        let t = s.subrange(1, s.len() as int);
        assert(forall|j: int| 0 <= j < i - 1 ==> t[j] == s[j + 1] && t[j] != ',');
        lemma_first_comma_at(t, i - 1);
    }
}

proof fn lemma_trim_start_at(s: Seq<char>, a: int)
    requires
        0 <= a <= s.len(),
        forall|j: int| 0 <= j < a ==> is_space(s[j]),
        a == s.len() || !is_space(s[a]),
    ensures
        trim_start(s) == s.subrange(a, s.len() as int),
    decreases a,
{
    if a == 0 {
        assert(s.subrange(0, s.len() as int) =~= s);
    } else {
        let t = s.subrange(1, s.len() as int);
        assert(forall|j: int| 0 <= j < a - 1 ==> t[j] == s[j + 1] && is_space(t[j]));
        lemma_trim_start_at(t, a - 1);
        assert(t.subrange(a - 1, t.len() as int) =~= s.subrange(a, s.len() as int));
    }
}

proof fn lemma_trim_end_at(s: Seq<char>, b: int)
    requires
        0 <= b <= s.len(),
        forall|j: int| b <= j < s.len() ==> is_space(s[j]),
        b == 0 || !is_space(s[b - 1]),
    ensures
        trim_end(s) == s.subrange(0, b),
    decreases s.len(),
{
    if b == s.len() {
        if s.len() > 0 && is_space(s[s.len() - 1]) {
            assert(false);
        }
        assert(s.subrange(0, b) =~= s);
    } else {
        let t = s.subrange(0, s.len() - 1);
        assert(forall|j: int| b <= j < t.len() ==> t[j] == s[j] && is_space(t[j]));
        lemma_trim_end_at(t, b);
        assert(t.subrange(0, b) =~= s.subrange(0, b));
    }
}

/// Whether trimming removes `c`, matching `is_space`.
fn is_space_exec(c: char) -> (r: bool)
    ensures
        r == is_space(c),
{
    c == ' ' || c == '\t' || c == '\n' || c == '\u{0B}' || c == '\u{0C}' || c == '\r' || c
        == '\u{85}' || c == '\u{A0}' || c == '\u{1680}' || ('\u{2000}' <= c && c <= '\u{200A}') || c
        == '\u{2028}' || c == '\u{2029}' || c == '\u{202F}' || c == '\u{205F}' || c == '\u{3000}'
}

/// The client address carried by one forwarding-header value.
pub fn client_ip(value: &str) -> (r: String)
    ensures
        r@ == client_ip_of(value@),
{
    let n = value.unicode_len();
    let mut end: usize = 0;
    while end < n && value.get_char(end) != ','
        invariant
            end <= n,
            n == value@.len(),
            forall|j: int| 0 <= j < end ==> value@[j] != ',',
        decreases n - end,
    {
        end += 1;
    }
    proof {
        lemma_first_comma_at(value@, end as int);
    }
    let ghost seg = value@.subrange(0, end as int);
    let mut a: usize = 0;
    while a < end && is_space_exec(value.get_char(a))
        invariant
            a <= end <= n,
            n == value@.len(),
            forall|j: int| 0 <= j < a ==> is_space(value@[j]),
        decreases end - a,
    {
        a += 1;
    }
    let mut b: usize = end;
    while b > a && is_space_exec(value.get_char(b - 1))
        invariant
            a <= b <= end <= n,
            n == value@.len(),
            forall|j: int| b <= j < end ==> is_space(value@[j]),
        decreases b,
    {
        b -= 1;
    }
    proof {
        assert(forall|j: int| 0 <= j < seg.len() ==> seg[j] == value@[j]);
        lemma_trim_start_at(seg, a as int);
        let t = seg.subrange(a as int, end as int);
        assert(forall|j: int| 0 <= j < t.len() ==> t[j] == value@[a + j]);
        lemma_trim_end_at(t, b - a);
        assert(t.subrange(0, b - a) =~= value@.subrange(a as int, b as int));
    }
    let s = value.substring_char(a, b);
    s.to_owned()
}

/// The first forwarding-header entry, trimmed: `None` when the header is
/// absent or its value is not text.
pub fn parse_x_forwarded_for(headers: &Headers) -> (r: Option<String>)
    ensures
        match header_value(headers@, "X-Forwarded-For"@) {
            Some(v) => r matches Some(ip) && ip@ == client_ip_of(v),
            None => r is None,
        },
{
    match headers.get_text("X-Forwarded-For") {
        Some(v) => Some(client_ip(v.as_str())),
        None => None,
    }
}

} // verus!
