//! A plain-value model of an HTTP header collection.
//!
//! Header names match case-insensitively (ASCII), as HTTP requires; a header
//! whose value is not valid text is carried as `None` and treated as absent by
//! every reader.

use vstd::prelude::*;

verus! {

/// ASCII-lowercase a single character; everything but `'A'..='Z'` is unchanged.
pub open spec fn lower_char(c: char) -> char {
    if 'A' <= c && c <= 'Z' {
        (((c as u32) + 32) as u8) as char
    } else {
        c
    }
}

/// ASCII-lowercase a whole character sequence.
pub open spec fn lower(s: Seq<char>) -> Seq<char> {
    s.map(|i: int, c: char| lower_char(c))
}

/// The mathematical value of one header entry: its name and, when the value is
/// valid text, that text.
pub struct HeaderView {
    pub name: Seq<char>,
    pub value: Option<Seq<char>>,
}

/// One header entry. `value` is `None` when the header was present but its
/// bytes were not valid text; readers treat such an entry as absent.
#[derive(Clone, Debug)]
pub struct Header {
    pub name: String,
    pub value: Option<String>,
}

impl View for Header {
    type V = HeaderView;

    open spec fn view(&self) -> HeaderView {
        HeaderView { name: self.name@, value: self.value.deep_view() }
    }
}

/// The text of the first entry whose name matches `name` case-insensitively:
/// `None` when no entry matches or the first matching entry is not text.
pub open spec fn header_value(hs: Seq<HeaderView>, name: Seq<char>) -> Option<Seq<char>>
    decreases hs.len(),
{
    if hs.len() == 0 {
        None
    } else if lower(hs[0].name) == lower(name) {
        hs[0].value
    } else {
        header_value(hs.subrange(1, hs.len() as int), name)
    }
}

/// An ordered collection of header entries, looked up by case-insensitive name.
#[derive(Clone, Debug)]
pub struct Headers {
    pub entries: Vec<Header>,
}

impl View for Headers {
    type V = Seq<HeaderView>;

    open spec fn view(&self) -> Seq<HeaderView> {
        self.entries@.map(|i: int, h: Header| h@)
    }
}

/// Lowercase one character, matching `lower_char`.
fn lower_char_exec(c: char) -> (r: char)
    ensures
        r == lower_char(c),
{
    if 'A' <= c && c <= 'Z' {
        (((c as u32) + 32) as u8) as char
    } else {
        c
    }
}

/// Whether two names are equal up to ASCII case.
pub fn name_matches(a: &str, b: &str) -> (r: bool)
    ensures
        r == (lower(a@) == lower(b@)),
{
    let na = a.unicode_len();
    let nb = b.unicode_len();
    if na != nb {
        proof {
            assert(lower(a@).len() == a@.len());
            assert(lower(b@).len() == b@.len());
        }
        return false;
    }
    let mut i: usize = 0;
    while i < na
        invariant
            i <= na,
            na == a@.len(),
            na == b@.len(),
            forall|j: int| 0 <= j < i ==> lower_char(a@[j]) == lower_char(b@[j]),
        decreases na - i,
    {
        let ca = lower_char_exec(a.get_char(i));
        let cb = lower_char_exec(b.get_char(i));
        if ca != cb {
            proof {
                assert(lower(a@)[i as int] != lower(b@)[i as int]);
            }
            return false;
        }
        i += 1;
    }
    proof {
        assert forall|j: int| 0 <= j < a@.len() implies lower(a@)[j] == lower(b@)[j] by {
            assert(lower_char(a@[j]) == lower_char(b@[j]));
        }
        assert(lower(a@) =~= lower(b@));
    }
    true
}

impl Headers {
    /// An empty collection.
    pub fn new() -> (r: Headers)
        ensures
            r@ =~= Seq::<HeaderView>::empty(),
    {
        let entries: Vec<Header> = Vec::new();
        let r = Headers { entries };
        proof {
            assert(r@ =~= Seq::<HeaderView>::empty());
        }
        r
    }

    /// Append one entry; `value` is `None` for a header whose bytes are not
    /// valid text.
    pub fn insert(&mut self, name: String, value: Option<String>)
        ensures
            final(self)@ =~= old(self)@.push(HeaderView { name: name@, value: value.deep_view() }),
    {
        let ghost hv = HeaderView { name: name@, value: value.deep_view() };
        self.entries.push(Header { name, value });
        proof {
            assert(final(self)@ =~= old(self)@.push(hv));
        }
    }

    /// The text of the first entry whose name matches `name` case-insensitively.
    pub fn get_text(&self, name: &str) -> (r: Option<String>)
        ensures
            match r {
                Some(s) => header_value(self@, name@) == Some(s@),
                None => header_value(self@, name@) is None,
            },
    {
        let n = self.entries.len();
        proof {
            assert(self@.subrange(0, n as int) =~= self@);
        }
        let mut i: usize = 0;
        while i < n
            invariant
                i <= n,
                n == self.entries.len(),
                self@.len() == n,
                header_value(self@.subrange(i as int, n as int), name@) == header_value(
                    self@,
                    name@,
                ),
            decreases n - i,
        {
            let ghost rest = self@.subrange(i as int, n as int);
            if name_matches(self.entries[i].name.as_str(), name) {
                proof {
                    assert(rest[0] == self@[i as int]);
                    assert(header_value(rest, name@) == self@[i as int].value);
                }
                return match &self.entries[i].value {
                    Some(s) => Some(s.clone()),
                    None => None,
                };
            }
            proof {
                assert(rest[0] == self@[i as int]);
                assert(rest.subrange(1, rest.len() as int) =~= self@.subrange(
                    i + 1 as int,
                    n as int,
                ));
            }
            i += 1;
        }
        proof {
            assert(self@.subrange(i as int, n as int) =~= Seq::<HeaderView>::empty());
        }
        None
    }
}

} // verus!
