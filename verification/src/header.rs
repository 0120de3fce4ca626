//! Validated header names and values, and the header map a request head
//! carries. Names are kept in their lowercase canonical form; values must be
//! horizontal tab or visible ASCII (including space).

use vstd::prelude::*;

use crate::error::HttpError;

verus! {

/// A byte allowed in a canonical header name: a lowercase letter, a digit,
/// `-` or `_`.
pub open spec fn valid_name_byte(b: u8) -> bool {
    (97 <= b && b <= 122) || (48 <= b && b <= 57) || b == 45 || b == 95
}

/// A well-formed header name: nonempty, every byte allowed.
pub open spec fn wf_name(s: Seq<u8>) -> bool {
    &&& s.len() > 0
    &&& forall|i: int| 0 <= i < s.len() ==> valid_name_byte(#[trigger] s[i])
}

/// A byte allowed in a header value: horizontal tab, space, or visible ASCII.
pub open spec fn valid_value_byte(b: u8) -> bool {
    b == 9 || (32 <= b && b <= 126)
}

/// A well-formed header value: every byte allowed (the empty value is legal).
pub open spec fn wf_value(s: Seq<u8>) -> bool {
    forall|i: int| 0 <= i < s.len() ==> valid_value_byte(#[trigger] s[i])
}

/// An owned copy of a byte slice.
fn bytes_of(s: &[u8]) -> (v: Vec<u8>)
    ensures
        v@ == s@,
{
    let mut v: Vec<u8> = Vec::new();
    let mut i: usize = 0;
    while i < s.len()
        invariant
            0 <= i <= s.len(),
            v@ == s@.subrange(0, i as int),
        decreases s.len() - i,
    {
        v.push(s[i]);
        proof {
            assert(v@ =~= s@.subrange(0, i + 1 as int));
        }
        i = i + 1;
    }
    proof {
        assert(v@ =~= s@);
    }
    v
}

/// A validated header name in lowercase canonical form.
#[derive(Debug, Clone, PartialEq, Eq)]
pub struct HeaderName {
    bytes: Vec<u8>,
}

impl View for HeaderName {
    type V = Seq<u8>;

    closed spec fn view(&self) -> Seq<u8> {
        self.bytes@
    }
}

impl HeaderName {
    /// The name is well formed; holds of every value this module hands out.
    pub open spec fn wf(&self) -> bool {
        wf_name(self@)
    }

    /// Validates `s` as a canonical header name.
    pub fn try_from_bytes(s: &[u8]) -> (r: Result<HeaderName, HttpError>)
        ensures
            match r {
                Ok(n) => n@ == s@ && wf_name(s@),
                Err(e) => e == HttpError::InvalidHeaderName && !wf_name(s@),
            },
    {
        if s.len() == 0 {
            return Err(HttpError::InvalidHeaderName);
        }
        let mut i: usize = 0;
        while i < s.len()
            invariant
                0 <= i <= s.len(),
                forall|j: int| 0 <= j < i ==> valid_name_byte(#[trigger] s@[j]),
            decreases s.len() - i,
        {
            let b = s[i];
            if !((97 <= b && b <= 122) || (48 <= b && b <= 57) || b == 45 || b == 95) {
                return Err(HttpError::InvalidHeaderName);
            }
            i = i + 1;
        }
        Ok(HeaderName { bytes: bytes_of(s) })
    }

    /// Byte-for-byte equality of two names.
    pub fn same_as(&self, other: &HeaderName) -> (r: bool)
        ensures
            r == (self@ == other@),
    {
        let r = self.bytes == other.bytes;
        proof {
            if self.bytes@ =~= other.bytes@ {
                assert(self@ == other@);
            }
        }
        r
    }
}

/// A validated header value.
#[derive(Debug, Clone, PartialEq, Eq)]
pub struct HeaderValue {
    bytes: Vec<u8>,
}

impl View for HeaderValue {
    type V = Seq<u8>;

    closed spec fn view(&self) -> Seq<u8> {
        self.bytes@
    }
}

impl HeaderValue {
    /// The value is well formed; holds of every value this module hands out.
    pub open spec fn wf(&self) -> bool {
        wf_value(self@)
    }

    /// Validates `s` as a header value.
    pub fn try_from_bytes(s: &[u8]) -> (r: Result<HeaderValue, HttpError>)
        ensures
            match r {
                Ok(v) => v@ == s@ && wf_value(s@),
                Err(e) => e == HttpError::InvalidHeaderValue && !wf_value(s@),
            },
    {
        let mut i: usize = 0;
        while i < s.len()
            invariant
                0 <= i <= s.len(),
                forall|j: int| 0 <= j < i ==> valid_value_byte(#[trigger] s@[j]),
            decreases s.len() - i,
        {
            let b = s[i];
            if !(b == 9 || (32 <= b && b <= 126)) {
                return Err(HttpError::InvalidHeaderValue);
            }
            i = i + 1;
        }
        Ok(HeaderValue { bytes: bytes_of(s) })
    }

    /// The value's bytes, for callers that inspect what the map holds.
    pub fn as_bytes(&self) -> (r: &[u8])
        ensures
            r@ == self@,
    {
        self.bytes.as_slice()
    }
}

/// Byte-for-byte equality of two slices.
pub fn bytes_eq(a: &[u8], b: &[u8]) -> (r: bool)
    ensures
        r == (a@ == b@),
{
    if a.len() != b.len() {
        return false;
    }
    let mut i: usize = 0;
    while i < a.len()
        invariant
            a@.len() == b@.len(),
            0 <= i <= a@.len(),
            forall|j: int| 0 <= j < i ==> a@[j] == b@[j],
        decreases a.len() - i,
    {
        if a[i] != b[i] {
            return false;
        }
        i = i + 1;
    }
    proof {
        assert(a@ =~= b@);
    }
    true
}

/// The canonical name of the content-type header, `content-type` in ASCII.
pub open spec fn spec_content_type_name() -> Seq<u8> {
    seq![99u8, 111, 110, 116, 101, 110, 116, 45, 116, 121, 112, 101]
}

/// The canonical name of the content-encoding header, `content-encoding` in
/// ASCII.
pub open spec fn spec_content_encoding_name() -> Seq<u8> {
    seq![99u8, 111, 110, 116, 101, 110, 116, 45, 101, 110, 99, 111, 100, 105, 110, 103]
}

/// The `content-type` header name.
pub fn content_type() -> (n: HeaderName)
    ensures
        n.wf(),
        n@ == spec_content_type_name(),
{
    let v: Vec<u8> = vec![99u8, 111, 110, 116, 101, 110, 116, 45, 116, 121, 112, 101];
    proof {
        assert(v@ =~= spec_content_type_name());
    }
    HeaderName { bytes: v }
}

/// The `content-encoding` header name.
pub fn content_encoding() -> (n: HeaderName)
    ensures
        n.wf(),
        n@ == spec_content_encoding_name(),
{
    let v: Vec<u8> = vec![
        99u8, 111, 110, 116, 101, 110, 116, 45, 101, 110, 99, 111, 100, 105, 110, 103,
    ];
    proof {
        assert(v@ =~= spec_content_encoding_name());
    }
    HeaderName { bytes: v }
}

/// The abstract contents of a list of header entries: later entries win,
/// though a well-formed map never holds the same name twice.
pub open spec fn map_of(entries: Seq<(HeaderName, HeaderValue)>) -> Map<Seq<u8>, Seq<u8>>
    decreases entries.len(),
{
    if entries.len() == 0 {
        Map::empty()
    } else {
        map_of(entries.drop_last()).insert(entries.last().0@, entries.last().1@)
    }
}

/// A key is in the contents exactly when some entry carries it.
proof fn lemma_map_of_contains(entries: Seq<(HeaderName, HeaderValue)>, k: Seq<u8>)
    ensures
        map_of(entries).contains_key(k) <==> exists|i: int|
            0 <= i < entries.len() && #[trigger] entries[i].0@ == k,
    decreases entries.len(),
{
    if entries.len() > 0 {
        lemma_map_of_contains(entries.drop_last(), k);
        if entries.last().0@ == k {
            assert(entries[entries.len() - 1].0@ == k);
        } else if map_of(entries).contains_key(k) {
            let i = choose|i: int| 0 <= i < entries.drop_last().len()
                && #[trigger] entries.drop_last()[i].0@ == k;
            assert(entries[i].0@ == k);
        } else {
            assert(forall|i: int| 0 <= i < entries.len() - 1
                ==> #[trigger] entries[i].0@ == entries.drop_last()[i].0@);
        }
    }
}

/// With no repeated names, the contents at an entry's name is that entry's value.
proof fn lemma_map_of_get(entries: Seq<(HeaderName, HeaderValue)>, i: int)
    requires
        0 <= i < entries.len(),
        forall|p: int, q: int| 0 <= p < q < entries.len()
            ==> #[trigger] entries[p].0@ != #[trigger] entries[q].0@,
    ensures
        map_of(entries).contains_key(entries[i].0@),
        map_of(entries)[entries[i].0@] == entries[i].1@,
    decreases entries.len(),
{
    if i < entries.len() - 1 {
        assert(forall|p: int, q: int| 0 <= p < q < entries.drop_last().len()
            ==> #[trigger] entries.drop_last()[p].0@ != #[trigger] entries.drop_last()[q].0@);
        lemma_map_of_get(entries.drop_last(), i);
        assert(entries[i].0@ != entries.last().0@);
    }
}

/// With no repeated names, the contents is finite and has one key per entry.
proof fn lemma_map_of_len(entries: Seq<(HeaderName, HeaderValue)>)
    requires
        forall|p: int, q: int| 0 <= p < q < entries.len()
            ==> #[trigger] entries[p].0@ != #[trigger] entries[q].0@,
    ensures
        map_of(entries).dom().finite(),
        map_of(entries).dom().len() == entries.len(),
    decreases entries.len(),
{
    if entries.len() > 0 {
        let prefix = entries.drop_last();
        assert(forall|p: int, q: int| 0 <= p < q < prefix.len()
            ==> #[trigger] prefix[p].0@ != #[trigger] prefix[q].0@);
        lemma_map_of_len(prefix);
        lemma_map_of_contains(prefix, entries.last().0@);
        assert(forall|i: int| 0 <= i < prefix.len()
            ==> #[trigger] prefix[i].0@ == entries[i].0@);
        assert(!map_of(prefix).contains_key(entries.last().0@));
        assert(map_of(entries).dom() =~= map_of(prefix).dom().insert(entries.last().0@));
    }
}

/// Replacing one entry's value replaces it in the contents and nothing else.
proof fn lemma_map_of_update(entries: Seq<(HeaderName, HeaderValue)>, i: int, v: HeaderValue)
    requires
        0 <= i < entries.len(),
        forall|p: int, q: int| 0 <= p < q < entries.len()
            ==> #[trigger] entries[p].0@ != #[trigger] entries[q].0@,
    ensures
        map_of(entries.update(i, (entries[i].0, v)))
            == map_of(entries).insert(entries[i].0@, v@),
    decreases entries.len(),
{
    let e2 = entries.update(i, (entries[i].0, v));
    let k = entries[i].0@;
    if i == entries.len() - 1 {
        assert(e2.drop_last() =~= entries.drop_last());
        assert(map_of(e2) == map_of(entries.drop_last()).insert(k, v@));
        assert(map_of(entries.drop_last()).insert(k, v@)
            =~= map_of(entries.drop_last()).insert(k, entries[i].1@).insert(k, v@));
    } else {
        let prefix = entries.drop_last();
        assert(forall|p: int, q: int| 0 <= p < q < prefix.len()
            ==> #[trigger] prefix[p].0@ != #[trigger] prefix[q].0@);
        lemma_map_of_update(prefix, i, v);
        assert(e2.drop_last() =~= prefix.update(i, (prefix[i].0, v)));
        assert(e2.last() == entries.last());
        assert(k != entries.last().0@);
        assert(map_of(prefix).insert(k, v@).insert(entries.last().0@, entries.last().1@)
            =~= map_of(prefix).insert(entries.last().0@, entries.last().1@).insert(k, v@));
    }
}

/// The header map of one request head: validated names to validated values,
/// each name at most once.
#[derive(Debug)]
pub struct HeaderMap {
    entries: Vec<(HeaderName, HeaderValue)>,
}

impl View for HeaderMap {
    type V = Map<Seq<u8>, Seq<u8>>;

    closed spec fn view(&self) -> Map<Seq<u8>, Seq<u8>> {
        map_of(self.entries@)
    }
}

impl HeaderMap {
    /// Every entry is validated and no name repeats; holds of every map this
    /// module hands out.
    pub closed spec fn wf(&self) -> bool {
        &&& forall|i: int| 0 <= i < self.entries@.len()
            ==> (#[trigger] self.entries@[i].0).wf() && self.entries@[i].1.wf()
        &&& forall|p: int, q: int| 0 <= p < q < self.entries@.len()
            ==> #[trigger] self.entries@[p].0@ != #[trigger] self.entries@[q].0@
    }

    /// The empty map.
    pub fn new() -> (r: HeaderMap)
        ensures
            r.wf(),
            r@ == Map::<Seq<u8>, Seq<u8>>::empty(),
    {
        HeaderMap { entries: Vec::new() }
    }

    /// How many headers the map holds.
    pub fn len(&self) -> (r: usize)
        requires
            self.wf(),
        ensures
            r == self@.dom().len(),
            self@.dom().finite(),
    {
        proof {
            lemma_map_of_len(self.entries@);
        }
        self.entries.len()
    }

    /// The index of the entry named `name`, if one exists.
    fn find(&self, name: &HeaderName) -> (r: Option<usize>)
        ensures
            match r {
                Some(i) => i < self.entries@.len() && self.entries@[i as int].0@ == name@,
                None => forall|i: int| 0 <= i < self.entries@.len()
                    ==> #[trigger] self.entries@[i].0@ != name@,
            },
    {
        let mut i: usize = 0;
        while i < self.entries.len()
            invariant
                0 <= i <= self.entries@.len(),
                forall|j: int| 0 <= j < i ==> #[trigger] self.entries@[j].0@ != name@,
            decreases self.entries@.len() - i,
        {
            if self.entries[i].0.same_as(name) {
                return Some(i);
            }
            i = i + 1;
        }
        None
    }

    /// Whether a header with this name is present.
    pub fn contains_key(&self, name: &HeaderName) -> (r: bool)
        ensures
            r == self@.contains_key(name@),
    {
        proof {
            lemma_map_of_contains(self.entries@, name@);
        }
        self.find(name).is_some()
    }

    /// The value stored under `name`, if any.
    pub fn get(&self, name: &HeaderName) -> (r: Option<&HeaderValue>)
        requires
            self.wf(),
        ensures
            match r {
                Some(v) => self@.contains_key(name@) && v@ == self@[name@] && v.wf(),
                None => !self@.contains_key(name@),
            },
    {
        proof {
            lemma_map_of_contains(self.entries@, name@);
        }
        match self.find(name) {
            Some(i) => {
                proof {
                    lemma_map_of_get(self.entries@, i as int);
                }
                Some(&self.entries[i].1)
            }
            None => None,
        }
    }

    /// Inserts a header, replacing the value of an already-present name.
    pub fn insert(&mut self, name: HeaderName, value: HeaderValue)
        requires
            old(self).wf(),
            name.wf(),
            value.wf(),
        ensures
            final(self).wf(),
            final(self)@ == old(self)@.insert(name@, value@),
    {
        match self.find(&name) {
            Some(i) => {
                proof {
                    lemma_map_of_update(self.entries@, i as int, value);
                }
                let (kept_name, _) = self.entries.remove(i);
                self.entries.insert(i, (kept_name, value));
                proof {
                    assert(self.entries@ =~= old(self).entries@.update(
                        i as int,
                        (old(self).entries@[i as int].0, value),
                    ));
                    assert(old(self).entries@[i as int].0@ == name@);
                    assert(self@ == old(self)@.insert(name@, value@));
                }
            }
            None => {
                self.entries.push((name, value));
                proof {
                    assert(self.entries@.drop_last() =~= old(self).entries@);
                }
            }
        }
    }
}

} // verus!
