use vstd::prelude::*;
use vstd::string::*;

verus! {

/// One header line: a name and its raw value bytes. A header list may repeat
/// a name; order and multiplicity are kept.
pub struct Header {
    pub name: String,
    pub value: Vec<u8>,
}

impl Header {
    pub open spec fn view(&self) -> (Seq<char>, Seq<u8>) {
        (self.name@, self.value@)
    }
}

pub open spec fn headers_view(hs: Seq<Header>) -> Seq<(Seq<char>, Seq<u8>)> {
    hs.map_values(|h: Header| h@)
}

pub open spec fn ascii_lower(c: char) -> char {
    if 'A' <= c && c <= 'Z' {
        ((c as u8) + 32) as char
    } else {
        c
    }
}

/// Header names compare without regard to ASCII case.
pub open spec fn same_name(a: Seq<char>, b: Seq<char>) -> bool {
    &&& a.len() == b.len()
    &&& forall|i: int| 0 <= i < a.len() ==> ascii_lower(#[trigger] a[i]) == ascii_lower(b[i])
}

pub fn lower_char(c: char) -> (r: char)
    ensures
        r == ascii_lower(c),
{
    if 'A' <= c && c <= 'Z' {
        ((c as u8) + 32) as char
    } else {
        c
    }
}

/// Whether `name` equals `expected` without regard to ASCII case.
pub fn name_is(name: &str, expected: &str) -> (r: bool)
    ensures
        r == same_name(name@, expected@),
{
    let n: usize = name.unicode_len();
    let m: usize = expected.unicode_len();
    if n != m {
        return false;
    }
    let mut i: usize = 0;
    while i < n
        invariant
            n == name@.len(),
            m == expected@.len(),
            n == m,
            i <= n,
            forall|j: int| 0 <= j < i ==> ascii_lower(#[trigger] name@[j]) == ascii_lower(expected@[j]),
        decreases n - i,
    {
        if lower_char(name.get_char(i)) != lower_char(expected.get_char(i)) {
            return false;
        }
        i = i + 1;
    }
    true
}

pub uninterp spec fn url_host_of(url: Seq<char>) -> Option<Seq<u8>>;

/// Relies on `url::Url::parse` and `Url::host_str` (the `Url` that reqwest
/// re-exports): the host of a URL, or nothing where the URL does not parse or
/// has no host. The result depends on the text alone.
#[verifier::external_body]
fn url_host(url: &str) -> (r: Option<Vec<u8>>)
    ensures
        r matches Some(h) ==> url_host_of(url@) == Some(h@),
        r is None ==> url_host_of(url@) is None,
{
    match reqwest::Url::parse(url) {
        Ok(parsed) => parsed.host_str().map(|h| h.as_bytes().to_vec()),
        Err(_) => None,
    }
}

/// The outbound headers that one inbound header gives on a hop whose target
/// host is `host`: a `host` header is replaced by the target's host (or left
/// out where there is none), `accept-encoding` is dropped, and any other
/// header passes unchanged.
pub open spec fn translate_one(h: (Seq<char>, Seq<u8>), host: Option<Seq<u8>>) -> Seq<(Seq<char>, Seq<u8>)> {
    if same_name(h.0, "host"@) {
        match host {
            Some(v) => seq![(h.0, v)],
            None => Seq::empty(),
        }
    } else if same_name(h.0, "accept-encoding"@) {
        Seq::empty()
    } else {
        seq![h]
    }
}

pub open spec fn translate_spec(hs: Seq<(Seq<char>, Seq<u8>)>, host: Option<Seq<u8>>) -> Seq<(Seq<char>, Seq<u8>)>
    decreases hs.len(),
{
    if hs.len() == 0 {
        Seq::empty()
    } else {
        translate_spec(hs.drop_last(), host) + translate_one(hs.last(), host)
    }
}

pub fn clone_bytes(v: &Vec<u8>) -> (r: Vec<u8>)
    ensures
        r@ == v@,
{
    let mut r: Vec<u8> = Vec::new();
    let mut i: usize = 0;
    while i < v.len()
        invariant
            i <= v@.len(),
            r@ == v@.subrange(0, i as int),
        decreases v@.len() - i,
    {
        r.push(v[i]);
        i = i + 1;
    }
    assert(r@ =~= v@);
    r
}

pub fn clone_header(h: &Header) -> (r: Header)
    ensures
        r@ == h@,
{
    Header { name: h.name.clone(), value: clone_bytes(&h.value) }
}

/// The outbound headers for one hop to `url`, rewritten from the inbound
/// `headers`.
pub fn translate_headers(headers: &Vec<Header>, url: &str) -> (r: Vec<Header>)
    ensures
        headers_view(r@) == translate_spec(headers_view(headers@), url_host_of(url@)),
{
    let host = url_host(url);
    let ghost host_v: Option<Seq<u8>> = url_host_of(url@);
    let mut r: Vec<Header> = Vec::new();
    let mut i: usize = 0;
    while i < headers.len()
        invariant
            i <= headers@.len(),
            host matches Some(h) ==> host_v == Some(h@),
            host is None ==> host_v is None,
            headers_view(r@) == translate_spec(headers_view(headers@.subrange(0, i as int)), host_v),
        decreases headers@.len() - i,
    {
        let h = &headers[i];
        let ghost before = r@;
        let ghost hv = headers_view(headers@.subrange(0, i + 1));
        assert(headers@.subrange(0, i + 1) =~= headers@.subrange(0, i as int).push(headers@[i as int]));
        assert(hv.drop_last() =~= headers_view(headers@.subrange(0, i as int)));
        assert(hv.last() == h@);
        if name_is(h.name.as_str(), "host") {
            match &host {
                Some(v) => {
                    r.push(Header { name: h.name.clone(), value: clone_bytes(v) });
                },
                None => {},
            }
        } else if name_is(h.name.as_str(), "accept-encoding") {
        } else {
            r.push(clone_header(h));
        }
        assert(headers_view(r@) =~= headers_view(before) + translate_one(h@, host_v));
        i = i + 1;
    }
    assert(headers@.subrange(0, i as int) =~= headers@);
    r
}

} // verus!
