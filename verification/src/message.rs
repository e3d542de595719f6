//! Plain-value forms of HTTP messages: what the gateway reads of a request
//! and what it writes into a response.

use crate::text::{eq_ignoring_ascii_case, str_eq_ignore_ascii_case};
use vstd::prelude::*;
use vstd::string::{StrSliceExecFns, StringExecFns, StringSliceAdditionalSpecFns};
use vstd::utf8::encode_utf8;

verus! {

/// One header line. Names are compared without regard to ASCII case; values
/// are opaque bytes.
#[derive(Debug)]
pub struct Header {
    pub name: String,
    pub value: Vec<u8>,
}

/// The mathematical form of a `Header`.
pub ghost struct HeaderView {
    pub name: Seq<char>,
    pub value: Seq<u8>,
}

impl DeepView for Header {
    type V = HeaderView;

    open spec fn deep_view(&self) -> HeaderView {
        HeaderView { name: self.name@, value: self.value@ }
    }
}

/// The header `name: value` where the value is text, taken as its UTF-8
/// bytes.
pub open spec fn text_header(name: Seq<char>, value: Seq<char>) -> HeaderView {
    HeaderView { name, value: encode_utf8(value) }
}

/// The header is called `name`, up to ASCII case.
pub open spec fn is_named(h: HeaderView, name: Seq<char>) -> bool {
    eq_ignoring_ascii_case(h.name, name)
}

/// The predicate that holds of the headers not called `name`.
pub open spec fn not_named(name: Seq<char>) -> spec_fn(HeaderView) -> bool {
    |h: HeaderView| !is_named(h, name)
}

/// The headers of `headers` that are not called `name`, in their order.
pub open spec fn without_named(headers: Seq<HeaderView>, name: Seq<char>) -> Seq<HeaderView> {
    headers.filter(not_named(name))
}

/// The value of the first header called `name`, if there is one.
pub open spec fn first_named(headers: Seq<HeaderView>, name: Seq<char>) -> Option<Seq<u8>>
    decreases headers.len(),
{
    if headers.len() == 0 {
        None
    } else if is_named(headers[0], name) {
        Some(headers[0].value)
    } else {
        first_named(headers.drop_first(), name)
    }
}

impl Header {
    /// The header `name: value` with a textual value.
    pub fn new(name: &str, value: &str) -> (h: Header)
        ensures
            h.deep_view() == text_header(name@, value@),
    {
        Header { name: String::from_str(name), value: value.as_bytes_vec() }
    }

    /// A copy of the header.
    pub fn duplicate(&self) -> (h: Header)
        ensures
            h.deep_view() == self.deep_view(),
    {
        Header { name: self.name.clone(), value: self.value.clone() }
    }

    /// Is the header called `name`, up to ASCII case?
    pub fn is_called(&self, name: &str) -> (b: bool)
        ensures
            b == is_named(self.deep_view(), name@),
    {
        str_eq_ignore_ascii_case(self.name.as_str(), name)
    }
}

/// A copy of `headers`.
pub fn copy_headers(headers: &Vec<Header>) -> (out: Vec<Header>)
    ensures
        out.deep_view() == headers.deep_view(),
{
    let mut out: Vec<Header> = Vec::new();
    let mut i: usize = 0;
    while i < headers.len()
        invariant
            i <= headers.len(),
            out.len() == i,
            forall|j: int| 0 <= j < i ==> (#[trigger] out@[j]).deep_view() == headers@[j].deep_view(),
        decreases headers.len() - i,
    {
        out.push(headers[i].duplicate());
        i = i + 1;
    }
    assert(out.deep_view() =~= headers.deep_view());
    out
}

/// A copy of `headers` without those called `name`.
pub fn remove_header(headers: &Vec<Header>, name: &str) -> (out: Vec<Header>)
    ensures
        out.deep_view() == without_named(headers.deep_view(), name@),
{
    let mut out: Vec<Header> = Vec::new();
    let mut i: usize = 0;
    proof {
        reveal(Seq::filter);
        assert(headers.deep_view().take(0) =~= Seq::<HeaderView>::empty());
        assert(out.deep_view() =~= Seq::<HeaderView>::empty());
    }
    while i < headers.len()
        invariant
            i <= headers.len(),
            out.deep_view() == without_named(headers.deep_view().take(i as int), name@),
        decreases headers.len() - i,
    {
        let ghost before = out.deep_view();
        let ghost seen = headers.deep_view().take(i as int);
        let ghost next = headers.deep_view().take(i + 1);
        proof {
            reveal(Seq::filter);
            assert(next.drop_last() =~= seen);
            assert(next.last() == headers@[i as int].deep_view());
        }
        if !headers[i].is_called(name) {
            out.push(headers[i].duplicate());
            assert(out.deep_view() =~= before.push(headers@[i as int].deep_view()));
        }
        i = i + 1;
    }
    assert(headers.deep_view().take(headers.len() as int) =~= headers.deep_view());
    out
}

/// The value of the first header called `name`.
pub fn header_value<'a>(headers: &'a Vec<Header>, name: &str) -> (value: Option<&'a Vec<u8>>)
    ensures
        match value {
            Some(v) => first_named(headers.deep_view(), name@) == Some(v@),
            None => first_named(headers.deep_view(), name@) is None,
        },
{
    let mut i: usize = 0;
    assert(headers.deep_view().skip(0) =~= headers.deep_view());
    while i < headers.len()
        invariant
            i <= headers.len(),
            first_named(headers.deep_view(), name@) == first_named(
                headers.deep_view().skip(i as int),
                name@,
            ),
        decreases headers.len() - i,
    {
        let ghost rest = headers.deep_view().skip(i as int);
        assert(rest[0] == headers@[i as int].deep_view());
        assert(rest.drop_first() =~= headers.deep_view().skip(i + 1));
        if headers[i].is_called(name) {
            return Some(&headers[i].value);
        }
        i = i + 1;
    }
    None
}

/// An HTTP response: the one a backend gave, or the one the gateway gives.
#[derive(Debug)]
pub struct HttpResponse {
    pub status: u16,
    pub headers: Vec<Header>,
    pub body: Vec<u8>,
}

/// The mathematical form of an `HttpResponse`.
pub ghost struct ResponseView {
    pub status: u16,
    pub headers: Seq<HeaderView>,
    pub body: Seq<u8>,
}

impl DeepView for HttpResponse {
    type V = ResponseView;

    open spec fn deep_view(&self) -> ResponseView {
        ResponseView {
            status: self.status,
            headers: self.headers.deep_view(),
            body: self.body@,
        }
    }
}

/// One request to a backend. The same value serves every attempt at
/// forwarding an inbound request.
#[derive(Debug)]
pub struct ProxyAttempt {
    pub method: String,
    pub uri: String,
    pub headers: Vec<Header>,
    pub body: Vec<u8>,
}

/// The mathematical form of a `ProxyAttempt`.
pub ghost struct AttemptView {
    pub method: Seq<char>,
    pub uri: Seq<char>,
    pub headers: Seq<HeaderView>,
    pub body: Seq<u8>,
}

impl DeepView for ProxyAttempt {
    type V = AttemptView;

    open spec fn deep_view(&self) -> AttemptView {
        AttemptView {
            method: self.method@,
            uri: self.uri@,
            headers: self.headers.deep_view(),
            body: self.body@,
        }
    }
}

} // verus!
