//! A model of the transport response as the pagination engine reads it: an
//! ordered collection of protocol-level header fields plus a typed body.
//!
//! Decoding a wire payload into the typed body happens outside the engine;
//! the engine only inspects headers (to extract a continuation) and forwards
//! the body downstream.

use vstd::prelude::*;

use crate::pager::{Page, PagerResult};

verus! {

/// The first value recorded under the given field name, if any.
pub open spec fn spec_lookup(entries: Seq<(String, String)>, name: Seq<char>) -> Option<String>
    decreases entries.len(),
{
    if entries.len() == 0 {
        None
    } else if entries.first().0@ == name {
        Some(entries.first().1)
    } else {
        spec_lookup(entries.drop_first(), name)
    }
}

/// An ordered collection of named protocol-level fields, such as transport
/// headers.
pub struct Headers {
    entries: Vec<(String, String)>,
}

impl Headers {
    /// The recorded fields, in order.
    pub closed spec fn spec_entries(&self) -> Seq<(String, String)> {
        self.entries@
    }

    /// Creates a header collection from name-value pairs, keeping their
    /// order.
    pub fn from_entries(entries: Vec<(String, String)>) -> (r: Self)
        ensures
            r.spec_entries() == entries@,
    {
        Headers { entries }
    }

    /// Creates an empty header collection.
    pub fn new() -> (r: Self)
        ensures
            r.spec_entries().len() == 0,
    {
        Headers { entries: Vec::new() }
    }

    /// Returns the first value recorded under `name`, if any, as an owned
    /// string.
    pub fn get_optional_string(&self, name: &String) -> (r: Option<String>)
        ensures
            r == spec_lookup(self.spec_entries(), name@),
    {
        let ghost all = self.entries@;
        let n = self.entries.len();
        proof {
            assert(all.skip(0) =~= all);
        }
        for i in 0..n
            invariant
                n == all.len(),
                self.entries@ == all,
                spec_lookup(all, name@) == spec_lookup(all.skip(i as int), name@),
        {
            let pair: &(String, String) = &self.entries[i];
            proof {
                assert(all.skip(i as int).first() == all[i as int]);
                assert(all.skip(i as int).drop_first() =~= all.skip(i as int + 1));
            }
            if pair.0.eq(name) {
                return Some(pair.1.clone());
            }
        }
        proof {
            assert(all.skip(n as int) =~= Seq::<(String, String)>::empty());
        }
        None
    }
}

/// One server response: protocol-level headers plus a typed body.
pub struct Response<P> {
    headers: Headers,
    body: P,
}

impl<P> Response<P> {
    /// The headers attached to the response.
    pub closed spec fn spec_headers(&self) -> Headers {
        self.headers
    }

    /// The typed body carried by the response.
    pub closed spec fn spec_body(&self) -> P {
        self.body
    }

    /// Creates a response from headers and an already-decoded body.
    pub fn new(headers: Headers, body: P) -> (r: Self)
        ensures
            r.spec_headers() == headers,
            r.spec_body() == body,
    {
        Response { headers, body }
    }

    /// Borrows the headers of the response.
    pub fn headers(&self) -> (r: &Headers)
        ensures
            r == self.spec_headers(),
    {
        &self.headers
    }

    /// Consumes the response and returns its body.
    pub fn into_body(self) -> (r: P)
        ensures
            r == self.spec_body(),
    {
        let Response { headers: _, body } = self;
        body
    }
}

/// A response whose body can yield items is itself a page: extraction
/// forwards to the body. This is the only place where the transport-shaped
/// response and the pagination engine meet.
impl<P: Page> Page for Response<P> {
    type Item = P::Item;

    fn into_items(self) -> Result<Vec<P::Item>, crate::error::Error> {
        let Response { headers: _, body } = self;
        body.into_items()
    }
}

impl<P> PagerResult<Response<P>, String> {
    /// Creates a [`PagerResult`] from the provided response, extracting the
    /// continuation value from the named header.
    ///
    /// If the response has a header with the matching name, this returns
    /// `More`, using the header's value as the continuation; otherwise it
    /// returns `Done`. Either way the response itself is carried along.
    pub fn from_response_header(response: Response<P>, header_name: &String) -> (r: Self)
        ensures
            (match spec_lookup(response.spec_headers().spec_entries(), header_name@) {
                Some(v) => r == (PagerResult::More::<Response<P>, String> { response, next: v }),
                None => r == (PagerResult::Done::<Response<P>, String> { response }),
            }),
    {
        match response.headers().get_optional_string(header_name) {
            Some(next) => PagerResult::More { response, next },
            None => PagerResult::Done { response },
        }
    }
}

} // verus!
