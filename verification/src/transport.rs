//! The values that cross the HTTP seam: one request out, one response back.

use vstd::prelude::*;

use crate::text::{chars_eq_ignore_ascii_case, eq_ignore_ascii_case, str_chars};

verus! {

/// The value of the first header, from position `from` on, whose name matches `name`
/// ignoring ASCII case.
pub open spec fn header_lookup(headers: Seq<(String, String)>, name: Seq<char>, from: int) -> Option<
    Seq<char>,
>
    decreases headers.len() - from,
{
    if from < 0 || from >= headers.len() {
        None
    } else if eq_ignore_ascii_case(headers[from].0@, name) {
        Some(headers[from].1@)
    } else {
        header_lookup(headers, name, from + 1)
    }
}

/// The first header of `headers` matching `name`, compared case-insensitively.
fn find_header<'a>(headers: &'a Vec<(String, String)>, name: &str) -> (r: Option<&'a str>)
    ensures
        match r {
            Some(value) => header_lookup(headers@, name@, 0) == Some(value@),
            None => header_lookup(headers@, name@, 0) is None,
        },
{
    let wanted = str_chars(name);
    let mut i: usize = 0;
    while i < headers.len()
        invariant
            i <= headers@.len(),
            wanted@ == name@,
            header_lookup(headers@, name@, 0) == header_lookup(headers@, name@, i as int),
        decreases headers.len() - i,
    {
        let key = str_chars(headers[i].0.as_str());
        if chars_eq_ignore_ascii_case(key.as_slice(), wanted.as_slice()) {
            return Some(headers[i].1.as_str());
        }
        i = i + 1;
    }
    None
}

/// One outgoing HTTP request.
#[derive(Debug, Clone)]
pub struct HttpRequest {
    /// Always `POST` today.
    pub method: &'static str,
    /// The fully resolved URL, query string included.
    pub url: String,
    /// Header name/value pairs, in the order the client set them.
    pub headers: Vec<(String, String)>,
    /// The request body.
    pub body: Vec<u8>,
}

impl HttpRequest {
    /// The first header matching `name`, compared case-insensitively.
    pub fn header(&self, name: &str) -> (r: Option<&str>)
        ensures
            match r {
                Some(value) => header_lookup(self.headers@, name@, 0) == Some(value@),
                None => header_lookup(self.headers@, name@, 0) is None,
            },
    {
        find_header(&self.headers, name)
    }
}

/// One HTTP response, including a non-2xx one.
///
/// A transport must return a response for any status the server produced; only a failure
/// to *get* a response is a transport error.
#[derive(Debug, Clone)]
pub struct HttpResponse {
    /// The HTTP status code.
    pub status: u16,
    /// Header name/value pairs.
    pub headers: Vec<(String, String)>,
    /// The response body.
    pub body: Vec<u8>,
}

impl HttpResponse {
    /// The first header matching `name`, compared case-insensitively.
    ///
    /// Case-insensitive because it has to be: the gateway sets `X-LZ-Request-Id` but CORS
    /// exposes it as `X-LZ-Request-ID`.
    pub fn header(&self, name: &str) -> (r: Option<&str>)
        ensures
            match r {
                Some(value) => header_lookup(self.headers@, name@, 0) == Some(value@),
                None => header_lookup(self.headers@, name@, 0) is None,
            },
    {
        find_header(&self.headers, name)
    }
}

/// A header lookup does not depend on the ASCII case of the name asked for.
pub proof fn lemma_header_lookup_ignores_case(
    headers: Seq<(String, String)>,
    a: Seq<char>,
    b: Seq<char>,
    from: int,
)
    requires
        eq_ignore_ascii_case(a, b),
    ensures
        header_lookup(headers, a, from) == header_lookup(headers, b, from),
    decreases headers.len() - from,
{
    if 0 <= from < headers.len() {
        lemma_header_lookup_ignores_case(headers, a, b, from + 1);
    }
}

/// A header lookup finds the first matching header, and only a header whose name
/// matches.
pub proof fn lemma_header_lookup_first(headers: Seq<(String, String)>, name: Seq<char>, from: int)
    requires
        0 <= from,
    ensures
        match header_lookup(headers, name, from) {
            Some(v) => exists|i: int|
                from <= i < headers.len() && eq_ignore_ascii_case(#[trigger] headers[i].0@, name)
                    && headers[i].1@ == v && forall|j: int|
                    from <= j < i ==> !eq_ignore_ascii_case(#[trigger] headers[j].0@, name),
            None => forall|j: int|
                from <= j < headers.len() ==> !eq_ignore_ascii_case(#[trigger] headers[j].0@, name),
        },
    decreases headers.len() - from,
{
    if from < headers.len() {
        lemma_header_lookup_first(headers, name, from + 1);
        if !eq_ignore_ascii_case(headers[from].0@, name) {
            match header_lookup(headers, name, from + 1) {
                Some(v) => {
                    let i = choose|i: int|
                        from + 1 <= i < headers.len() && eq_ignore_ascii_case(
                            #[trigger] headers[i].0@,
                            name,
                        ) && headers[i].1@ == v && forall|j: int|
                            from + 1 <= j < i ==> !eq_ignore_ascii_case(
                                #[trigger] headers[j].0@,
                                name,
                            );
                    assert(from <= i < headers.len() && eq_ignore_ascii_case(headers[i].0@, name)
                        && headers[i].1@ == v);
                },
                None => {},
            }
        } else {
            assert(eq_ignore_ascii_case(headers[from].0@, name));
        }
    }
}

} // verus!
