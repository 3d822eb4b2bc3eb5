//! The cross-origin stage that runs on every response: it stamps four
//! permissive cross-origin headers and answers preflight requests with 200.

use vstd::prelude::*;

verus! {

/// HTTP request methods.
#[derive(Clone, Copy, Debug, PartialEq, Eq, Structural)]
pub enum Method {
    Get,
    Put,
    Post,
    Delete,
    Options,
    Head,
    Trace,
    Connect,
    Patch,
}

/// One response header.
#[derive(Clone, Debug, PartialEq, Eq)]
pub struct Header {
    pub name: String,
    pub value: String,
}

/// The parts of an outgoing response that the stage reads and writes.
#[derive(Clone, Debug, PartialEq, Eq)]
pub struct Response {
    pub status: u16,
    pub headers: Vec<Header>,
}

/// A header as a name and a value.
pub type HeaderView = (Seq<char>, Seq<char>);

pub struct ResponseView {
    pub status: u16,
    pub headers: Seq<HeaderView>,
}

pub open spec fn header_pairs(hs: Seq<Header>) -> Seq<HeaderView> {
    hs.map_values(|h: Header| (h.name@, h.value@))
}

impl View for Response {
    type V = ResponseView;

    open spec fn view(&self) -> ResponseView {
        ResponseView { status: self.status, headers: header_pairs(self.headers@) }
    }
}

/// The headers without those named `name`, in their order.
pub open spec fn without_named(hs: Seq<HeaderView>, name: Seq<char>) -> Seq<HeaderView>
    decreases hs.len(),
{
    if hs.len() == 0 {
        hs
    } else {
        let rest = without_named(hs.drop_last(), name);
        if hs.last().0 == name {
            rest
        } else {
            rest.push(hs.last())
        }
    }
}

/// The headers after setting `name` to `value`: any earlier header of that
/// name is replaced.
pub open spec fn with_header(hs: Seq<HeaderView>, name: Seq<char>, value: Seq<char>) -> Seq<
    HeaderView,
> {
    without_named(hs, name).push((name, value))
}

/// The value of the last header named `name`, if there is one.
pub open spec fn header_value(hs: Seq<HeaderView>, name: Seq<char>) -> Option<Seq<char>>
    decreases hs.len(),
{
    if hs.len() == 0 {
        None
    } else if hs.last().0 == name {
        Some(hs.last().1)
    } else {
        header_value(hs.drop_last(), name)
    }
}

impl Response {
    /// Sets a header, replacing every header of the same name.
    pub fn set_header(&mut self, name: &str, value: &str)
        ensures
            final(self)@.status == old(self)@.status,
            final(self)@.headers == with_header(old(self)@.headers, name@, value@),
    {
        let n = name.to_owned();
        let mut kept: Vec<Header> = Vec::new();
        let mut i: usize = 0;
        while i < self.headers.len()
            invariant
                i <= self.headers@.len(),
                n@ == name@,
                header_pairs(kept@) == without_named(header_pairs(self.headers@.take(i as int)), name@),
            decreases self.headers@.len() - i,
        {
            let h = &self.headers[i];
            proof {
                let pre = self.headers@.take(i as int);
                let post = self.headers@.take(i + 1);
                assert(post.drop_last() =~= pre);
                assert(header_pairs(post).drop_last() =~= header_pairs(pre));
            }
            if !(h.name == n) {
                let copy = Header { name: h.name.clone(), value: h.value.clone() };
                let ghost before = kept@;
                kept.push(copy);
                proof {
                    assert(header_pairs(kept@) =~= header_pairs(before).push((h.name@, h.value@)));
                }
            }
            i = i + 1;
        }
        assert(self.headers@.take(i as int) =~= self.headers@);
        let v = value.to_owned();
        kept.push(Header { name: n, value: v });
        self.headers = kept;
    }
}

pub open spec fn allow_origin() -> Seq<char> {
    "Access-Control-Allow-Origin"@
}

pub open spec fn allow_methods() -> Seq<char> {
    "Access-Control-Allow-Methods"@
}

pub open spec fn allow_headers() -> Seq<char> {
    "Access-Control-Allow-Headers"@
}

pub open spec fn allow_credentials() -> Seq<char> {
    "Access-Control-Allow-Credentials"@
}

pub open spec fn any_origin() -> Seq<char> {
    "*"@
}

pub open spec fn allowed_methods() -> Seq<char> {
    "POST, PUT, GET, PATCH, OPTIONS, DELETE"@
}

pub open spec fn allowed_headers() -> Seq<char> {
    "Origin, Authorization, Content-Type, Accept, Authorization"@
}

pub open spec fn credentials_allowed() -> Seq<char> {
    "true"@
}

/// A response after the cross-origin stage has run on it for a request of
/// method `m`.
pub open spec fn cors_applied(r: ResponseView, m: Method) -> ResponseView {
    let h1 = with_header(r.headers, allow_origin(), any_origin());
    let h2 = with_header(h1, allow_methods(), allowed_methods());
    let h3 = with_header(h2, allow_headers(), allowed_headers());
    let h4 = with_header(h3, allow_credentials(), credentials_allowed());
    ResponseView { status: if m == Method::Options { 200 } else { r.status }, headers: h4 }
}

/// The cross-origin response stage.
pub struct CORS;

impl CORS {
    /// Runs on every response, whatever the route and the status: sets the
    /// four cross-origin headers, and answers a preflight (`OPTIONS`) request
    /// with 200.
    pub fn on_response(&self, method: Method, response: &mut Response)
        ensures
            final(response)@ == cors_applied(old(response)@, method),
    {
        response.set_header("Access-Control-Allow-Origin", "*");
        response.set_header("Access-Control-Allow-Methods", "POST, PUT, GET, PATCH, OPTIONS, DELETE");
        response.set_header(
            "Access-Control-Allow-Headers",
            "Origin, Authorization, Content-Type, Accept, Authorization",
        );
        response.set_header("Access-Control-Allow-Credentials", "true");
        if method == Method::Options {
            response.status = 200;
        }
    }
}

/// Dropping the headers named `n` leaves the value of every other name.
pub proof fn lemma_without_keeps_others(hs: Seq<HeaderView>, n: Seq<char>, m: Seq<char>)
    requires
        m != n,
    ensures
        header_value(without_named(hs, n), m) == header_value(hs, m),
    decreases hs.len(),
{
    if hs.len() > 0 {
        lemma_without_keeps_others(hs.drop_last(), n, m);
        let rest = without_named(hs.drop_last(), n);
        if hs.last().0 != n {
            assert(rest.push(hs.last()).drop_last() =~= rest);
        }
    }
}

/// Setting a header gives it the new value and leaves every other name's.
pub proof fn lemma_with_header_value(hs: Seq<HeaderView>, n: Seq<char>, v: Seq<char>, m: Seq<char>)
    ensures
        header_value(with_header(hs, n, v), m) == if m == n {
            Some(v)
        } else {
            header_value(hs, m)
        },
{
    let w = without_named(hs, n);
    assert(w.push((n, v)).drop_last() =~= w);
    if m != n {
        lemma_without_keeps_others(hs, n, m);
    }
}

/// Every response leaves the cross-origin stage with the four cross-origin
/// headers and their values, whatever its route and status; a preflight
/// (`OPTIONS`) response leaves it with status 200, any other keeps its status.
pub proof fn lemma_cross_origin_on_every_response(r: ResponseView, m: Method)
    ensures
        header_value(cors_applied(r, m).headers, allow_origin()) == Some(any_origin()),
        header_value(cors_applied(r, m).headers, allow_methods()) == Some(allowed_methods()),
        header_value(cors_applied(r, m).headers, allow_headers()) == Some(allowed_headers()),
        header_value(cors_applied(r, m).headers, allow_credentials()) == Some(credentials_allowed()),
        m == Method::Options ==> cors_applied(r, m).status == 200,
        m != Method::Options ==> cors_applied(r, m).status == r.status,
{
    reveal_strlit("Access-Control-Allow-Origin");
    reveal_strlit("Access-Control-Allow-Methods");
    reveal_strlit("Access-Control-Allow-Headers");
    reveal_strlit("Access-Control-Allow-Credentials");
    assert(allow_origin() != allow_methods()) by {
        assert(allow_origin().len() != allow_methods().len());
    }
    assert(allow_origin() != allow_headers()) by {
        assert(allow_origin().len() != allow_headers().len());
    }
    assert(allow_origin() != allow_credentials()) by {
        assert(allow_origin().len() != allow_credentials().len());
    }
    assert(allow_methods() != allow_headers()) by {
        assert(allow_methods()[21] != allow_headers()[21]);
    }
    assert(allow_methods() != allow_credentials()) by {
        assert(allow_methods().len() != allow_credentials().len());
    }
    assert(allow_headers() != allow_credentials()) by {
        assert(allow_headers().len() != allow_credentials().len());
    }
    let h1 = with_header(r.headers, allow_origin(), any_origin());
    let h2 = with_header(h1, allow_methods(), allowed_methods());
    let h3 = with_header(h2, allow_headers(), allowed_headers());
    let h4 = with_header(h3, allow_credentials(), credentials_allowed());
    lemma_with_header_value(r.headers, allow_origin(), any_origin(), allow_origin());
    lemma_with_header_value(h1, allow_methods(), allowed_methods(), allow_origin());
    lemma_with_header_value(h1, allow_methods(), allowed_methods(), allow_methods());
    lemma_with_header_value(h2, allow_headers(), allowed_headers(), allow_origin());
    lemma_with_header_value(h2, allow_headers(), allowed_headers(), allow_methods());
    lemma_with_header_value(h2, allow_headers(), allowed_headers(), allow_headers());
    lemma_with_header_value(h3, allow_credentials(), credentials_allowed(), allow_origin());
    lemma_with_header_value(h3, allow_credentials(), credentials_allowed(), allow_methods());
    lemma_with_header_value(h3, allow_credentials(), credentials_allowed(), allow_headers());
    lemma_with_header_value(h3, allow_credentials(), credentials_allowed(), allow_credentials());
}

} // verus!
