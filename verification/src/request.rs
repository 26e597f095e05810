use vstd::prelude::*;

use crate::client::Transport;
use crate::errors::Error;
use crate::headers::{
    user_agent_header, user_agent_pair, valid_header_name, valid_header_value, HeaderPair,
};

verus! {

/// A character the `http` crate accepts in a request method: the bytes whose
/// entry in its `METHOD_CHARS` table is nonzero. All of them are ASCII.
pub open spec fn method_char_ok(c: char) -> bool {
    ||| c == '!'
    ||| c == '*'
    ||| c == '+'
    ||| c == '-'
    ||| c == '.'
    ||| ('0' as u32 <= c as u32 && c as u32 <= '9' as u32)
    ||| ('A' as u32 <= c as u32 && c as u32 <= 'Z' as u32)
    ||| c == '^'
    ||| c == '_'
    ||| c == '`'
    ||| ('a' as u32 <= c as u32 && c as u32 <= 'z' as u32)
    ||| c == '|'
    ||| c == '~'
}

/// A valid request method: nonempty, every character accepted. Standard
/// methods such as `GET` satisfy this, and so does any extension token.
pub open spec fn valid_method(s: Seq<char>) -> bool {
    &&& s.len() >= 1
    &&& forall|i: int| 0 <= i < s.len() ==> method_char_ok(#[trigger] s[i])
}

/// Whether `http::Uri::from_str` accepts a string as a URI. The URI grammar
/// takes pages to state, so only its name stands here; the result is a
/// function of the characters alone.
pub uninterp spec fn uri_well_formed(s: Seq<char>) -> bool;

/// Relies on `http::Method::from_bytes`: a method parses exactly when it is
/// nonempty and every byte has a nonzero entry in its `METHOD_CHARS` table —
/// the set `method_char_ok` spells out.
#[verifier::external_body]
pub(crate) fn method_ok(s: &str) -> (r: bool)
    ensures
        r == valid_method(s@),
{
    http::Method::from_bytes(s.as_bytes()).is_ok()
}

/// Relies on `http::Uri::from_str`: whether it accepts the string is a
/// function of the characters alone, named `uri_well_formed`.
#[verifier::external_body]
pub(crate) fn uri_ok(s: &str) -> (r: bool)
    ensures
        r == uri_well_formed(s@),
{
    s.parse::<http::Uri>().is_ok()
}

/// The in-progress, immutable-per-step representation of a request being
/// built: method, target URI, and the headers accumulated so far, in call
/// order. A descriptor only exists with a method and a URI the `http` crate
/// accepts.
#[derive(Debug)]
pub struct Descriptor {
    method: String,
    uri: String,
    headers: Vec<HeaderPair>,
}

impl Descriptor {
    #[verifier::type_invariant]
    spec fn wf(self) -> bool {
        valid_method(self.method@) && uri_well_formed(self.uri@)
    }

    pub closed spec fn method_spec(self) -> Seq<char> {
        self.method@
    }

    pub closed spec fn uri_spec(self) -> Seq<char> {
        self.uri@
    }

    pub closed spec fn headers_spec(self) -> Seq<(Seq<char>, Seq<char>)> {
        self.headers@.map_values(|p: HeaderPair| p@)
    }

    /// Validate a method and a URI; the descriptor is built, with no headers
    /// yet, exactly when both pass.
    pub fn new(method: &str, uri: &str) -> (r: Option<Descriptor>)
        ensures
            match r {
                Some(d) => {
                    &&& valid_method(method@)
                    &&& uri_well_formed(uri@)
                    &&& d.method_spec() == method@
                    &&& d.uri_spec() == uri@
                    &&& d.headers_spec() == Seq::<(Seq<char>, Seq<char>)>::empty()
                },
                None => !(valid_method(method@) && uri_well_formed(uri@)),
            },
    {
        if method_ok(method) && uri_ok(uri) {
            let d = Descriptor {
                method: method.to_owned(),
                uri: uri.to_owned(),
                headers: Vec::new(),
            };
            proof {
                assert(d.headers_spec() =~= Seq::<(Seq<char>, Seq<char>)>::empty());
            }
            Some(d)
        } else {
            None
        }
    }

    pub fn method(&self) -> (r: &str)
        ensures
            r@ == self.method_spec(),
    {
        self.method.as_str()
    }

    pub fn uri(&self) -> (r: &str)
        ensures
            r@ == self.uri_spec(),
    {
        self.uri.as_str()
    }
}

/// Accumulates a request configuration around a transport handle. Each
/// configuration call consumes the builder and returns a new one; the
/// terminal finalization consumes it for good, so a builder is never reused
/// after it is spent.
pub struct RequestBuilder {
    client: Transport,
    descriptor: Descriptor,
    error: Option<Error>,
}

impl RequestBuilder {
    pub closed spec fn client_spec(self) -> Transport {
        self.client
    }

    pub closed spec fn method_spec(self) -> Seq<char> {
        self.descriptor.method_spec()
    }

    pub closed spec fn uri_spec(self) -> Seq<char> {
        self.descriptor.uri_spec()
    }

    /// The caller-supplied headers accumulated so far, in call order.
    pub closed spec fn headers_spec(self) -> Seq<(Seq<char>, Seq<char>)> {
        self.descriptor.headers_spec()
    }

    /// The first header conversion failure, if one was recorded; finalization
    /// reports it instead of producing a request.
    pub closed spec fn error_spec(self) -> Option<Error> {
        self.error
    }

    /// Wrap a transport handle and an initial descriptor; no headers beyond
    /// the descriptor's, no recorded failure.
    pub fn new(client: Transport, descriptor: Descriptor) -> (r: RequestBuilder)
        ensures
            r.client_spec() == client,
            r.method_spec() == descriptor.method_spec(),
            r.uri_spec() == descriptor.uri_spec(),
            r.headers_spec() == descriptor.headers_spec(),
            r.error_spec() is None,
    {
        RequestBuilder { client, descriptor, error: None }
    }

    /// Append one header. When both the name and the value validate, the pair
    /// joins the set — duplicate names append rather than replace. When
    /// either fails, the failure is recorded and finalization will report it;
    /// once a failure is recorded, later calls change nothing. Never blocks
    /// and never touches the network.
    pub fn header(self, key: &str, value: &str) -> (r: RequestBuilder)
        ensures
            r.client_spec() == self.client_spec(),
            r.method_spec() == self.method_spec(),
            r.uri_spec() == self.uri_spec(),
            match self.error_spec() {
                Some(e) => r.headers_spec() == self.headers_spec() && r.error_spec() == Some(e),
                None => {
                    if valid_header_name(key@) && valid_header_value(value@) {
                        &&& r.headers_spec() == self.headers_spec().push((key@, value@))
                        &&& r.error_spec() is None
                    } else {
                        &&& r.headers_spec() == self.headers_spec()
                        &&& r.error_spec() == Some(Error::HeaderConversion)
                    }
                },
            },
    {
        if self.error.is_some() {
            return self;
        }
        match HeaderPair::new(key, value) {
            Ok(pair) => {
                let RequestBuilder { client, descriptor, error } = self;
                proof {
                    use_type_invariant(&descriptor);
                }
                let Descriptor { method, uri, mut headers } = descriptor;
                let ghost before = headers@;
                headers.push(pair);
                let descriptor = Descriptor { method, uri, headers };
                proof {
                    assert(descriptor.headers_spec() =~= before.map_values(|p: HeaderPair| p@)
                        .push((key@, value@)));
                }
                RequestBuilder { client, descriptor, error: None }
            },
            Err(e) => RequestBuilder { client: self.client, descriptor: self.descriptor, error: Some(e) },
        }
    }

    /// Finalize the configuration: append the identifying header after all
    /// caller headers, fix the empty body, and hand the result back with the
    /// transport handle, ready for dispatch. A recorded header failure is
    /// reported here instead, and no request is produced.
    pub fn finalize(self) -> (r: (Transport, Result<FinalRequest, Error>))
        ensures
            r.0 == self.client_spec(),
            match self.error_spec() {
                Some(e) => r.1 == Err::<FinalRequest, Error>(e),
                None => match r.1 {
                    Ok(req) => {
                        &&& req.method_spec() == self.method_spec()
                        &&& req.uri_spec() == self.uri_spec()
                        &&& req.headers_spec() == finalized_headers(self.headers_spec())
                        &&& req.body_spec() == Seq::<u8>::empty()
                    },
                    Err(_) => false,
                },
            },
    {
        let RequestBuilder { client, descriptor, error } = self;
        match error {
            Some(e) => (client, Err(e)),
            None => {
                proof {
                    use_type_invariant(&descriptor);
                }
                let Descriptor { method, uri, mut headers } = descriptor;
                let ghost before = headers@;
                headers.push(user_agent_pair());
                let req = FinalRequest { method, uri, headers, body: Vec::new() };
                proof {
                    assert(req.headers_spec() =~= finalized_headers(
                        before.map_values(|p: HeaderPair| p@),
                    ));
                    assert(req.body_spec() =~= Seq::<u8>::empty());
                }
                (client, Ok(req))
            },
        }
    }
}

/// A finalized request: the descriptor's method and URI, every caller header
/// in call order, the identifying header after all of them, and the fixed
/// empty body. This is exactly what is handed to the transport.
#[derive(Debug)]
pub struct FinalRequest {
    method: String,
    uri: String,
    headers: Vec<HeaderPair>,
    body: Vec<u8>,
}

impl FinalRequest {
    #[verifier::type_invariant]
    spec fn wf(self) -> bool {
        valid_method(self.method@) && uri_well_formed(self.uri@)
    }

    pub closed spec fn method_spec(self) -> Seq<char> {
        self.method@
    }

    pub closed spec fn uri_spec(self) -> Seq<char> {
        self.uri@
    }

    pub closed spec fn headers_spec(self) -> Seq<(Seq<char>, Seq<char>)> {
        self.headers@.map_values(|p: HeaderPair| p@)
    }

    pub closed spec fn body_spec(self) -> Seq<u8> {
        self.body@
    }

    pub fn method(&self) -> (r: &str)
        ensures
            r@ == self.method_spec(),
    {
        self.method.as_str()
    }

    pub fn uri(&self) -> (r: &str)
        ensures
            r@ == self.uri_spec(),
    {
        self.uri.as_str()
    }

    pub fn headers(&self) -> (r: &Vec<HeaderPair>)
        ensures
            r@.map_values(|p: HeaderPair| p@) == self.headers_spec(),
    {
        &self.headers
    }

    pub fn body(&self) -> (r: &Vec<u8>)
        ensures
            r@ == self.body_spec(),
    {
        &self.body
    }
}

/// What finalization does to the accumulated header sequence: the identifying
/// header goes after every caller-supplied pair.
pub open spec fn finalized_headers(hs: Seq<(Seq<char>, Seq<char>)>) -> Seq<(Seq<char>, Seq<char>)> {
    hs.push(user_agent_header())
}

/// Law: the finalized header sequence keeps every supplied pair at its
/// position, in call order, and the identifying header stands after all of
/// them.
pub proof fn lemma_finalized_headers_order(hs: Seq<(Seq<char>, Seq<char>)>)
    ensures
        finalized_headers(hs).len() == hs.len() + 1,
        forall|i: int| 0 <= i < hs.len() ==> finalized_headers(hs)[i] == hs[i],
        finalized_headers(hs)[hs.len() as int] == user_agent_header(),
{
}

/// Law: the finalized header set is a strict superset of the caller-supplied
/// set — every supplied pair is kept, the identifying header is included, and
/// the set grew.
pub proof fn lemma_finalized_headers_superset(hs: Seq<(Seq<char>, Seq<char>)>)
    ensures
        forall|p: (Seq<char>, Seq<char>)| hs.contains(p) ==> finalized_headers(hs).contains(p),
        finalized_headers(hs).contains(user_agent_header()),
        finalized_headers(hs).len() > hs.len(),
{
    assert forall|p: (Seq<char>, Seq<char>)| hs.contains(p) implies finalized_headers(hs).contains(
        p,
    ) by {
        let i = choose|i: int| 0 <= i < hs.len() && hs[i] == p;
        assert(finalized_headers(hs)[i] == p);
    }
    assert(finalized_headers(hs)[hs.len() as int] == user_agent_header());
}

/// Classify what came back from the transport: a delivered response is handed
/// on unchanged, and a transport failure — whatever its cause — yields the
/// request error and nothing else, never a partial response.
pub fn interpret_dispatch<R>(outcome: Option<R>) -> (r: Result<R, Error>)
    ensures
        match outcome {
            Some(resp) => r == Ok::<R, Error>(resp),
            None => r == Err::<R, Error>(Error::Request),
        },
{
    match outcome {
        Some(resp) => Ok(resp),
        None => Err(Error::Request),
    }
}

} // verus!
