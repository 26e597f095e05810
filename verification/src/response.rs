use vstd::prelude::*;

use crate::errors::Error;
use crate::headers::HeaderPair;

verus! {

/// A response body as the transport will deliver it. The body is owned
/// exclusively and draining consumes it, so it is drained at most once;
/// there is no way back from a drained body.
#[derive(Debug)]
pub enum ResponseBody {
    /// The transport delivers these chunks, in order, and ends the body
    /// cleanly.
    Chunked(Vec<Vec<u8>>),
    /// The transport fails partway through the body; draining reports the
    /// read failure instead of a buffer.
    Broken,
}

impl ResponseBody {
    /// What a full drain of this body yields: every delivered chunk
    /// concatenated into one contiguous byte sequence, or nothing when the
    /// stream breaks.
    pub open spec fn drained(self) -> Option<Seq<u8>> {
        match self {
            ResponseBody::Chunked(chunks) => Some(chunks.deep_view().flatten()),
            ResponseBody::Broken => None,
        }
    }
}

/// Concatenate delivered body chunks into one contiguous buffer, in order.
/// The result depends only on the concatenation, never on how the transport
/// split the body.
pub fn concat_chunks(chunks: Vec<Vec<u8>>) -> (r: Vec<u8>)
    ensures
        r@ == chunks.deep_view().flatten(),
{
    broadcast use vstd::seq_lib::group_seq_properties;

    let mut buf: Vec<u8> = Vec::new();
    let mut i: usize = 0;
    while i < chunks.len()
        invariant
            i <= chunks.len(),
            buf@ == chunks.deep_view().take(i as int).flatten(),
        decreases chunks.len() - i,
    {
        let ghost done = chunks.deep_view().take(i as int);
        let chunk = &chunks[i];
        let mut j: usize = 0;
        while j < chunk.len()
            invariant
                j <= chunk.len(),
                buf@ == done.flatten() + chunk@.take(j as int),
            decreases chunk.len() - j,
        {
            buf.push(chunk[j]);
            proof {
                assert(chunk@.take(j + 1 as int) =~= chunk@.take(j as int).push(chunk@[j as int]));
                assert(buf@ =~= done.flatten() + chunk@.take(j + 1 as int));
            }
            j += 1;
        }
        proof {
            done.lemma_flatten_push(chunk@);
            assert(chunk@.take(chunk@.len() as int) =~= chunk@);
            assert(chunks.deep_view()[i as int] =~= chunk@);
            assert(chunks.deep_view().take(i as int + 1) =~= done.push(chunk@));
        }
        i += 1;
    }
    proof {
        assert(chunks.deep_view().take(chunks@.len() as int) =~= chunks.deep_view());
    }
    buf
}

/// A resolved response: status, headers, and the still-unconsumed body
/// handle.
#[derive(Debug)]
pub struct Response {
    status: u16,
    headers: Vec<HeaderPair>,
    body: ResponseBody,
}

impl Response {
    pub closed spec fn status_spec(self) -> u16 {
        self.status
    }

    pub closed spec fn headers_spec(self) -> Seq<(Seq<char>, Seq<char>)> {
        self.headers@.map_values(|p: HeaderPair| p@)
    }

    pub closed spec fn body_spec(self) -> ResponseBody {
        self.body
    }

    pub fn new(status: u16, headers: Vec<HeaderPair>, body: ResponseBody) -> (r: Response)
        ensures
            r.status_spec() == status,
            r.headers_spec() == headers@.map_values(|p: HeaderPair| p@),
            r.body_spec() == body,
            r.drained() == body.drained(),
    {
        Response { status, headers, body }
    }

    pub fn status(&self) -> (r: u16)
        ensures
            r == self.status_spec(),
    {
        self.status
    }

    pub fn headers(&self) -> (r: &Vec<HeaderPair>)
        ensures
            r@.map_values(|p: HeaderPair| p@) == self.headers_spec(),
    {
        &self.headers
    }
}

/// The capability of draining a response's body, for any response value
/// whose body can be consumed into a contiguous buffer. Draining takes the
/// response by value: the body is exclusively owned, a drain is one-shot, and
/// no second read exists.
pub trait ResponseExt: Sized {
    /// The bytes a full drain of this value's body yields, or nothing when
    /// draining fails partway.
    spec fn drained(self) -> Option<Seq<u8>>;

    /// Consume the response and accumulate its whole body into one
    /// contiguous buffer, however the transport chunked it; a read failure
    /// during the drain is reported as the body-read error.
    fn bytes(self) -> (r: Result<Vec<u8>, Error>)
        ensures
            match self.drained() {
                Some(s) => r matches Ok(buf) && buf@ == s,
                None => r == Err::<Vec<u8>, Error>(Error::BodyRead),
            },
    ;
}

impl ResponseExt for Response {
    closed spec fn drained(self) -> Option<Seq<u8>> {
        self.body.drained()
    }

    fn bytes(self) -> (r: Result<Vec<u8>, Error>) {
        match self.body {
            ResponseBody::Chunked(chunks) => Ok(concat_chunks(chunks)),
            ResponseBody::Broken => Err(Error::BodyRead),
        }
    }
}

/// Law: what a drain yields depends only on the concatenation of the
/// delivered chunks, never on how the transport split them.
pub proof fn lemma_drain_ignores_chunking(b1: ResponseBody, b2: ResponseBody)
    requires
        b1 is Chunked,
        b2 is Chunked,
        b1->0.deep_view().flatten() == b2->0.deep_view().flatten(),
    ensures
        b1.drained() == b2.drained(),
{
}

/// Classify what the codec handed back for the drained bytes: a decoded
/// value is handed on unchanged, and a codec failure yields the decode error
/// carrying the codec's own diagnostic message.
pub fn decode_outcome<T>(parsed: Result<T, String>) -> (r: Result<T, Error>)
    ensures
        match parsed {
            Ok(v) => r == Ok::<T, Error>(v),
            Err(m) => r == Err::<T, Error>(Error::Decode(m)),
        },
{
    match parsed {
        Ok(v) => Ok(v),
        Err(m) => Err(Error::Decode(m)),
    }
}

} // verus!
