//! The response as this layer shapes it: the head passes through unchanged,
//! and the raw payload is wrapped in one uniform body transform — a decoder
//! keyed by the response's declared content encoding, or the identity
//! transform — so callers see a single body type whichever branch was taken.

use vstd::prelude::*;

use crate::header::{
    bytes_eq, content_encoding, spec_content_encoding_name, HeaderMap, HeaderValue,
};

verus! {

/// A content encoding this layer recognizes; anything else is treated as
/// identity.
#[derive(Debug, Clone, Copy, PartialEq, Eq, Structural)]
pub enum ContentEncoding {
    Identity,
    Gzip,
    Deflate,
    Br,
}

/// The `gzip` token in ASCII.
pub open spec fn spec_gzip_token() -> Seq<u8> {
    seq![103u8, 122, 105, 112]
}

/// The `deflate` token in ASCII.
pub open spec fn spec_deflate_token() -> Seq<u8> {
    seq![100u8, 101, 102, 108, 97, 116, 101]
}

/// The `br` token in ASCII.
pub open spec fn spec_br_token() -> Seq<u8> {
    seq![98u8, 114]
}

/// The encoding a header value declares: one of the recognized tokens, or
/// identity for anything else.
pub open spec fn spec_encoding_of(v: Seq<u8>) -> ContentEncoding {
    if v == spec_gzip_token() {
        ContentEncoding::Gzip
    } else if v == spec_deflate_token() {
        ContentEncoding::Deflate
    } else if v == spec_br_token() {
        ContentEncoding::Br
    } else {
        ContentEncoding::Identity
    }
}

/// The encoding a response's headers declare: the one named by the
/// content-encoding header, or identity when that header is absent.
pub open spec fn spec_selected_encoding(headers: Map<Seq<u8>, Seq<u8>>) -> ContentEncoding {
    if headers.contains_key(spec_content_encoding_name()) {
        spec_encoding_of(headers[spec_content_encoding_name()])
    } else {
        ContentEncoding::Identity
    }
}

/// The encoding a single header value declares.
pub fn encoding_of(v: &HeaderValue) -> (r: ContentEncoding)
    ensures
        r == spec_encoding_of(v@),
{
    let gzip: Vec<u8> = vec![103u8, 122, 105, 112];
    let deflate: Vec<u8> = vec![100u8, 101, 102, 108, 97, 116, 101];
    let br: Vec<u8> = vec![98u8, 114];
    proof {
        assert(gzip@ =~= spec_gzip_token());
        assert(deflate@ =~= spec_deflate_token());
        assert(br@ =~= spec_br_token());
    }
    if bytes_eq(v.as_bytes(), gzip.as_slice()) {
        ContentEncoding::Gzip
    } else if bytes_eq(v.as_bytes(), deflate.as_slice()) {
        ContentEncoding::Deflate
    } else if bytes_eq(v.as_bytes(), br.as_slice()) {
        ContentEncoding::Br
    } else {
        ContentEncoding::Identity
    }
}

/// The raw response body as the transport hands it over.
#[derive(Debug)]
pub struct Payload {
    pub data: Vec<u8>,
}

/// The status line and headers of a response; this layer reads the headers to
/// select a decoder and otherwise passes everything through unchanged.
#[derive(Debug)]
pub struct ResponseHead {
    pub status: u16,
    pub headers: HeaderMap,
}

impl ResponseHead {
    /// The head's header map is well formed.
    pub open spec fn wf(&self) -> bool {
        self.headers.wf()
    }
}

/// A response from the transport, parameterized by its body representation.
#[derive(Debug)]
pub struct ClientResponse<P> {
    pub head: ResponseHead,
    pub payload: P,
}

/// The uniform body wrapper: a decoding transform keyed by a content
/// encoding. With the identity encoding it passes bytes through unchanged.
#[derive(Debug)]
pub struct Decoder {
    pub encoding: ContentEncoding,
    pub inner: Payload,
}

impl Decoder {
    /// The decoder selected by inspecting the response's content-encoding
    /// header: absent or unrecognized means identity.
    pub fn from_headers(payload: Payload, headers: &HeaderMap) -> (r: Decoder)
        requires
            headers.wf(),
        ensures
            r.encoding == spec_selected_encoding(headers@),
            r.inner == payload,
    {
        let name = content_encoding();
        match headers.get(&name) {
            Some(v) => Decoder { encoding: encoding_of(v), inner: payload },
            None => Decoder { encoding: ContentEncoding::Identity, inner: payload },
        }
    }

    /// The forced identity transform, used when decompression is disabled.
    pub fn identity(payload: Payload) -> (r: Decoder)
        ensures
            r.encoding == ContentEncoding::Identity,
            r.inner == payload,
    {
        Decoder { encoding: ContentEncoding::Identity, inner: payload }
    }
}

} // verus!
