//! The request head in its two ownership modes: exclusively owned and fully
//! mutable, or a shared immutable base plus a private overlay of additional
//! headers that is created lazily on first write. Writes only ever touch the
//! owned layer; lookups consult both layers.

use vstd::prelude::*;

use std::rc::Rc;

use crate::error::HttpError;
use crate::header::{wf_value, HeaderMap, HeaderName, HeaderValue};

verus! {

/// The metadata of one outgoing request, distinct from its body.
#[derive(Debug)]
pub struct RequestHead {
    pub method: String,
    pub uri: String,
    pub headers: HeaderMap,
}

/// What a request head abstractly is: its method and URL as character
/// sequences and its headers as a map.
#[verifier::ext_equal]
pub struct HeadFields {
    pub method: Seq<char>,
    pub uri: Seq<char>,
    pub headers: Map<Seq<u8>, Seq<u8>>,
}

impl View for RequestHead {
    type V = HeadFields;

    open spec fn view(&self) -> HeadFields {
        HeadFields { method: self.method@, uri: self.uri@, headers: self.headers@ }
    }
}

impl RequestHead {
    /// The head's header map is well formed.
    pub open spec fn wf(&self) -> bool {
        self.headers.wf()
    }

    /// A head with no headers yet.
    pub fn new(method: String, uri: String) -> (r: RequestHead)
        ensures
            r.wf(),
            r@.method == method@,
            r@.uri == uri@,
            r@.headers == Map::<Seq<u8>, Seq<u8>>::empty(),
    {
        RequestHead { method, uri, headers: HeaderMap::new() }
    }
}

/// A request head in one of the two ownership modes. The shared base is never
/// mutated; a header set on a shared head goes into the private overlay.
#[derive(Debug)]
pub enum RequestHeadType {
    Owned(RequestHead),
    Rc(Rc<RequestHead>, Option<HeaderMap>),
}

/// The abstract state of a request head of either mode.
#[verifier::ext_equal]
pub enum HeadView {
    Owned { head: HeadFields },
    Shared { base: HeadFields, overlay: Option<Map<Seq<u8>, Seq<u8>>> },
}

impl View for RequestHeadType {
    type V = HeadView;

    open spec fn view(&self) -> HeadView {
        match self {
            RequestHeadType::Owned(head) => HeadView::Owned { head: head@ },
            RequestHeadType::Rc(head, extra) => HeadView::Shared {
                base: (**head)@,
                overlay: match extra {
                    Some(m) => Some(m@),
                    None => None,
                },
            },
        }
    }
}

/// The overlay's contents, taking a missing overlay as empty.
pub open spec fn overlay_or_empty(o: Option<Map<Seq<u8>, Seq<u8>>>) -> Map<Seq<u8>, Seq<u8>> {
    match o {
        Some(m) => m,
        None => Map::empty(),
    }
}

/// Whether a header with name `k` is visible on the head: in the owned map,
/// or for a shared head in the base or the overlay.
pub open spec fn head_visible(h: HeadView, k: Seq<u8>) -> bool {
    match h {
        HeadView::Owned { head } => head.headers.contains_key(k),
        HeadView::Shared { base, overlay } => base.headers.contains_key(k)
            || overlay_or_empty(overlay).contains_key(k),
    }
}

/// The abstract effect of "set header if absent" with a valid value: a no-op
/// when the name is visible, otherwise an insert into the owned layer only
/// (creating the overlay of a shared head on first write).
pub open spec fn head_apply_set_if_none(h: HeadView, k: Seq<u8>, v: Seq<u8>) -> HeadView {
    if head_visible(h, k) {
        h
    } else {
        match h {
            HeadView::Owned { head } => HeadView::Owned {
                head: HeadFields {
                    method: head.method,
                    uri: head.uri,
                    headers: head.headers.insert(k, v),
                },
            },
            HeadView::Shared { base, overlay } => HeadView::Shared {
                base,
                overlay: Some(overlay_or_empty(overlay).insert(k, v)),
            },
        }
    }
}

/// The value a visible header name resolves to on the head; on a shared head
/// the private overlay takes precedence over the base.
pub open spec fn head_lookup(h: HeadView, k: Seq<u8>) -> Seq<u8> {
    match h {
        HeadView::Owned { head } => head.headers[k],
        HeadView::Shared { base, overlay } => {
            if overlay_or_empty(overlay).contains_key(k) {
                overlay_or_empty(overlay)[k]
            } else {
                base.headers[k]
            }
        },
    }
}

/// The two heads are of the same mode, and a shared base is the same value.
pub open spec fn base_preserved(a: RequestHeadType, b: RequestHeadType) -> bool {
    match (a, b) {
        (RequestHeadType::Owned(_), RequestHeadType::Owned(_)) => true,
        (RequestHeadType::Rc(b1, _), RequestHeadType::Rc(b2, _)) => b1 == b2,
        _ => false,
    }
}

impl RequestHeadType {
    /// Every header map the head holds is well formed.
    pub open spec fn wf(&self) -> bool {
        match self {
            RequestHeadType::Owned(head) => head.wf(),
            RequestHeadType::Rc(head, extra) => (**head).wf() && match extra {
                Some(m) => m.wf(),
                None => true,
            },
        }
    }

    /// Whether a header with this name is visible on the head.
    pub fn contains_header(&self, key: &HeaderName) -> (r: bool)
        ensures
            r == head_visible(self@, key@),
    {
        match self {
            RequestHeadType::Owned(head) => head.headers.contains_key(key),
            RequestHeadType::Rc(head, extra) => {
                if head.headers.contains_key(key) {
                    true
                } else {
                    match extra {
                        Some(m) => m.contains_key(key),
                        None => false,
                    }
                }
            }
        }
    }

    /// Adds a header only if no header with that name is visible. When the
    /// name is absent, the value is validated and inserted into the owned
    /// layer: the head's own map, or the overlay of a shared head, created on
    /// first write. A validation failure mutates nothing. The shared base is
    /// never written to.
    pub fn set_header_if_none(&mut self, key: HeaderName, value: &[u8]) -> (r: Result<
        (),
        HttpError,
    >)
        requires
            old(self).wf(),
            key.wf(),
        ensures
            final(self).wf(),
            base_preserved(*old(self), *final(self)),
            head_visible(old(self)@, key@) ==> r == Ok::<(), HttpError>(())
                && *final(self) == *old(self),
            !head_visible(old(self)@, key@) && wf_value(value@) ==> r == Ok::<(), HttpError>(())
                && final(self)@ == head_apply_set_if_none(old(self)@, key@, value@),
            !head_visible(old(self)@, key@) && !wf_value(value@) ==> r == Err::<(), HttpError>(
                HttpError::InvalidHeaderValue,
            ) && *final(self) == *old(self),
    {
        match self {
            RequestHeadType::Owned(head) => {
                if !head.headers.contains_key(&key) {
                    match HeaderValue::try_from_bytes(value) {
                        Ok(v) => {
                            head.headers.insert(key, v);
                        }
                        Err(e) => {
                            return Err(e);
                        }
                    }
                }
            }
            RequestHeadType::Rc(head, extra_headers) => {
                let in_base = head.headers.contains_key(&key);
                let in_overlay = match extra_headers {
                    Some(m) => m.contains_key(&key),
                    None => false,
                };
                if !in_base && !in_overlay {
                    match HeaderValue::try_from_bytes(value) {
                        Ok(v) => {
                            if extra_headers.is_none() {
                                *extra_headers = Some(HeaderMap::new());
                            }
                            match extra_headers {
                                Some(m) => {
                                    m.insert(key, v);
                                }
                                None => {
                                    proof {
                                        assert(false);
                                    }
                                }
                            }
                        }
                        Err(e) => {
                            return Err(e);
                        }
                    }
                }
            }
        }
        Ok(())
    }
}

/// Setting a header whose name is already in the shared base changes nothing:
/// the base stays as it is and no overlay is created.
pub proof fn lemma_shared_base_hit_is_noop(
    base: HeadFields,
    overlay: Option<Map<Seq<u8>, Seq<u8>>>,
    k: Seq<u8>,
    v: Seq<u8>,
)
    requires
        base.headers.contains_key(k),
    ensures
        head_apply_set_if_none(HeadView::Shared { base, overlay }, k, v) == (HeadView::Shared {
            base,
            overlay,
        }),
{
}

/// Setting a header absent from both the base and the overlay of a shared
/// head creates the overlay (when missing) and inserts exactly once: after
/// the call the name is visible, and a second call with the same name, with
/// any value, is a no-op.
pub proof fn lemma_shared_absent_inserts_once(
    base: HeadFields,
    overlay: Option<Map<Seq<u8>, Seq<u8>>>,
    k: Seq<u8>,
    v: Seq<u8>,
    w: Seq<u8>,
)
    requires
        !head_visible(HeadView::Shared { base, overlay }, k),
    ensures
        ({
            let h1 = head_apply_set_if_none(HeadView::Shared { base, overlay }, k, v);
            &&& h1 == (HeadView::Shared {
                base,
                overlay: Some(overlay_or_empty(overlay).insert(k, v)),
            })
            &&& head_visible(h1, k)
            &&& head_lookup(h1, k) == v
            &&& head_apply_set_if_none(h1, k, w) == h1
        }),
{
}

/// On an owned head, "set header if absent" is idempotent: a second call with
/// the same name and value leaves the head exactly as after the first.
pub proof fn lemma_owned_set_if_none_idempotent(head: HeadFields, k: Seq<u8>, v: Seq<u8>)
    ensures
        ({
            let h1 = head_apply_set_if_none(HeadView::Owned { head }, k, v);
            head_apply_set_if_none(h1, k, v) == h1
        }),
{
}

} // verus!
