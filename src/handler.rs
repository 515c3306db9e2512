//! One verification request, as two steps around the store lookup.
//!
//! `begin` reads the header and either answers at once or asks for a lookup
//! of a fingerprint; the caller performs that single lookup and hands its
//! outcome to `finish`, which gives the response.

use vstd::prelude::*;
use vstd::string::*;
use crate::fingerprint::{canonical, canonicalize};
use crate::response::{
    error_reply, error_response, success_reply, success_response, AuthError, HttpResponse,
    ResponseView,
};

verus! {

/// A user record as the store holds it. Only `user_id` is read here.
pub struct UserRecord {
    pub user_id: String,
    pub pgp_pub_key: Option<String>,
    pub token: Option<String>,
}

/// What a request needs next.
pub enum Step {
    /// The request is answered without touching the store.
    Respond(HttpResponse),
    /// The store must be asked, once, for the record whose `token` field
    /// equals this fingerprint.
    Lookup(String),
}

/// A step, as mathematical values.
pub enum StepView {
    Respond(ResponseView),
    Lookup(Seq<char>),
}

impl View for Step {
    type V = StepView;

    open spec fn view(&self) -> StepView {
        match self {
            Step::Respond(r) => StepView::Respond(r@),
            Step::Lookup(f) => StepView::Lookup(f@),
        }
    }
}

/// The bytes of a header value, if there is one.
pub open spec fn header_bytes(auth_header: Option<&str>) -> Option<Seq<u8>> {
    match auth_header {
        Some(h) => Some(h.spec_bytes()),
        None => None,
    }
}

/// The first step for a header value given as bytes.
pub open spec fn begin_spec(header: Option<Seq<u8>>) -> StepView {
    match header {
        None => StepView::Respond(error_reply(AuthError::MissingHeader)),
        Some(h) => match canonical(h) {
            Ok(f) => StepView::Lookup(f),
            Err(e) => StepView::Respond(error_reply(e)),
        },
    }
}

/// The outcome of a lookup: a failure, no record, or the `user_id` of the
/// first matching record.
pub open spec fn lookup_view<E>(lookup: Result<Option<UserRecord>, E>) -> Result<
    Option<Seq<char>>,
    (),
> {
    match lookup {
        Ok(Some(rec)) => Ok(Some(rec.user_id@)),
        Ok(None) => Ok(None),
        Err(_) => Err(()),
    }
}

/// The response for the outcome of a lookup.
pub open spec fn finish_spec(found: Result<Option<Seq<char>>, ()>) -> ResponseView {
    match found {
        Ok(Some(id)) => success_reply(id),
        Ok(None) => error_reply(AuthError::InvalidToken),
        Err(_) => error_reply(AuthError::StorageFailure),
    }
}

/// The whole verification of a request against a store that maps each
/// stored fingerprint to the `user_id` of its record.
pub open spec fn verify_spec(header: Option<Seq<u8>>, store: Map<Seq<char>, Seq<char>>) -> ResponseView {
    match begin_spec(header) {
        StepView::Respond(r) => r,
        StepView::Lookup(f) => finish_spec(
            if store.contains_key(f) {
                Ok(Some(store[f]))
            } else {
                Ok(None)
            },
        ),
    }
}

/// Reads the `Authorization` header of a request. An absent header or one
/// without the `Bearer ` prefix is answered with `400`; otherwise the
/// fingerprint of the token is to be looked up.
pub fn begin(auth_header: Option<&str>) -> (r: Step)
    ensures
        r@ == begin_spec(header_bytes(auth_header)),
{
    match auth_header {
        None => Step::Respond(error_response(AuthError::MissingHeader)),
        Some(h) => match canonicalize(h) {
            Ok(f) => Step::Lookup(f),
            Err(e) => Step::Respond(error_response(e)),
        },
    }
}

/// Maps the outcome of the store lookup to the response: `200` with the
/// record's `user_id`, `401` when no record matched, and `500` without
/// detail when the store failed.
pub fn finish<E>(lookup: Result<Option<UserRecord>, E>) -> (r: HttpResponse)
    ensures
        r@ == finish_spec(lookup_view(lookup)),
{
    match lookup {
        Ok(Some(rec)) => success_response(rec.user_id.as_str()),
        Ok(None) => error_response(AuthError::InvalidToken),
        Err(_) => error_response(AuthError::StorageFailure),
    }
}

} // verus!
