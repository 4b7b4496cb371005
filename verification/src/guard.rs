//! A guard that keeps requests which do not come from htmx away from routes
//! that answer with partial pages.

use vstd::prelude::*;
use vstd::string::*;
use http::header::{HeaderMap, HeaderValue};
use crate::error::{checked_value, HxError};
use crate::headers::{lemma_names_are_plain, HX_REQUEST};
use crate::wire::{
    header_entries, header_map_contains_key, header_value_from_str, is_header_value, value_bytes,
};

verus! {

/// Sends requests without the `HX-Request` header on to another location.
#[derive(Debug, Clone, Copy)]
pub struct HxRequestGuardLayer<'a> {
    /// Where such requests are sent.
    pub redirect_to: &'a str,
}

impl<'a> HxRequestGuardLayer<'a> {
    /// A guard that redirects to `redirect_to`.
    pub fn new(redirect_to: &'a str) -> (r: Self)
        ensures
            r.redirect_to@ == redirect_to@,
    {
        HxRequestGuardLayer { redirect_to }
    }

    /// Puts the guard around a service. The guard has seen no htmx request
    /// so far.
    pub fn layer<S>(&self, inner: S) -> (r: HxRequestGuard<'a, S>)
        ensures
            r.inner == inner,
            !r.hx_request,
            r.layer == *self,
    {
        HxRequestGuard { inner, hx_request: false, layer: *self }
    }
}

impl Default for HxRequestGuardLayer<'_> {
    /// A guard that redirects to `/`.
    fn default() -> (r: Self)
        ensures
            r.redirect_to@ == "/"@,
    {
        HxRequestGuardLayer { redirect_to: "/" }
    }
}

/// A service wrapped by the guard.
#[derive(Debug, Clone)]
pub struct HxRequestGuard<'a, S> {
    /// The wrapped service.
    pub inner: S,
    /// Whether this guard has seen a request with `HX-Request`.
    pub hx_request: bool,
    /// The layer that made this guard.
    pub layer: HxRequestGuardLayer<'a>,
}

/// What the guard does with the wrapped service's response.
#[derive(Debug)]
pub enum GuardAction {
    /// Hands the response on as it is.
    Forward,
    /// Answers instead with a redirect of the given status to the given
    /// location.
    Redirect { status: u16, location: HeaderValue },
}

impl<'a, S> HxRequestGuard<'a, S> {
    /// Looks at a request's headers before the wrapped service gets it. Once
    /// the guard has seen `HX-Request` it remembers that. Returns what it
    /// knows after this request.
    pub fn call(&mut self, headers: &HeaderMap<HeaderValue>) -> (r: bool)
        ensures
            r == (old(self).hx_request || header_entries(*headers).contains_key(HX_REQUEST@)),
            final(self).hx_request == r,
            final(self).inner == old(self).inner,
            final(self).layer == old(self).layer,
    {
        proof {
            lemma_names_are_plain();
        }
        if header_map_contains_key(headers, HX_REQUEST) {
            self.hx_request = true;
        }
        self.hx_request
    }
}

/// Decides what becomes of a response: it is handed on where the guard saw
/// `HX-Request`; else the answer is a redirect, status 303, to the layer's
/// location, which has to be a legal header value.
pub fn respond(hx_request: bool, layer: &HxRequestGuardLayer<'_>) -> (r: Result<
    GuardAction,
    HxError,
>)
    ensures
        hx_request ==> r is Ok && r->Ok_0 is Forward,
        !hx_request && is_header_value(layer.redirect_to.spec_bytes()) ==> r is Ok && r->Ok_0 is Redirect
            && r->Ok_0->status == 303 && value_bytes(r->Ok_0->location)
            == layer.redirect_to.spec_bytes(),
        !hx_request && !is_header_value(layer.redirect_to.spec_bytes()) ==> r is Err
            && r->Err_0 is InvalidHeaderValue,
{
    if hx_request {
        return Ok(GuardAction::Forward);
    }
    match checked_value(header_value_from_str(layer.redirect_to)) {
        Ok(location) => Ok(GuardAction::Redirect { status: 303, location }),
        Err(e) => Err(e),
    }
}

} // verus!
