//! Helpers for serving htmx clients: request header extraction, response
//! header construction, and automatic `Vary` computation.
//!
//! The heart of the crate is in [`signal`] and [`auto_vary`]: a record, kept
//! with each request, of which tracked request headers were read while the
//! request was handled, and the step that turns that record into a `Vary`
//! response header.

pub mod auto_vary;
pub mod error;
pub mod extractors;
pub mod guard;
pub mod headers;
pub mod json;
pub mod request;
pub mod responders;
pub mod response;
pub mod signal;
pub mod wire;

pub use crate::auto_vary::{AutoVaryLayer, AutoVaryMiddleware};
pub use crate::error::HxError;
pub use crate::extractors::{
    HxBoosted, HxCurrentUrl, HxHistoryRestoreRequest, HxPrompt, HxRequest, HxTarget, HxTrigger,
    HxTriggerName,
};
pub use crate::guard::{HxRequestGuard, HxRequestGuardLayer};
pub use crate::request::HtmxRequestHeader;
pub use crate::responders::location::{HxLocation, LocationOptions};
pub use crate::responders::trigger::{HxEvent, HxResponseTrigger, TriggerMode};
pub use crate::responders::vary::{VaryHxRequest, VaryHxTarget, VaryHxTrigger, VaryHxTriggerName};
pub use crate::responders::{
    HxPushUrl, HxRedirect, HxRefresh, HxReplaceUrl, HxReselect, HxReswap, HxRetarget, SwapOption,
};
pub use crate::response::HtmxResponseHeader;
