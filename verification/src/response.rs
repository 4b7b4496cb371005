//! The headers that htmx understands in a response.

use vstd::prelude::*;

verus! {

/// A header that can be sent to htmx in a response.
#[derive(Debug, Clone, Copy, PartialEq, Eq, Structural)]
pub enum HtmxResponseHeader {
    /// Does a client-side redirect without a full page reload.
    Location,
    /// Pushes a new URL onto the history stack.
    PushUrl,
    /// Does a client-side redirect to a new location.
    Redirect,
    /// If `true`, the client does a full refresh of the page.
    Refresh,
    /// Replaces the current URL in the location bar.
    ReplaceUrl,
    /// Says how the response will be swapped.
    Reswap,
    /// A CSS selector that moves the target of the content update.
    Retarget,
    /// A CSS selector that chooses the part of the response to swap in.
    Reselect,
    /// Triggers client-side events.
    Trigger,
    /// Triggers client-side events after the settling step.
    TriggerAfterSettle,
    /// Triggers client-side events after the swap step.
    TriggerAfterSwap,
}

impl HtmxResponseHeader {
    /// The header's name in its documented spelling.
    pub open spec fn name(self) -> Seq<char> {
        match self {
            HtmxResponseHeader::Location => "HX-Location"@,
            HtmxResponseHeader::PushUrl => "HX-Push-Url"@,
            HtmxResponseHeader::Redirect => "HX-Redirect"@,
            HtmxResponseHeader::Refresh => "HX-Refresh"@,
            HtmxResponseHeader::ReplaceUrl => "HX-Replace-Url"@,
            HtmxResponseHeader::Reswap => "HX-Reswap"@,
            HtmxResponseHeader::Retarget => "HX-Retarget"@,
            HtmxResponseHeader::Reselect => "HX-Reselect"@,
            HtmxResponseHeader::Trigger => "HX-Trigger"@,
            HtmxResponseHeader::TriggerAfterSettle => "HX-Trigger-After-Settle"@,
            HtmxResponseHeader::TriggerAfterSwap => "HX-Trigger-After-Swap"@,
        }
    }

    /// The header's name in its documented spelling.
    pub fn as_str(&self) -> (r: &'static str)
        ensures
            r@ == self.name(),
    {
        match self {
            HtmxResponseHeader::Location => "HX-Location",
            HtmxResponseHeader::PushUrl => "HX-Push-Url",
            HtmxResponseHeader::Redirect => "HX-Redirect",
            HtmxResponseHeader::Refresh => "HX-Refresh",
            HtmxResponseHeader::ReplaceUrl => "HX-Replace-Url",
            HtmxResponseHeader::Reswap => "HX-Reswap",
            HtmxResponseHeader::Retarget => "HX-Retarget",
            HtmxResponseHeader::Reselect => "HX-Reselect",
            HtmxResponseHeader::Trigger => "HX-Trigger",
            HtmxResponseHeader::TriggerAfterSettle => "HX-Trigger-After-Settle",
            HtmxResponseHeader::TriggerAfterSwap => "HX-Trigger-After-Swap",
        }
    }
}

} // verus!
