//! The headers that htmx sends with a request.

use vstd::prelude::*;

verus! {

/// A header that htmx may send with a request.
#[derive(Debug, Clone, Copy, PartialEq, Eq, Structural)]
pub enum HtmxRequestHeader {
    /// The request is made by an element that uses `hx-boost`.
    Boosted,
    /// The current URL of the browser.
    CurrentUrl,
    /// The request restores history after a miss in the local history cache.
    HistoryRestoreRequest,
    /// The user's response to an `hx-prompt`.
    Prompt,
    /// Always `true`.
    Request,
    /// The `id` of the target element, if it exists.
    Target,
    /// The `name` of the triggered element, if it exists.
    TriggerName,
    /// The `id` of the triggered element, if it exists.
    Trigger,
}

impl HtmxRequestHeader {
    /// The header's name in its documented spelling.
    pub open spec fn name(self) -> Seq<char> {
        match self {
            HtmxRequestHeader::Boosted => "HX-Boosted"@,
            HtmxRequestHeader::CurrentUrl => "HX-Current-Url"@,
            HtmxRequestHeader::HistoryRestoreRequest => "HX-History-Restore-Request"@,
            HtmxRequestHeader::Prompt => "HX-Prompt"@,
            HtmxRequestHeader::Request => "HX-Request"@,
            HtmxRequestHeader::Target => "HX-Target"@,
            HtmxRequestHeader::TriggerName => "HX-Trigger-Name"@,
            HtmxRequestHeader::Trigger => "HX-Trigger"@,
        }
    }

    /// The header's name in its documented spelling.
    pub fn as_str(&self) -> (r: &'static str)
        ensures
            r@ == self.name(),
    {
        match self {
            HtmxRequestHeader::Boosted => "HX-Boosted",
            HtmxRequestHeader::CurrentUrl => "HX-Current-Url",
            HtmxRequestHeader::HistoryRestoreRequest => "HX-History-Restore-Request",
            HtmxRequestHeader::Prompt => "HX-Prompt",
            HtmxRequestHeader::Request => "HX-Request",
            HtmxRequestHeader::Target => "HX-Target",
            HtmxRequestHeader::TriggerName => "HX-Trigger-Name",
            HtmxRequestHeader::Trigger => "HX-Trigger",
        }
    }
}

} // verus!
