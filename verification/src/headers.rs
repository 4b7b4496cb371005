//! Names of the HTTP headers used by htmx, in the lower-case form that goes
//! on the wire.

use vstd::prelude::*;

verus! {

/// A character that may stand in one of this crate's header names.
pub open spec fn is_name_char(c: char) -> bool {
    ('a' <= c && c <= 'z') || ('0' <= c && c <= '9') || c == '-'
}

/// A lower-case header name made of letters, digits and hyphens.
pub open spec fn is_plain_header_name(s: Seq<char>) -> bool {
    &&& 0 < s.len() <= 64
    &&& forall|i: int| 0 <= i < s.len() ==> is_name_char(#[trigger] s[i])
}

/// Indicates that the request is via an element using the `hx-boost`
/// attribute.
pub const HX_BOOSTED: &'static str = "hx-boosted";

/// The current URL of the browser.
pub const HX_CURRENT_URL: &'static str = "hx-current-url";

/// `true` if the request is for history restoration after a miss in the local
/// history cache.
pub const HX_HISTORY_RESTORE_REQUEST: &'static str = "hx-history-restore-request";

/// The user response to an `hx-prompt`.
pub const HX_PROMPT: &'static str = "hx-prompt";

/// Always `true` on requests made by htmx.
pub const HX_REQUEST: &'static str = "hx-request";

/// The `id` of the target element, if it exists.
pub const HX_TARGET: &'static str = "hx-target";

/// The `name` of the triggered element, if it exists.
pub const HX_TRIGGER_NAME: &'static str = "hx-trigger-name";

/// Allows a client-side redirect that does not do a full page reload.
pub const HX_LOCATION: &'static str = "hx-location";

/// Pushes a new URL onto the history stack.
pub const HX_PUSH_URL: &'static str = "hx-push-url";

/// Can be used to do a client-side redirect to a new location.
pub const HX_REDIRECT: &'static str = "hx-redirect";

/// If set to `true`, the client will do a full refresh of the page.
pub const HX_REFRESH: &'static str = "hx-refresh";

/// Replaces the current URL in the location bar.
pub const HX_REPLACE_URL: &'static str = "hx-replace-url";

/// Says how the response will be swapped.
pub const HX_RESWAP: &'static str = "hx-reswap";

/// A CSS selector that moves the target of the content update to another
/// element on the page.
pub const HX_RETARGET: &'static str = "hx-retarget";

/// A CSS selector that chooses which part of the response is swapped in.
pub const HX_RESELECT: &'static str = "hx-reselect";

/// In a request, the `id` of the element that triggered it; in a response,
/// the client-side events to trigger.
pub const HX_TRIGGER: &'static str = "hx-trigger";

/// Triggers client-side events after the settling step.
pub const HX_TRIGGER_AFTER_SETTLE: &'static str = "hx-trigger-after-settle";

/// Triggers client-side events after the swap step.
pub const HX_TRIGGER_AFTER_SWAP: &'static str = "hx-trigger-after-swap";

/// The standard `Vary` response header.
pub const VARY: &'static str = "vary";

/// The standard `Location` response header.
pub const LOCATION: &'static str = "location";

/// Every name above is a plain header name.
pub proof fn lemma_names_are_plain()
    ensures
        is_plain_header_name(HX_BOOSTED@),
        is_plain_header_name(HX_CURRENT_URL@),
        is_plain_header_name(HX_HISTORY_RESTORE_REQUEST@),
        is_plain_header_name(HX_PROMPT@),
        is_plain_header_name(HX_REQUEST@),
        is_plain_header_name(HX_TARGET@),
        is_plain_header_name(HX_TRIGGER_NAME@),
        is_plain_header_name(HX_LOCATION@),
        is_plain_header_name(HX_PUSH_URL@),
        is_plain_header_name(HX_REDIRECT@),
        is_plain_header_name(HX_REFRESH@),
        is_plain_header_name(HX_REPLACE_URL@),
        is_plain_header_name(HX_RESWAP@),
        is_plain_header_name(HX_RETARGET@),
        is_plain_header_name(HX_RESELECT@),
        is_plain_header_name(HX_TRIGGER@),
        is_plain_header_name(HX_TRIGGER_AFTER_SETTLE@),
        is_plain_header_name(HX_TRIGGER_AFTER_SWAP@),
        is_plain_header_name(VARY@),
        is_plain_header_name(LOCATION@),
{
    reveal_strlit("hx-boosted");
    reveal_strlit("hx-current-url");
    reveal_strlit("hx-history-restore-request");
    reveal_strlit("hx-prompt");
    reveal_strlit("hx-request");
    reveal_strlit("hx-target");
    reveal_strlit("hx-trigger-name");
    reveal_strlit("hx-location");
    reveal_strlit("hx-push-url");
    reveal_strlit("hx-redirect");
    reveal_strlit("hx-refresh");
    reveal_strlit("hx-replace-url");
    reveal_strlit("hx-reswap");
    reveal_strlit("hx-retarget");
    reveal_strlit("hx-reselect");
    reveal_strlit("hx-trigger");
    reveal_strlit("hx-trigger-after-settle");
    reveal_strlit("hx-trigger-after-swap");
    reveal_strlit("vary");
    reveal_strlit("location");
}

} // verus!
