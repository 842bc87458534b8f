//! Time limits, and links to the documentation.

use vstd::prelude::*;
use crate::text::same_text;

verus! {

/// How long connecting may take, in milliseconds.
pub const CONNECT_TIMEOUT: u64 = 18_000;

/// How long reading may take, in milliseconds.
pub const READ_TIMEOUT: u64 = 18_000;

/// The level of compression.
pub const COMPRESS_LEVEL: i32 = 3;

/// The documentation.
pub const LINK_DOCS_HOME: &'static str = "https://rustdesk.com/docs/en/";

/// What the documentation says about X11.
pub const LINK_DOCS_X11_REQUIRED: &'static str = "https://rustdesk.com/docs/en/manual/linux/#x11-required";

/// The link with the given name.
pub fn helper_url(name: &str) -> (r: Option<&'static str>)
    ensures
        match r {
            Some(link) => (name@ == "rustdesk docs home"@ && link@ == LINK_DOCS_HOME@) || (name@
                == "rustdesk docs x11-required"@ && link@ == LINK_DOCS_X11_REQUIRED@),
            None => name@ != "rustdesk docs home"@ && name@ != "rustdesk docs x11-required"@,
        },
        name@ == "rustdesk docs home"@ ==> (r matches Some(link) && link@
            == "https://rustdesk.com/docs/en/"@),
        name@ == "rustdesk docs x11-required"@ ==> (r matches Some(link) && link@
            == "https://rustdesk.com/docs/en/manual/linux/#x11-required"@),
{
    proof {
        reveal_strlit("rustdesk docs home");
        reveal_strlit("rustdesk docs x11-required");
        assert("rustdesk docs home"@.len() != "rustdesk docs x11-required"@.len());
    }
    if same_text(name, "rustdesk docs home") {
        Some(LINK_DOCS_HOME)
    } else if same_text(name, "rustdesk docs x11-required") {
        Some(LINK_DOCS_X11_REQUIRED)
    } else {
        None
    }
}

} // verus!
