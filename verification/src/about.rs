//! The text of the About dialog.
use vstd::prelude::*;

verus! {

/// The release this library belongs to.
pub const VERSION: &'static str = "0.1.0";

/// Where the project lives.
pub const REPO_URL: &'static str = "https://github.com/arvinmoj/GhostWriter";

/// The dialog's title.
pub const DIALOG_TITLE: &'static str = "About GhostWriter";

/// The label of the button that opens the project page.
pub const OPEN_REPO_BUTTON: &'static str = "View on GitHub";

/// The label of the button that closes the dialog.
pub const OK_BUTTON: &'static str = "OK";

/// The dialog's body: product name and version, a blank line, the project page.
pub open spec fn dialog_text() -> Seq<char> {
    "GhostWriter v"@ + VERSION@ + "\n\n"@ + REPO_URL@
}

/// The dialog's body.
pub fn dialog_body() -> (res: String)
    ensures
        res@ == dialog_text(),
{
    let mut body = "GhostWriter v".to_string();
    body.append(VERSION);
    body.append("\n\n");
    body.append(REPO_URL);
    body
}

} // verus!
