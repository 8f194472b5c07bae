//! Reading the configuration of the server.

use crate::errors::{Fault, FaultView};
use crate::text::{debug_text, render_text};
use vstd::prelude::*;
use vstd::string::*;

verus! {

/// The text that tells of a configuration that could not be read, given the rendering of
/// the address and of the response.
pub open spec fn config_failure_text(url: Seq<char>, response: Seq<char>) -> Seq<char> {
    "Failed to get config. Request URL: "@ + url + ", Response: "@ + response
}

/// Puts the text of a failure to read the configuration together from the rendering of
/// the address and of the response.
pub fn compose_config_failure(url: &str, response: &str) -> (r: String)
    ensures
        r@ == config_failure_text(url@, response@),
{
    let mut text = String::from_str("Failed to get config. Request URL: ");
    text.append(url);
    text.append(", Response: ");
    text.append(response);
    text
}

/// What the answer to a query of the configuration comes to: the body, where the server
/// reported success, and otherwise a failure that names the address and shows the body.
pub open spec fn config_response(url: Seq<char>, success: bool, body: Seq<char>) -> Result<
    Seq<char>,
    FaultView,
> {
    if success {
        Ok(body)
    } else {
        Err(
            FaultView::Transport {
                detail: config_failure_text(debug_text(url), debug_text(body)),
            },
        )
    }
}

/// Decides what the answer to a query of the configuration comes to. `success` says whether
/// the server reported success, `body` is what it sent.
pub fn check_config_response(url: &str, success: bool, body: String) -> (r: Result<String, Fault>)
    ensures
        match r {
            Ok(text) => config_response(url@, success, body@) == Ok::<Seq<char>, FaultView>(
                text@,
            ),
            Err(fault) => config_response(url@, success, body@) == Err::<Seq<char>, FaultView>(
                fault@,
            ),
        },
{
    if success {
        Ok(body)
    } else {
        let shown_url = render_text(url);
        let shown_body = render_text(body.as_str());
        Err(
            Fault::Transport {
                detail: compose_config_failure(shown_url.as_str(), shown_body.as_str()),
            },
        )
    }
}

} // verus!
