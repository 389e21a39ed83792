//! What is asked of the transport, and which answers count as success.

use crate::error::{result_view, InstallError, InstallErrorView};
use vstd::prelude::*;

verus! {

/// The only status that carries a usable body.
pub const STATUS_OK: u16 = 200;

/// The `User-Agent` sent with every request. The release API turns away
/// requests that carry none.
pub const USER_AGENT: &'static str = "rust";

/// One GET for the transport to perform. It carries no credentials.
#[derive(Debug, PartialEq, Eq)]
pub struct Request {
    pub url: String,
    pub user_agent: String,
}

/// What the contracts see of a `Request`.
pub struct RequestView {
    pub url: Seq<char>,
    pub user_agent: Seq<char>,
}

impl RequestView {
    /// The request for `url` as this library issues it.
    pub open spec fn get(url: Seq<char>) -> RequestView {
        RequestView { url, user_agent: USER_AGENT@ }
    }

    /// Whether the request names who is asking.
    pub open spec fn identifies_itself(self) -> bool {
        self.user_agent.len() > 0
    }

    /// Every request this library issues names who is asking.
    pub proof fn lemma_get_identifies_itself(url: Seq<char>)
        ensures
            RequestView::get(url).identifies_itself(),
    {
        reveal_strlit("rust");
    }
}

impl View for Request {
    type V = RequestView;

    open spec fn view(&self) -> RequestView {
        RequestView { url: self.url@, user_agent: self.user_agent@ }
    }
}

impl Request {
    /// A GET of `url` that identifies itself as `USER_AGENT`.
    pub fn get(url: String) -> (request: Request)
        ensures
            request@ == RequestView::get(url@),
            request@.identifies_itself(),
    {
        proof {
            RequestView::lemma_get_identifies_itself(url@);
        }
        Request { url, user_agent: USER_AGENT.to_owned() }
    }
}

/// `bytes::Bytes`, the body of a download as the transport delivers it. The
/// library hands it on unread, so nothing is claimed of what it holds.
#[verifier::external_type_specification]
#[verifier::external_body]
pub struct ExBytes(bytes::Bytes);

/// The verdict on a response's status, before its body is looked at.
pub open spec fn spec_check_status(status: u16) -> Result<(), InstallErrorView> {
    if status == STATUS_OK {
        Ok(())
    } else {
        Err(InstallErrorView::HttpError { status })
    }
}

/// Accepts a response with status 200 and refuses every other, naming the
/// status received.
pub fn check_status(status: u16) -> (verdict: Result<(), InstallError>)
    ensures
        result_view(verdict) == spec_check_status(status),
{
    if status == STATUS_OK {
        Ok(())
    } else {
        Err(InstallError::HttpError { status })
    }
}

} // verus!
