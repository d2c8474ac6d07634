//! What the client of the image service decides: where to send a request and how to
//! read the answer. The requests themselves are sent by the application.
use vstd::prelude::*;

use crate::config::ImageServiceConfig;
use crate::ids::{uuid_string, uuid_text};

verus! {

/// The status of an HTTP response: its code and its text as it displays (for example
/// `404 Not Found`).
#[derive(Debug)]
pub struct HttpStatus {
    pub code: u16,
    pub text: String,
}

/// Errors of requests to the image service.
#[derive(Debug)]
pub enum ImageServiceApiError {
    /// The request failed (with the HTTP client's message).
    Http(String),
    /// The service answered with another status than `200 OK` (with the body).
    UnexpectedStatus(HttpStatus, String),
}

/// How an error of the image service displays.
pub open spec fn describe_spec(e: ImageServiceApiError) -> Seq<char> {
    match e {
        ImageServiceApiError::Http(m) => "HTTP error: "@ + m@,
        ImageServiceApiError::UnexpectedStatus(status, body) => "Unexpected status '"@ + status.text@ + "': "@ + body@,
    }
}

impl ImageServiceApiError {
    /// The text of the error.
    pub fn describe(&self) -> (s: String)
        ensures
            s@ == describe_spec(*self),
    {
        match self {
            ImageServiceApiError::Http(m) => {
                let mut s = String::from_str("HTTP error: ");
                s.append(m.as_str());
                s
            },
            ImageServiceApiError::UnexpectedStatus(status, body) => {
                let mut s = String::from_str("Unexpected status '");
                s.append(status.text.as_str());
                s.append("': ");
                s.append(body.as_str());
                s
            },
        }
    }
}

/// `<url>/<action>/<id>`
pub open spec fn action_url(base: Seq<char>, action: Seq<char>, id: u128) -> Seq<char> {
    base + "/"@ + action + "/"@ + uuid_string(id)
}

impl ImageServiceConfig {
    /// Where an action on an image is requested: `<url>/<action>/<id>`.
    pub fn action_url(&self, action: &str, id: u128) -> (u: String)
        ensures
            u@ == action_url(self.url@, action@, id),
    {
        let mut u = self.url.clone();
        u.append("/");
        u.append(action);
        u.append("/");
        let t = uuid_text(id);
        u.append(t.as_str());
        u
    }

    /// Where an image is approved: `<url>/approve/<id>`.
    pub fn approve_url(&self, id: u128) -> (u: String)
        ensures
            u@ == action_url(self.url@, "approve"@, id),
    {
        self.action_url("approve", id)
    }

    /// Where the approval of an image is withdrawn: `<url>/unapprove/<id>`.
    pub fn unapprove_url(&self, id: u128) -> (u: String)
        ensures
            u@ == action_url(self.url@, "unapprove"@, id),
    {
        self.action_url("unapprove", id)
    }
}

/// The outcome of a request to the image service from the status of the answer: only
/// `200 OK` is success; otherwise the status and the body (read only in that case)
/// make the error.
pub fn response_outcome(status: HttpStatus, body: Option<String>) -> (r: Result<(), ImageServiceApiError>)
    ensures
        (r is Ok) == (status.code == 200),
        status.code != 200 ==> (r matches Err(ImageServiceApiError::UnexpectedStatus(s, b)) && s == status
            && b@ == match body {
            Some(b) => b@,
            None => Seq::<char>::empty(),
        }),
{
    if status.code == 200 {
        Ok(())
    } else {
        let body = match body {
            Some(b) => b,
            None => String::new(),
        };
        Err(ImageServiceApiError::UnexpectedStatus(status, body))
    }
}

} // verus!
