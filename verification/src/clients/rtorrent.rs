//! The rTorrent client: XML-RPC calls that need no login.

use vstd::prelude::*;
use vstd::string::*;
use crate::clients::{CallResult, Failure, Operation, failure_text};
use crate::text::{contains, occurs_in, starts_with, starts_with_chars};

verus! {

/// Whether an address is one that HTTP calls can go to.
pub open spec fn speaks_http(url: Seq<char>) -> bool {
    starts_with_chars(url, "http://"@) || starts_with_chars(url, "https://"@)
}

/// What is said of an address that HTTP calls cannot go to.
pub open spec fn no_http_text(url: Seq<char>) -> Seq<char> {
    url + " is no HTTP address"@
}

/// What an answer of rTorrent to a call comes to: a status other than
/// success, or a body that reports a fault, is a refusal; anything else is
/// the answer. rTorrent never asks for a login.
pub open spec fn rpc_response_class(op: Operation, status_ok: bool, body: Seq<char>) -> CallResult {
    if !status_ok || occurs_in(body, "<fault>"@) {
        CallResult::Failed(Failure::Refused(op))
    } else {
        CallResult::Done
    }
}

/// An rTorrent instance.
#[allow(non_camel_case_types)]
#[derive(Debug, PartialEq, Eq)]
pub struct rTorrent {
    xmlrpc_url: String,
}

impl rTorrent {
    /// Where the instance answers.
    pub closed spec fn spec_url(&self) -> Seq<char> {
        self.xmlrpc_url@
    }

    /// The instance that answers at `xmlrpc_url`.
    pub fn new(xmlrpc_url: String) -> (r: rTorrent)
        ensures
            r.spec_url() == xmlrpc_url@,
    {
        rTorrent { xmlrpc_url }
    }

    /// Where the instance answers.
    pub fn get_url(&self) -> (r: &str)
        ensures
            r@ == self.spec_url(),
    {
        self.xmlrpc_url.as_str()
    }

    /// The address to call, or the failure that says why no call can be made.
    pub fn call_address(&self) -> (r: Result<&str, Failure>)
        ensures
            speaks_http(self.spec_url()) ==> (r matches Ok(url) && url@ == self.spec_url()),
            !speaks_http(self.spec_url()) ==> (r matches Err(f) && failure_text(f) == no_http_text(
                self.spec_url(),
            )),
    {
        let url = self.xmlrpc_url.as_str();
        if starts_with(url, "http://") || starts_with(url, "https://") {
            Ok(url)
        } else {
            Err(Failure::Transport(self.xmlrpc_url.clone().concat(" is no HTTP address")))
        }
    }

    /// What an answer to a call comes to.
    pub fn classify_response(op: Operation, status_ok: bool, body: &str) -> (r: CallResult)
        ensures
            r == rpc_response_class(op, status_ok, body@),
    {
        if !status_ok || contains(body, "<fault>") {
            CallResult::Failed(Failure::Refused(op))
        } else {
            CallResult::Done
        }
    }
}

} // verus!
