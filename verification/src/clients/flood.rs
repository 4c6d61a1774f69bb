//! The Flood client: an HTTP API behind a login that can expire.

use vstd::prelude::*;
use vstd::string::*;
use crate::clients::{CallResult, Failure, Operation, RetryLoop, RETRY_LIMIT};
use crate::text::{contains, occurs_in};

verus! {

/// A Flood instance and the account to use on it.
#[derive(Debug, PartialEq, Eq)]
pub struct Flood {
    username: String,
    password: String,
    url: String,
    dest: String,
    retry_limit: u8,
}

/// The request that hands torrent files to Flood.
#[derive(Debug, PartialEq, Eq)]
pub struct TorrentUploadRequest {
    /// The torrent files, each in base64.
    pub files: Vec<String>,
    /// The directory to download to.
    pub destination: String,
    pub tags: Vec<String>,
    pub is_base_path: bool,
    pub is_completed: bool,
    pub is_sequential: bool,
    pub is_initial_seeding: bool,
    /// Whether the download starts at once.
    pub start: bool,
}

impl TorrentUploadRequest {
    /// Whether the switches stand as in a request that nobody has touched:
    /// download in sequence and start at once, everything else off.
    pub open spec fn default_switches(&self) -> bool {
        &&& !self.is_base_path
        &&& !self.is_completed
        &&& self.is_sequential
        &&& !self.is_initial_seeding
        &&& self.start
    }
}

impl Default for TorrentUploadRequest {
    fn default() -> (r: Self)
        ensures
            r.files@.len() == 0,
            r.destination@.len() == 0,
            r.tags@.len() == 0,
            r.default_switches(),
    {
        TorrentUploadRequest {
            files: Vec::new(),
            destination: String::new(),
            tags: Vec::new(),
            is_base_path: false,
            is_completed: false,
            is_sequential: true,
            is_initial_seeding: false,
            start: true,
        }
    }
}

/// What an answer of Flood to a call comes to: a status other than success
/// is a refusal; a body that says `Unauthorized` asks for a login; anything
/// else is the answer.
pub open spec fn response_class(op: Operation, status_ok: bool, body: Seq<char>) -> CallResult {
    if !status_ok {
        CallResult::Failed(Failure::Refused(op))
    } else if occurs_in(body, "Unauthorized"@) {
        CallResult::Unauthorized
    } else {
        CallResult::Done
    }
}

impl Flood {
    /// The account name.
    pub closed spec fn spec_username(&self) -> Seq<char> {
        self.username@
    }

    /// The account's password.
    pub closed spec fn spec_password(&self) -> Seq<char> {
        self.password@
    }

    /// Where the instance answers.
    pub closed spec fn spec_url(&self) -> Seq<char> {
        self.url@
    }

    /// The directory to download to.
    pub closed spec fn spec_dest(&self) -> Seq<char> {
        self.dest@
    }

    /// How often a call is retried after a new login.
    pub closed spec fn spec_retry_limit(&self) -> nat {
        self.retry_limit as nat
    }

    /// The instance at `url` with the given account, downloading to `dest`.
    pub fn new(username: String, password: String, url: String, dest: String) -> (r: Flood)
        ensures
            r.spec_username() == username@,
            r.spec_password() == password@,
            r.spec_url() == url@,
            r.spec_dest() == dest@,
            r.spec_retry_limit() == RETRY_LIMIT,
    {
        Flood { username, password, url, dest, retry_limit: RETRY_LIMIT }
    }

    /// The account name.
    pub fn get_username(&self) -> (r: &str)
        ensures
            r@ == self.spec_username(),
    {
        self.username.as_str()
    }

    /// The account's password.
    pub fn get_password(&self) -> (r: &str)
        ensures
            r@ == self.spec_password(),
    {
        self.password.as_str()
    }

    /// The address of the login call.
    pub fn login_url(&self) -> (r: String)
        ensures
            r@ == self.spec_url() + "/api/auth/authenticate"@,
    {
        self.url.clone().concat("/api/auth/authenticate")
    }

    /// The address of the call that lists the downloads.
    pub fn list_url(&self) -> (r: String)
        ensures
            r@ == self.spec_url() + "/api/torrents"@,
    {
        self.url.clone().concat("/api/torrents")
    }

    /// The address of the call that takes torrent files.
    pub fn add_files_url(&self) -> (r: String)
        ensures
            r@ == self.spec_url() + "/api/torrents/add-files"@,
    {
        self.url.clone().concat("/api/torrents/add-files")
    }

    /// The request that hands over one torrent file, given in base64: it
    /// goes to the configured directory and starts at once.
    pub fn upload_request(&self, file: &str) -> (r: TorrentUploadRequest)
        ensures
            r.files@.len() == 1,
            r.files@[0]@ == file@,
            r.destination@ == self.spec_dest(),
            r.tags@.len() == 0,
            r.default_switches(),
    {
        let mut r = TorrentUploadRequest::default();
        r.files.push(String::from_str(file));
        r.destination = self.dest.clone();
        r
    }

    /// What an answer to a call comes to.
    pub fn classify_response(op: Operation, status_ok: bool, body: &str) -> (r: CallResult)
        ensures
            r == response_class(op, status_ok, body@),
    {
        if !status_ok {
            CallResult::Failed(Failure::Refused(op))
        } else if contains(body, "Unauthorized") {
            CallResult::Unauthorized
        } else {
            CallResult::Done
        }
    }

    /// Whether a login went through, from what the answer says of it.
    pub fn login_outcome(success: bool) -> (r: Result<(), Failure>)
        ensures
            success ==> r == Ok::<(), Failure>(()),
            !success ==> r == Err::<(), Failure>(Failure::LoginFailed),
    {
        if success {
            Ok(())
        } else {
            Err(Failure::LoginFailed)
        }
    }

    /// A fresh request under this instance's retry limit.
    pub fn retry_loop(&self) -> (r: RetryLoop)
        ensures
            r.retries() == 0,
            r.limit() == self.spec_retry_limit(),
    {
        RetryLoop::new(self.retry_limit)
    }
}

} // verus!
