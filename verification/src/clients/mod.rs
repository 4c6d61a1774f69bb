//! The download clients: what the bot asks of them, how a call that meets
//! an expired login is retried, and how a client is reached at start-up.

use vstd::prelude::*;
use vstd::string::*;

pub mod flood;
pub mod rtorrent;

verus! {

/// The download client of a run.
pub enum TorrentClientsEnum {
    Rtorrent(rtorrent::rTorrent),
    Flood(flood::Flood),
}

/// What an answer of a client to a call comes to.
pub open spec fn client_response_class(
    client: TorrentClientsEnum,
    op: Operation,
    status_ok: bool,
    body: Seq<char>,
) -> CallResult {
    match client {
        TorrentClientsEnum::Rtorrent(_) => rtorrent::rpc_response_class(op, status_ok, body),
        TorrentClientsEnum::Flood(_) => flood::response_class(op, status_ok, body),
    }
}

/// The limit on new logins within one request to a client.
pub open spec fn client_retry_limit(client: TorrentClientsEnum) -> nat {
    match client {
        TorrentClientsEnum::Rtorrent(_) => RETRY_LIMIT as nat,
        TorrentClientsEnum::Flood(c) => c.spec_retry_limit(),
    }
}

impl TorrentClientsEnum {
    /// What an answer of this client to a call comes to.
    pub fn classify_response(&self, op: Operation, status_ok: bool, body: &str) -> (r: CallResult)
        ensures
            r == client_response_class(*self, op, status_ok, body@),
    {
        match self {
            TorrentClientsEnum::Rtorrent(_) => rtorrent::rTorrent::classify_response(
                op,
                status_ok,
                body,
            ),
            TorrentClientsEnum::Flood(_) => flood::Flood::classify_response(op, status_ok, body),
        }
    }

    /// A fresh request to this client under its retry limit.
    pub fn retry_loop(&self) -> (r: RetryLoop)
        ensures
            r.retries() == 0,
            r.limit() == client_retry_limit(*self),
    {
        match self {
            TorrentClientsEnum::Rtorrent(_) => RetryLoop::new(RETRY_LIMIT),
            TorrentClientsEnum::Flood(c) => c.retry_loop(),
        }
    }
}

/// One download as a client lists it.
#[derive(Debug, PartialEq, Eq, Hash)]
pub struct DownloadResult {
    name: String,
    size: i64,
    creation_date: i64,
}

impl DownloadResult {
    /// The name of the download.
    pub closed spec fn spec_name(&self) -> Seq<char> {
        self.name@
    }

    /// Its size in bytes.
    pub closed spec fn spec_size(&self) -> i64 {
        self.size
    }

    /// When it was added, in seconds since the epoch.
    pub closed spec fn spec_creation_date(&self) -> i64 {
        self.creation_date
    }

    /// A download with the given name, size in bytes and creation time.
    pub fn new(name: String, size: i64, creation_date: i64) -> (r: DownloadResult)
        ensures
            r.spec_name() == name@,
            r.spec_size() == size,
            r.spec_creation_date() == creation_date,
    {
        DownloadResult { name, size, creation_date }
    }

    /// The name of the download.
    pub fn get_name(&self) -> (r: &str)
        ensures
            r@ == self.spec_name(),
    {
        self.name.as_str()
    }

    /// Its size in bytes.
    pub fn get_size(&self) -> (r: i64)
        ensures
            r == self.spec_size(),
    {
        self.size
    }

    /// When it was added, in seconds since the epoch.
    pub fn get_creation_date(&self) -> (r: i64)
        ensures
            r == self.spec_creation_date(),
    {
        self.creation_date
    }
}

impl Clone for DownloadResult {
    fn clone(&self) -> (r: Self)
        ensures
            r == *self,
    {
        DownloadResult {
            name: self.name.clone(),
            size: self.size,
            creation_date: self.creation_date,
        }
    }
}

impl Default for DownloadResult {
    fn default() -> (r: Self)
        ensures
            r.spec_name() == Seq::<char>::empty(),
            r.spec_size() == 0,
            r.spec_creation_date() == 0,
    {
        DownloadResult { name: String::new(), size: 0, creation_date: 0 }
    }
}

/// What a client is asked to do.
#[derive(Debug, Clone, Copy, PartialEq, Eq)]
pub enum Operation {
    /// List the downloads it holds.
    ListDownloads,
    /// Take a torrent file and start the download.
    SubmitAndStart,
}

/// Why a request to a client came to nothing.
#[derive(Debug, PartialEq, Eq)]
pub enum Failure {
    /// The client kept asking for a login until the retries ran out.
    CannotAuthorize,
    /// The client turned the login down.
    LoginFailed,
    /// The client answered the operation with a status other than success.
    Refused(Operation),
    /// The call did not complete; the text says why.
    Transport(String),
    /// The answer could not be read; the text says why.
    Malformed(String),
}

/// The text that tells an operator of a failure.
pub open spec fn failure_text(f: Failure) -> Seq<char> {
    match f {
        Failure::CannotAuthorize => "Can not authorize"@,
        Failure::LoginFailed => "Login failed"@,
        Failure::Refused(Operation::ListDownloads) => "Can not get torrent list"@,
        Failure::Refused(Operation::SubmitAndStart) => "Can not add torrent"@,
        Failure::Transport(why) => why@,
        Failure::Malformed(why) => why@,
    }
}

impl Failure {
    /// The text that tells an operator of this failure.
    pub fn message(&self) -> (r: String)
        ensures
            r@ == failure_text(*self),
    {
        match self {
            Failure::CannotAuthorize => String::from_str("Can not authorize"),
            Failure::LoginFailed => String::from_str("Login failed"),
            Failure::Refused(Operation::ListDownloads) => String::from_str(
                "Can not get torrent list",
            ),
            Failure::Refused(Operation::SubmitAndStart) => String::from_str("Can not add torrent"),
            Failure::Transport(why) => why.clone(),
            Failure::Malformed(why) => why.clone(),
        }
    }
}

/// How often a call that met an expired login is retried.
pub const RETRY_LIMIT: u8 = 3;

/// What one call to the client came to.
#[derive(Debug, PartialEq, Eq)]
pub enum CallResult {
    /// The client did what was asked.
    Done,
    /// The client asks for a login first.
    Unauthorized,
    /// The call failed for another reason.
    Failed(Failure),
}

/// What to do next in a request that retries after a new login.
#[derive(Debug, PartialEq, Eq)]
pub enum RetryAction {
    /// Make the call (again).
    Call,
    /// Log in anew, then report how that went.
    Login,
    /// The request is done.
    Succeed,
    /// The request has failed for good.
    Fail(Failure),
}

/// What follows one call: success ends the request, a missing login asks
/// for a new one, and any other failure ends the request at once.
pub open spec fn action_after_call(result: CallResult) -> RetryAction {
    match result {
        CallResult::Done => RetryAction::Succeed,
        CallResult::Unauthorized => RetryAction::Login,
        CallResult::Failed(f) => RetryAction::Fail(f),
    }
}

/// What follows a new login after `retries` earlier ones: a refused login
/// ends the request; an accepted one allows another call unless that would
/// go over the limit.
pub open spec fn action_after_login(retries: nat, limit: nat, accepted: bool) -> RetryAction {
    if !accepted {
        RetryAction::Fail(Failure::LoginFailed)
    } else if retries + 1 >= limit {
        RetryAction::Fail(Failure::CannotAuthorize)
    } else {
        RetryAction::Call
    }
}

/// The number of new logins made after one more has been answered.
pub open spec fn retries_after_login(retries: nat, limit: nat, accepted: bool) -> nat {
    if accepted && retries < limit {
        retries + 1
    } else {
        retries
    }
}

/// One request to a client, retried after a new login as long as the
/// client asks for one and the limit allows. Whoever talks to the client
/// makes the calls and reports each result here.
pub struct RetryLoop {
    retries: u8,
    limit: u8,
}

impl RetryLoop {
    #[verifier::type_invariant]
    spec fn within_limit(self) -> bool {
        self.retries <= self.limit
    }

    /// The new logins that were accepted so far.
    pub closed spec fn retries(&self) -> nat {
        self.retries as nat
    }

    /// The limit on them.
    pub closed spec fn limit(&self) -> nat {
        self.limit as nat
    }

    /// A request that has not been retried yet; the first thing to do is the call.
    pub fn new(limit: u8) -> (r: RetryLoop)
        ensures
            r.retries() == 0,
            r.limit() == limit,
    {
        RetryLoop { retries: 0, limit }
    }

    /// What to do after a call has returned.
    pub fn on_call(&self, result: CallResult) -> (r: RetryAction)
        ensures
            r == action_after_call(result),
    {
        match result {
            CallResult::Done => RetryAction::Succeed,
            CallResult::Unauthorized => RetryAction::Login,
            CallResult::Failed(f) => RetryAction::Fail(f),
        }
    }

    /// What to do after a new login has been answered.
    pub fn on_login(&mut self, accepted: bool) -> (r: RetryAction)
        ensures
            r == action_after_login(old(self).retries(), old(self).limit(), accepted),
            final(self).retries() == retries_after_login(
                old(self).retries(),
                old(self).limit(),
                accepted,
            ),
            final(self).limit() == old(self).limit(),
    {
        proof {
            use_type_invariant(&*self);
        }
        if !accepted {
            RetryAction::Fail(Failure::LoginFailed)
        } else {
            if self.retries < self.limit {
                self.retries = self.retries + 1;
            }
            if self.retries >= self.limit {
                RetryAction::Fail(Failure::CannotAuthorize)
            } else {
                RetryAction::Call
            }
        }
    }
}

/// How a request ends, and what it took.
pub struct RetryRun {
    /// Whether the request succeeded.
    pub outcome: Result<(), Failure>,
    /// The calls made to the client.
    pub calls: nat,
    /// The new logins asked of the client.
    pub logins: nat,
}

/// The course of a request with `retries` new logins behind it against a
/// client that accepts every login and asks for one on each of its next `k`
/// calls before it does what was asked.
pub open spec fn run_against(retries: nat, limit: nat, k: nat) -> RetryRun
    decreases k,
{
    let answer = if k == 0 {
        CallResult::Done
    } else {
        CallResult::Unauthorized
    };
    match action_after_call(answer) {
        RetryAction::Login => match action_after_login(retries, limit, true) {
            RetryAction::Call => if k > 0 {
                let rest = run_against(
                    retries_after_login(retries, limit, true),
                    limit,
                    (k - 1) as nat,
                );
                RetryRun { outcome: rest.outcome, calls: rest.calls + 1, logins: rest.logins + 1 }
            } else {
                RetryRun { outcome: Ok(()), calls: 1, logins: 1 }
            },
            RetryAction::Fail(f) => RetryRun { outcome: Err(f), calls: 1, logins: 1 },
            _ => RetryRun { outcome: Ok(()), calls: 1, logins: 1 },
        },
        RetryAction::Fail(f) => RetryRun { outcome: Err(f), calls: 1, logins: 0 },
        _ => RetryRun { outcome: Ok(()), calls: 1, logins: 0 },
    }
}

/// A request with `retries` new logins behind it, against a client that
/// asks for a login `k` more times, succeeds exactly when `retries + k`
/// stays below the limit, with one call more than logins; otherwise it
/// ends for want of authorization when the limit is reached.
pub proof fn lemma_run_against(retries: nat, limit: nat, k: nat)
    requires
        retries < limit,
    ensures
        retries + k < limit ==> run_against(retries, limit, k) == (RetryRun {
            outcome: Ok(()),
            calls: k + 1,
            logins: k,
        }),
        retries + k >= limit ==> run_against(retries, limit, k) == (RetryRun {
            outcome: Err(Failure::CannotAuthorize),
            calls: (limit - retries) as nat,
            logins: (limit - retries) as nat,
        }),
    decreases k,
{
    if k > 0 && retries + 1 < limit {
        lemma_run_against(retries + 1, limit, (k - 1) as nat);
    }
}

/// Against a client that asks for a login on its first `k` calls, a fresh
/// request succeeds exactly when `k` is below the retry limit, and then
/// after `k + 1` calls and `k` new logins; from the limit on it fails for
/// want of authorization, after as many calls and new logins as the limit.
pub proof fn lemma_retry_with_relogin(k: nat)
    ensures
        run_against(0, RETRY_LIMIT as nat, k).outcome is Ok <==> k < RETRY_LIMIT,
        k >= RETRY_LIMIT <==> run_against(0, RETRY_LIMIT as nat, k).outcome == Err::<(), Failure>(
            Failure::CannotAuthorize,
        ),
        k < RETRY_LIMIT ==> run_against(0, RETRY_LIMIT as nat, k).calls == k + 1
            && run_against(0, RETRY_LIMIT as nat, k).logins == k,
        k >= RETRY_LIMIT ==> run_against(0, RETRY_LIMIT as nat, k).calls == RETRY_LIMIT
            && run_against(0, RETRY_LIMIT as nat, k).logins == RETRY_LIMIT,
{
    lemma_run_against(0, RETRY_LIMIT as nat, k);
}

} // verus!
