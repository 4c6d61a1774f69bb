//! Who may make the bot act: the verdict on where a line comes from, and
//! the decision on an announcement or a command.

use vstd::prelude::*;
use crate::config::{Config, SecurityMode};
use crate::pattern::{capture, compile, regex_capture, regex_compiled};
use crate::text::{same, texts};

verus! {

/// Where a line comes from, as far as trust goes.
#[derive(Debug, Clone, Copy, PartialEq, Eq)]
pub enum SourceValidityResult {
    /// The operator, in a private exchange.
    OwnerPrivateMessage,
    /// The operator, in a feed channel.
    OwnerAnnounceChannel,
    /// The operator, in some other channel.
    OwnerPublicChannel,
    /// Somebody else, in a feed channel.
    AnnounceChannel,
    /// Somebody else, elsewhere.
    InvalidSource,
}

/// Whether a line may make the bot act, and on what grounds.
#[derive(Debug, Clone, Copy, PartialEq, Eq)]
pub enum AuthResult {
    /// Granted: the line carries the shared secret.
    PasswordValidated,
    /// Granted: the line comes from the right place.
    SourceValidated,
    /// Denied.
    NotAuthorized,
}

/// What a line asks for.
#[derive(Debug, Clone, Copy, PartialEq, Eq)]
pub enum MessageTypes {
    Command,
    Announcement,
    Other,
}

/// The pattern that finds the shared secret in a line: `auth:[..]`.
pub open spec fn token_pattern() -> Seq<char> {
    r"auth:\[(?P<password>.+)]"@
}

/// The secret that a line carries, if any.
pub open spec fn embedded_token(message: Seq<char>) -> Option<Seq<char>> {
    match regex_compiled(token_pattern()) {
        Ok(re) => regex_capture(re, message, "password"@),
        Err(_) => None,
    }
}

/// The verdict for each combination of: the sender is the operator, the
/// channel is a feed channel, the exchange is private.
pub open spec fn source_verdict(trusted: bool, feed: bool, direct: bool) -> SourceValidityResult {
    match (trusted, feed, direct) {
        (true, true, true) => SourceValidityResult::OwnerAnnounceChannel,
        (true, true, false) => SourceValidityResult::OwnerAnnounceChannel,
        (true, false, true) => SourceValidityResult::OwnerPrivateMessage,
        (true, false, false) => SourceValidityResult::OwnerPublicChannel,
        (false, true, true) => SourceValidityResult::AnnounceChannel,
        (false, true, false) => SourceValidityResult::AnnounceChannel,
        (false, false, true) => SourceValidityResult::InvalidSource,
        (false, false, false) => SourceValidityResult::InvalidSource,
    }
}

/// Whether the verdict names the operator.
pub open spec fn is_trusted(verdict: SourceValidityResult) -> bool {
    verdict == SourceValidityResult::OwnerPrivateMessage || verdict
        == SourceValidityResult::OwnerAnnounceChannel || verdict
        == SourceValidityResult::OwnerPublicChannel
}

/// Whether `nick` is the operator: only a run that knows its operator by
/// nickname has one.
pub open spec fn is_operator(mode: SecurityMode, nick: Seq<char>) -> bool {
    mode matches SecurityMode::IrcUserName(u) && u@ == nick
}

/// The verdict on a sender in a channel under a configuration.
pub open spec fn source_of(config: &Config, nick: Seq<char>, channel: Seq<char>) -> SourceValidityResult {
    source_verdict(
        is_operator(config.options().command_options.security_mode, nick),
        config.feed_channels().contains(channel),
        nick == channel,
    )
}

/// The decision on a command.
pub open spec fn command_decision(
    enabled: bool,
    mode: SecurityMode,
    verdict: SourceValidityResult,
    token: Option<Seq<char>>,
) -> AuthResult {
    if !enabled {
        AuthResult::NotAuthorized
    } else {
        match mode {
            SecurityMode::IrcUserName(_) => if is_trusted(verdict) {
                AuthResult::SourceValidated
            } else {
                AuthResult::NotAuthorized
            },
            SecurityMode::Password(secret) => if token == Some(secret@) {
                AuthResult::PasswordValidated
            } else {
                AuthResult::NotAuthorized
            },
        }
    }
}

/// The decision on a line: an announcement counts when somebody other than
/// the operator posts it in a feed channel; a command counts when commands
/// are on and the operator sends it, or it carries the secret.
pub open spec fn decision(
    kind: MessageTypes,
    enabled: bool,
    mode: SecurityMode,
    verdict: SourceValidityResult,
    token: Option<Seq<char>>,
) -> AuthResult {
    match kind {
        MessageTypes::Command => command_decision(enabled, mode, verdict, token),
        MessageTypes::Announcement => if verdict == SourceValidityResult::AnnounceChannel {
            AuthResult::SourceValidated
        } else {
            AuthResult::NotAuthorized
        },
        MessageTypes::Other => AuthResult::NotAuthorized,
    }
}

/// The authorization engine. It holds the compiled token pattern.
pub struct Authorization {
    pwd_regex: regex::Regex,
}

impl Authorization {
    #[verifier::type_invariant]
    spec fn holds_token_pattern(self) -> bool {
        regex_compiled(token_pattern()) == Ok::<regex::Regex, regex::Error>(self.pwd_regex)
    }

    /// An engine, unless the token pattern does not compile.
    pub fn new() -> (r: Option<Authorization>)
        ensures
            r is Some <==> regex_compiled(token_pattern()) is Ok,
    {
        match compile(r"auth:\[(?P<password>.+)]") {
            Ok(re) => Some(Authorization { pwd_regex: re }),
            Err(_) => None,
        }
    }

    /// The verdict for one combination, by priority: the operator in a feed
    /// channel, the operator in private, the operator elsewhere, anybody in
    /// a feed channel, and the rest.
    pub fn classify(trusted: bool, feed: bool, direct: bool) -> (r: SourceValidityResult)
        ensures
            r == source_verdict(trusted, feed, direct),
    {
        if trusted && feed {
            SourceValidityResult::OwnerAnnounceChannel
        } else if trusted && direct {
            SourceValidityResult::OwnerPrivateMessage
        } else if trusted {
            SourceValidityResult::OwnerPublicChannel
        } else if feed {
            SourceValidityResult::AnnounceChannel
        } else {
            SourceValidityResult::InvalidSource
        }
    }

    /// Whether `channel` is one of the feed channels.
    pub fn is_valid_channel(&self, config: &Config, channel: &str) -> (r: bool)
        ensures
            r == config.feed_channels().contains(channel@),
    {
        let channels = config.get_feed_channels();
        let mut i: usize = 0;
        while i < channels.len()
            invariant
                i <= channels.len(),
                texts(channels@) == config.feed_channels(),
                forall|j: int| 0 <= j < i ==> config.feed_channels()[j] != channel@,
            decreases channels.len() - i,
        {
            if same(channels[i].as_str(), channel) {
                assert(config.feed_channels()[i as int] == channel@);
                return true;
            }
            i = i + 1;
        }
        false
    }

    /// Whether `nick` is the operator.
    pub fn is_owner(&self, config: &Config, nick: &str) -> (r: bool)
        ensures
            r == is_operator(config.options().command_options.security_mode, nick@),
    {
        match config.get_security_mode() {
            SecurityMode::IrcUserName(valid_user) => same(nick, valid_user.as_str()),
            SecurityMode::Password(_) => false,
        }
    }

    /// The verdict on a sender in a channel.
    pub fn validate_source(&self, config: &Config, nick: &str, channel: &str) -> (r:
        SourceValidityResult)
        ensures
            r == source_of(config, nick@, channel@),
    {
        let is_owner = self.is_owner(config, nick);
        let is_valid_channel = self.is_valid_channel(config, channel);
        Authorization::classify(is_owner, is_valid_channel, same(nick, channel))
    }

    /// The decision on a line of a given kind, from what was found out about it.
    pub fn decide(
        kind: MessageTypes,
        enabled: bool,
        mode: &SecurityMode,
        verdict: SourceValidityResult,
        token: Option<&str>,
    ) -> (r: AuthResult)
        ensures
            r == decision(
                kind,
                enabled,
                *mode,
                verdict,
                match token {
                    Some(t) => Some(t@),
                    None => None,
                },
            ),
    {
        match kind {
            MessageTypes::Command => {
                if !enabled {
                    return AuthResult::NotAuthorized;
                }
                match mode {
                    SecurityMode::IrcUserName(_) => match verdict {
                        SourceValidityResult::OwnerPrivateMessage
                        | SourceValidityResult::OwnerAnnounceChannel
                        | SourceValidityResult::OwnerPublicChannel => AuthResult::SourceValidated,
                        _ => AuthResult::NotAuthorized,
                    },
                    SecurityMode::Password(secret) => match token {
                        Some(t) => if same(t, secret.as_str()) {
                            AuthResult::PasswordValidated
                        } else {
                            AuthResult::NotAuthorized
                        },
                        None => AuthResult::NotAuthorized,
                    },
                }
            },
            MessageTypes::Announcement => match verdict {
                SourceValidityResult::AnnounceChannel => AuthResult::SourceValidated,
                _ => AuthResult::NotAuthorized,
            },
            MessageTypes::Other => AuthResult::NotAuthorized,
        }
    }

    /// The decision on a line: where it comes from is looked up in the
    /// configuration, and the secret it carries is searched in its text.
    pub fn authenticate(
        &self,
        config: &Config,
        nick: &str,
        channel: &str,
        message: &str,
        message_type: MessageTypes,
    ) -> (r: AuthResult)
        ensures
            r == decision(
                message_type,
                config.options().command_options.commands_enabled,
                config.options().command_options.security_mode,
                source_of(config, nick@, channel@),
                embedded_token(message@),
            ),
    {
        proof {
            use_type_invariant(self);
        }
        let verdict = self.validate_source(config, nick, channel);
        let token = capture(&self.pwd_regex, message, "password");
        let found: Option<&str> = match &token {
            Some(t) => Some(t.as_str()),
            None => None,
        };
        Authorization::decide(
            message_type,
            config.is_commands_enabled(),
            config.get_security_mode(),
            verdict,
            found,
        )
    }
}

} // verus!
