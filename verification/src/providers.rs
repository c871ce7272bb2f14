//! Outbound channels: the social-media account and the chat webhook.
//!
//! Neither type here talks to the network. Each holds the identity under
//! which a text goes out and turns a text into the request that the
//! caller's transport has to send.

use vstd::prelude::*;

verus! {

/// Why a runtime could not be built.
#[derive(Debug, Clone, Copy, PartialEq, Eq)]
pub enum ConfigError {
    /// Neither a username with its password nor all four API keys were
    /// given, so there is no identity to publish under.
    MissingTwitterCredentials,
}

/// The social-media identity, in one of its two authentication schemes.
/// The scheme is chosen once, by [`TwitterType::select`].
#[derive(Debug, PartialEq, Eq)]
pub enum TwitterType {
    /// Authentication by the four keys of the official API.
    ApiKeys {
        consumer_key: String,
        consumer_secret: String,
        access_token: String,
        access_token_secret: String,
    },
    /// Authentication by username and password.
    Ai16zTwitter { username: String, password: String },
}

/// What a [`TwitterType`] is in contracts.
pub ghost enum TwitterTypeView {
    ApiKeys {
        consumer_key: Seq<char>,
        consumer_secret: Seq<char>,
        access_token: Seq<char>,
        access_token_secret: Seq<char>,
    },
    Ai16zTwitter { username: Seq<char>, password: Seq<char> },
}

impl View for TwitterType {
    type V = TwitterTypeView;

    open spec fn view(&self) -> TwitterTypeView {
        match self {
            TwitterType::ApiKeys {
                consumer_key,
                consumer_secret,
                access_token,
                access_token_secret,
            } => TwitterTypeView::ApiKeys {
                consumer_key: consumer_key@,
                consumer_secret: consumer_secret@,
                access_token: access_token@,
                access_token_secret: access_token_secret@,
            },
            TwitterType::Ai16zTwitter { username, password } => TwitterTypeView::Ai16zTwitter {
                username: username@,
                password: password@,
            },
        }
    }
}

/// A text on its way to the social-media account: the identity to
/// publish under, which fixes the transport, and the text.
#[derive(Debug, PartialEq, Eq)]
pub struct Tweet {
    pub account: TwitterType,
    pub text: String,
}

/// What a [`Tweet`] is in contracts.
pub ghost struct TweetView {
    pub account: TwitterTypeView,
    pub text: Seq<char>,
}

impl View for Tweet {
    type V = TweetView;

    open spec fn view(&self) -> TweetView {
        TweetView { account: self.account@, text: self.text@ }
    }
}

/// The view of an optional string slice.
pub open spec fn text_of(field: Option<&str>) -> Option<Seq<char>> {
    match field {
        Some(s) => Some(s@),
        None => None,
    }
}

/// The selection policy. A username with its password wins, whatever
/// else is given. Failing that, the four API keys are taken if all of
/// them are there. Otherwise there is no identity.
pub open spec fn selected(
    consumer_key: Option<Seq<char>>,
    consumer_secret: Option<Seq<char>>,
    access_token: Option<Seq<char>>,
    access_token_secret: Option<Seq<char>>,
    username: Option<Seq<char>>,
    password: Option<Seq<char>>,
) -> Option<TwitterTypeView> {
    if username is Some && password is Some {
        Some(TwitterTypeView::Ai16zTwitter { username: username->0, password: password->0 })
    } else if consumer_key is Some && consumer_secret is Some && access_token is Some
        && access_token_secret is Some {
        Some(
            TwitterTypeView::ApiKeys {
                consumer_key: consumer_key->0,
                consumer_secret: consumer_secret->0,
                access_token: access_token->0,
                access_token_secret: access_token_secret->0,
            },
        )
    } else {
        None
    }
}

impl TwitterType {
    /// Chooses the authentication scheme from what was configured.
    ///
    /// Succeeds exactly when [`selected`] names an identity, and then
    /// returns that identity. So a username with its password gives
    /// password authentication even beside four API keys, and the
    /// choice fails exactly when there is neither such a pair nor all
    /// four keys.
    pub fn select(
        consumer_key: Option<&str>,
        consumer_secret: Option<&str>,
        access_token: Option<&str>,
        access_token_secret: Option<&str>,
        username: Option<&str>,
        password: Option<&str>,
    ) -> (choice: Result<TwitterType, ConfigError>)
        ensures
            match selected(
                text_of(consumer_key),
                text_of(consumer_secret),
                text_of(access_token),
                text_of(access_token_secret),
                text_of(username),
                text_of(password),
            ) {
                Some(account) => choice matches Ok(chosen) && chosen@ == account,
                None => choice == Err::<TwitterType, ConfigError>(
                    ConfigError::MissingTwitterCredentials,
                ),
            },
            username is Some && password is Some ==> (choice matches Ok(chosen)
                && chosen@ is Ai16zTwitter),
            choice is Err <==> !(username is Some && password is Some) && !(consumer_key is Some
                && consumer_secret is Some && access_token is Some && access_token_secret
                is Some),
    {
        match (username, password) {
            (Some(username), Some(password)) => Ok(
                TwitterType::Ai16zTwitter {
                    username: username.to_owned(),
                    password: password.to_owned(),
                },
            ),
            (_, _) => match (consumer_key, consumer_secret, access_token, access_token_secret) {
                (
                    Some(consumer_key),
                    Some(consumer_secret),
                    Some(access_token),
                    Some(access_token_secret),
                ) => Ok(
                    TwitterType::ApiKeys {
                        consumer_key: consumer_key.to_owned(),
                        consumer_secret: consumer_secret.to_owned(),
                        access_token: access_token.to_owned(),
                        access_token_secret: access_token_secret.to_owned(),
                    },
                ),
                _ => Err(ConfigError::MissingTwitterCredentials),
            },
        }
    }

    /// The request that publishes `text` under this identity. The
    /// request carries the identity unchanged, so the transport that
    /// sends it is the one of the scheme chosen at construction.
    pub fn tweet(&self, text: &str) -> (request: Tweet)
        ensures
            request@ == (TweetView { account: self@, text: text@ }),
    {
        Tweet { account: self.clone(), text: text.to_owned() }
    }
}

impl Clone for TwitterType {
    fn clone(&self) -> (copy: TwitterType)
        ensures
            copy@ == self@,
    {
        match self {
            TwitterType::ApiKeys {
                consumer_key,
                consumer_secret,
                access_token,
                access_token_secret,
            } => TwitterType::ApiKeys {
                consumer_key: consumer_key.clone(),
                consumer_secret: consumer_secret.clone(),
                access_token: access_token.clone(),
                access_token_secret: access_token_secret.clone(),
            },
            TwitterType::Ai16zTwitter { username, password } => TwitterType::Ai16zTwitter {
                username: username.clone(),
                password: password.clone(),
            },
        }
    }
}

/// The chat webhook. Always there, whatever the social-media scheme.
#[derive(Debug, PartialEq, Eq)]
pub struct Discord {
    webhook_url: String,
}

impl View for Discord {
    type V = Seq<char>;

    /// A webhook is its URL.
    closed spec fn view(&self) -> Seq<char> {
        self.webhook_url@
    }
}

/// A text on its way to the chat webhook.
#[derive(Debug, PartialEq, Eq)]
pub struct ChannelMessage {
    pub webhook_url: String,
    pub text: String,
}

/// What a [`ChannelMessage`] is in contracts.
pub ghost struct ChannelMessageView {
    pub webhook_url: Seq<char>,
    pub text: Seq<char>,
}

impl View for ChannelMessage {
    type V = ChannelMessageView;

    open spec fn view(&self) -> ChannelMessageView {
        ChannelMessageView { webhook_url: self.webhook_url@, text: self.text@ }
    }
}

impl Discord {
    /// Makes the chat target for a webhook URL.
    pub fn new(webhook_url: &str) -> (discord: Discord)
        ensures
            discord@ == webhook_url@,
    {
        Discord { webhook_url: webhook_url.to_owned() }
    }

    /// The request that sends `text` to the webhook.
    pub fn send_channel_message(&self, text: &str) -> (request: ChannelMessage)
        ensures
            request@ == (ChannelMessageView { webhook_url: self@, text: text@ }),
    {
        ChannelMessage { webhook_url: self.webhook_url.clone(), text: text.to_owned() }
    }
}

} // verus!
