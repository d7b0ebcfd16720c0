//! The start command of a deep link that subscribes to a query or
//! unsubscribes from it.

use crate::db::SearchQuery;
use crate::telegram::commands::{
    deep_link, CommandPayload, SubscriptionCommand, ACTION_SUBSCRIBE, ACTION_UNSUBSCRIBE,
};
use crate::telegram::render::{Link, LinkView};
use vstd::prelude::*;
use vstd::string::StringExecFns;

verus! {

/// What a deep link asks of the bot about one query.
#[derive(Debug, Clone, Copy, PartialEq, Eq, Structural)]
pub enum StartPayload {
    Subscribe { query_hash: i64 },
    Unsubscribe { query_hash: i64 },
}

impl StartPayload {
    /// The payload as a command.
    pub open spec fn command(self) -> CommandPayload {
        match self {
            StartPayload::Subscribe { query_hash } => CommandPayload {
                manage: false,
                subscription: Some(SubscriptionCommand { query_hash, action: ACTION_SUBSCRIBE }),
            },
            StartPayload::Unsubscribe { query_hash } => CommandPayload {
                manage: false,
                subscription: Some(SubscriptionCommand { query_hash, action: ACTION_UNSUBSCRIBE }),
            },
        }
    }

    /// What a command asks about one query, if it asks for a known action.
    pub open spec fn of_command(payload: CommandPayload) -> Option<StartPayload> {
        match payload.subscription {
            Some(command) => if command.action == ACTION_SUBSCRIBE {
                Some(StartPayload::Subscribe { query_hash: command.query_hash })
            } else if command.action == ACTION_UNSUBSCRIBE {
                Some(StartPayload::Unsubscribe { query_hash: command.query_hash })
            } else {
                None
            },
            None => None,
        }
    }

    /// Turns the payload into a command.
    pub fn to_command(&self) -> (r: CommandPayload)
        ensures
            r == self.command(),
            StartPayload::of_command(r) == Some(*self),
    {
        match self {
            StartPayload::Subscribe { query_hash } => CommandPayload::with_subscription(
                SubscriptionCommand::subscribe(*query_hash),
            ),
            StartPayload::Unsubscribe { query_hash } => CommandPayload::with_subscription(
                SubscriptionCommand::unsubscribe(*query_hash),
            ),
        }
    }

    /// Reads from a command what it asks about one query. A command without
    /// a subscription, or with an action that is not known, asks nothing.
    pub fn from_command(payload: &CommandPayload) -> (r: Option<StartPayload>)
        ensures
            r == StartPayload::of_command(*payload),
    {
        match payload.subscription {
            Some(command) => {
                if command.action == ACTION_SUBSCRIBE {
                    Some(StartPayload::Subscribe { query_hash: command.query_hash })
                } else if command.action == ACTION_UNSUBSCRIBE {
                    Some(StartPayload::Unsubscribe { query_hash: command.query_hash })
                } else {
                    None
                }
            },
            None => None,
        }
    }
}

/// Start command with a deep link.
#[derive(Debug, Clone, PartialEq, Eq)]
pub struct StartCommand {
    /// User name of the bot.
    pub me: String,
    /// Text of the link.
    pub text: String,
    pub payload: StartPayload,
}

impl StartCommand {
    /// The link of the command.
    pub fn link(&self) -> (r: Link)
        ensures
            r.deep_view() == (LinkView {
                content: self.text@,
                url: deep_link(self.me@, self.payload.command().base64()),
            }),
    {
        let mut url = String::from_str("https://t.me/");
        url.append(self.me.as_str());
        url.append("?start=");
        url.append(self.payload.to_command().to_base64().as_str());
        Link { content: self.text.clone(), url }
    }
}

impl SearchQuery {
    /// The payload that subscribes to the query.
    pub fn subscribe(&self) -> (r: StartPayload)
        ensures
            r == (StartPayload::Subscribe { query_hash: self.hash }),
    {
        StartPayload::Subscribe { query_hash: self.hash }
    }

    /// The payload that unsubscribes from the query.
    pub fn unsubscribe(&self) -> (r: StartPayload)
        ensures
            r == (StartPayload::Unsubscribe { query_hash: self.hash }),
    {
        StartPayload::Unsubscribe { query_hash: self.hash }
    }
}

} // verus!
