//! Commands that travel in deep links: their payload, its encoding, and the
//! links themselves.
//!
//! A payload is a sequence of fields. Each field is a tag of one byte, a
//! length of one byte and a value of that many bytes. Tag 1 is the manage
//! flag, with an empty value. Tag 2 is a subscription: the fingerprint of the
//! query in 8 bytes and the action in 4 bytes, both little endian, in two's
//! complement. Fields with other tags are passed over. The bytes travel in
//! URL-safe base64 without padding.

use crate::telegram::render::{Link, LinkView};
use crate::text::chars_of;
use vstd::bytes::{
    spec_u32_from_le_bytes, spec_u32_to_le_bytes, spec_u64_from_le_bytes, spec_u64_to_le_bytes,
    u32_from_le_bytes, u32_to_le_bytes, u64_from_le_bytes, u64_to_le_bytes,
};
use vstd::prelude::*;
use vstd::slice::slice_subrange;
use vstd::string::StringExecFns;

verus! {

/// Tag of the manage flag.
pub const TAG_MANAGE: u8 = 1;

/// Tag of a subscription.
pub const TAG_SUBSCRIPTION: u8 = 2;

/// Number of the action that subscribes.
pub const ACTION_SUBSCRIBE: i32 = 1;

/// Number of the action that unsubscribes.
pub const ACTION_UNSUBSCRIBE: i32 = 2;

/// Most characters that the chat platform takes as the payload of a link.
pub const START_LIMIT: usize = 64;

/// What a subscription command asks for.
#[derive(Debug, Clone, Copy, PartialEq, Eq, Structural)]
pub enum SubscriptionAction {
    Subscribe,
    Unsubscribe,
}

/// A command about the subscription to one query.
#[derive(Debug, Clone, Copy, PartialEq, Eq, Structural)]
pub struct SubscriptionCommand {
    /// Fingerprint of the query.
    pub query_hash: i64,
    /// Number of the action. A number that stands for no known action is
    /// kept as it came.
    pub action: i32,
}

impl SubscriptionCommand {
    /// The action that a number stands for, if it is known.
    pub open spec fn spec_action(self) -> Option<SubscriptionAction> {
        if self.action == ACTION_SUBSCRIBE {
            Some(SubscriptionAction::Subscribe)
        } else if self.action == ACTION_UNSUBSCRIBE {
            Some(SubscriptionAction::Unsubscribe)
        } else {
            None
        }
    }

    /// The command to subscribe to a query.
    pub fn subscribe(query_hash: i64) -> (r: SubscriptionCommand)
        ensures
            r == (SubscriptionCommand { query_hash, action: ACTION_SUBSCRIBE }),
            r.spec_action() == Some(SubscriptionAction::Subscribe),
    {
        SubscriptionCommand { query_hash, action: ACTION_SUBSCRIBE }
    }

    /// The command to unsubscribe from a query.
    pub fn unsubscribe(query_hash: i64) -> (r: SubscriptionCommand)
        ensures
            r == (SubscriptionCommand { query_hash, action: ACTION_UNSUBSCRIBE }),
            r.spec_action() == Some(SubscriptionAction::Unsubscribe),
    {
        SubscriptionCommand { query_hash, action: ACTION_UNSUBSCRIBE }
    }

    /// The action of the command, if its number is known.
    pub fn action(&self) -> (r: Option<SubscriptionAction>)
        ensures
            r == self.spec_action(),
    {
        if self.action == ACTION_SUBSCRIBE {
            Some(SubscriptionAction::Subscribe)
        } else if self.action == ACTION_UNSUBSCRIBE {
            Some(SubscriptionAction::Unsubscribe)
        } else {
            None
        }
    }
}

/// What a deep link carries.
#[derive(Debug, Clone, Copy, PartialEq, Eq, Structural)]
pub struct CommandPayload {
    /// Whether the subscriptions are to be listed.
    pub manage: bool,
    pub subscription: Option<SubscriptionCommand>,
}

/// Why bytes are no payload.
#[derive(Debug, Clone, Copy, PartialEq, Eq, Structural)]
pub enum PayloadError {
    /// The text is no URL-safe base64 without padding.
    Base64,
    /// A field ends after the bytes do.
    Truncated,
    /// The value of a subscription does not have 12 bytes.
    Subscription,
}

/// The bytes of a subscription's value.
pub open spec fn subscription_bytes(command: SubscriptionCommand) -> Seq<u8> {
    spec_u64_to_le_bytes(command.query_hash as u64) + spec_u32_to_le_bytes(command.action as u32)
}

/// The subscription that 12 bytes stand for.
pub open spec fn subscription_of(value: Seq<u8>) -> SubscriptionCommand {
    SubscriptionCommand {
        query_hash: spec_u64_from_le_bytes(value.subrange(0, 8)) as i64,
        action: spec_u32_from_le_bytes(value.subrange(8, 12)) as i32,
    }
}

impl CommandPayload {
    /// The payload that asks for nothing.
    pub open spec fn empty() -> CommandPayload {
        CommandPayload { manage: false, subscription: None }
    }

    /// The bytes of the payload: the manage flag, then the subscription.
    pub open spec fn encoded(self) -> Seq<u8> {
        (if self.manage {
            seq![TAG_MANAGE, 0u8]
        } else {
            Seq::empty()
        }) + (match self.subscription {
            Some(command) => seq![TAG_SUBSCRIPTION, 12u8] + subscription_bytes(command),
            None => Seq::empty(),
        })
    }

    /// The payload read so far, after the fields in `bytes` were read too.
    pub open spec fn decoded_onto(self, bytes: Seq<u8>) -> Result<CommandPayload, PayloadError>
        decreases bytes.len(),
    {
        if bytes.len() == 0 {
            Ok(self)
        } else if bytes.len() < 2 || bytes.len() < 2 + bytes[1] {
            Err(PayloadError::Truncated)
        } else {
            let end = 2 + bytes[1] as int;
            let value = bytes.subrange(2, end);
            let rest = bytes.skip(end);
            if bytes[0] == TAG_MANAGE {
                (CommandPayload { manage: true, ..self }).decoded_onto(rest)
            } else if bytes[0] == TAG_SUBSCRIPTION {
                if value.len() != 12 {
                    Err(PayloadError::Subscription)
                } else {
                    (CommandPayload {
                        subscription: Some(subscription_of(value)),
                        ..self
                    }).decoded_onto(rest)
                }
            } else {
                self.decoded_onto(rest)
            }
        }
    }

    /// The payload that bytes stand for.
    pub open spec fn decoded(bytes: Seq<u8>) -> Result<CommandPayload, PayloadError> {
        CommandPayload::empty().decoded_onto(bytes)
    }

    /// Payload that lists the subscriptions.
    pub fn manage() -> (r: CommandPayload)
        ensures
            r == (CommandPayload { manage: true, subscription: None }),
    {
        CommandPayload { manage: true, subscription: None }
    }

    /// Payload of a subscription command.
    pub fn with_subscription(command: SubscriptionCommand) -> (r: CommandPayload)
        ensures
            r == (CommandPayload { manage: false, subscription: Some(command) }),
    {
        CommandPayload { manage: false, subscription: Some(command) }
    }

    /// Writes the payload as bytes.
    pub fn encode(&self) -> (r: Vec<u8>)
        ensures
            r@ == self.encoded(),
            r@.len() <= 16,
    {
        proof {
            vstd::bytes::lemma_auto_spec_u64_to_from_le_bytes();
            vstd::bytes::lemma_auto_spec_u32_to_from_le_bytes();
        }
        let mut out: Vec<u8> = Vec::new();
        if self.manage {
            out.push(TAG_MANAGE);
            out.push(0u8);
        }
        match self.subscription {
            Some(command) => {
                out.push(TAG_SUBSCRIPTION);
                out.push(12u8);
                let mut hash = u64_to_le_bytes(command.query_hash as u64);
                let mut action = u32_to_le_bytes(command.action as u32);
                out.append(&mut hash);
                out.append(&mut action);
            },
            None => {},
        }
        out
    }

    /// Reads a payload from bytes. Fields with unknown tags are passed over,
    /// and of a field that occurs twice the last one counts.
    pub fn decode(bytes: &Vec<u8>) -> (r: Result<CommandPayload, PayloadError>)
        ensures
            r == CommandPayload::decoded(bytes@),
    {
        let mut payload = CommandPayload { manage: false, subscription: None };
        let mut i: usize = 0;
        let n = bytes.len();
        assert(bytes@.skip(0) == bytes@);
        while i < n
            invariant
                i <= n,
                n == bytes.len(),
                CommandPayload::decoded(bytes@) == payload.decoded_onto(bytes@.skip(i as int)),
            decreases n - i,
        {
            let ghost rest = bytes@.skip(i as int);
            if n - i < 2 {
                return Err(PayloadError::Truncated);
            }
            let tag = bytes[i];
            let len = bytes[i + 1] as usize;
            assert(rest[0] == tag && rest[1] == len);
            if n - i - 2 < len {
                return Err(PayloadError::Truncated);
            }
            let end = i + 2 + len;
            proof {
                assert(rest.skip(2 + len) == bytes@.skip(end as int));
                assert(rest.subrange(2, 2 + len) == bytes@.subrange(i + 2, end as int));
            }
            if tag == TAG_MANAGE {
                payload.manage = true;
            } else if tag == TAG_SUBSCRIPTION {
                if len != 12 {
                    return Err(PayloadError::Subscription);
                }
                let value = slice_subrange(bytes.as_slice(), i + 2, end);
                let hash = u64_from_le_bytes(slice_subrange(value, 0, 8));
                let action = u32_from_le_bytes(slice_subrange(value, 8, 12));
                payload.subscription = Some(
                    SubscriptionCommand { query_hash: hash as i64, action: action as i32 },
                );
            }
            i = end;
        }
        Ok(payload)
    }
}

/// Reading the value of a subscription gives the subscription back.
pub proof fn lemma_subscription_round_trip(command: SubscriptionCommand)
    ensures
        subscription_bytes(command).len() == 12,
        subscription_of(subscription_bytes(command)) == command,
{
    vstd::bytes::lemma_auto_spec_u64_to_from_le_bytes();
    vstd::bytes::lemma_auto_spec_u32_to_from_le_bytes();
    let hash = spec_u64_to_le_bytes(command.query_hash as u64);
    let action = spec_u32_to_le_bytes(command.action as u32);
    let value = subscription_bytes(command);
    assert(value.subrange(0, 8) == hash);
    assert(value.subrange(8, 12) == action);
    let h: i64 = command.query_hash;
    let a: i32 = command.action;
    assert((h as u64) as i64 == h) by (bit_vector);
    assert((a as u32) as i32 == a) by (bit_vector);
}

/// Round trip: reading the bytes of a payload gives the payload back.
pub proof fn law_payload_round_trip(payload: CommandPayload)
    ensures
        CommandPayload::decoded(payload.encoded()) == Ok::<CommandPayload, PayloadError>(payload),
{
    let bytes = payload.encoded();
    let flagged = CommandPayload { manage: payload.manage, subscription: None };
    let tail: Seq<u8> = match payload.subscription {
        Some(command) => seq![TAG_SUBSCRIPTION, 12u8] + subscription_bytes(command),
        None => Seq::empty(),
    };
    assert(flagged.decoded_onto(tail) == Ok::<CommandPayload, PayloadError>(payload)) by {
        match payload.subscription {
            Some(command) => {
                lemma_subscription_round_trip(command);
                assert(tail.subrange(2, 14) == subscription_bytes(command));
                assert(tail.skip(14).len() == 0);
                assert(payload.decoded_onto(tail.skip(14)) == Ok::<CommandPayload, PayloadError>(
                    payload,
                ));
            },
            None => {},
        }
    }
    if payload.manage {
        assert(bytes.subrange(2, 2) =~= Seq::<u8>::empty());
        assert(bytes.skip(2) == tail);
        assert(bytes[0] == TAG_MANAGE && bytes[1] == 0);
    } else {
        assert(bytes == tail);
    }
}

/// What the URL-safe base64 engine without padding of the `base64` crate
/// writes for bytes.
pub uninterp spec fn base64url_of(bytes: Seq<u8>) -> Seq<char>;

/// What the URL-safe base64 engine without padding of the `base64` crate
/// reads from a text, or `None` where it refuses the text.
pub uninterp spec fn base64url_decoded(text: Seq<char>) -> Option<Seq<u8>>;

/// The error of the `base64` crate for a text that cannot be decoded. Nothing
/// is read from it.
#[verifier::external_type_specification]
#[verifier::external_body]
pub struct ExBase64DecodeError(base64::DecodeError);

/// Number of characters that base64 without padding takes for `n` bytes.
pub open spec fn base64_len(n: nat) -> nat {
    (n / 3) * 4 + if n % 3 == 0 {
        0nat
    } else if n % 3 == 1 {
        2nat
    } else {
        3nat
    }
}

/// Calls `Engine::encode` of `base64` on its engine `URL_SAFE_NO_PAD`: the
/// text depends on the bytes alone, has four characters for each three
/// bytes and two or three for a rest of one or two, and is read back by the
/// same engine as the bytes that went in.
#[verifier::external_body]
fn base64url_encode(bytes: &Vec<u8>) -> (r: String)
    requires
        bytes@.len() < 0x4000_0000,
    ensures
        r@ == base64url_of(bytes@),
        r@.len() == base64_len(bytes@.len()),
        base64url_decoded(r@) == Some(bytes@),
{
    base64::Engine::encode(&base64::engine::general_purpose::URL_SAFE_NO_PAD, bytes)
}

/// Calls `Engine::decode` of `base64` on its engine `URL_SAFE_NO_PAD`: the
/// bytes that the text stands for, or the engine's error. Which of the two,
/// and which bytes, depends on the text alone.
#[verifier::external_body]
fn base64url_decode(text: &str) -> (r: Result<Vec<u8>, base64::DecodeError>)
    ensures
        r is Ok <==> base64url_decoded(text@) is Some,
        r matches Ok(bytes) ==> base64url_decoded(text@) == Some(bytes@),
{
    base64::Engine::decode(&base64::engine::general_purpose::URL_SAFE_NO_PAD, text)
}

impl CommandPayload {
    /// The text of the payload in a link.
    pub open spec fn base64(self) -> Seq<char> {
        base64url_of(self.encoded())
    }

    /// The payload that the text in a link stands for.
    pub open spec fn of_base64(text: Seq<char>) -> Result<CommandPayload, PayloadError> {
        match base64url_decoded(text) {
            Some(bytes) => CommandPayload::decoded(bytes),
            None => Err(PayloadError::Base64),
        }
    }

    /// Writes the payload as the text that a link carries. The text reads
    /// back as the payload and fits into a link.
    pub fn to_base64(&self) -> (r: String)
        ensures
            r@ == self.base64(),
            CommandPayload::of_base64(r@) == Ok::<CommandPayload, PayloadError>(*self),
            r@.len() <= START_LIMIT,
    {
        let bytes = self.encode();
        proof {
            law_payload_round_trip(*self);
        }
        base64url_encode(&bytes)
    }

    /// Reads the payload from the text that a link carried.
    pub fn from_base64(text: &str) -> (r: Result<CommandPayload, PayloadError>)
        ensures
            r == CommandPayload::of_base64(text@),
    {
        match base64url_decode(text) {
            Ok(bytes) => CommandPayload::decode(&bytes),
            Err(_) => Err(PayloadError::Base64),
        }
    }
}

/// Whether a character may stand in a user name of the chat platform.
pub open spec fn is_username_char(c: char) -> bool {
    ('a' <= c <= 'z') || ('A' <= c <= 'Z') || ('0' <= c <= '9') || c == '_'
}

/// Whether a text is a user name: letters, digits and underscores, at least
/// one of them.
pub open spec fn is_username(name: Seq<char>) -> bool {
    name.len() > 0 && forall|i: int| 0 <= i < name.len() ==> is_username_char(#[trigger] name[i])
}

/// The deep link of a bot with a payload.
pub open spec fn deep_link(username: Seq<char>, payload: Seq<char>) -> Seq<char> {
    "https://t.me/"@ + username + "?start="@ + payload
}

/// Builds the links that carry commands to the bot.
#[derive(Debug, Clone, PartialEq, Eq)]
pub struct CommandBuilder {
    username: String,
}

impl CommandBuilder {
    /// User name of the bot.
    pub closed spec fn username(&self) -> Seq<char> {
        self.username@
    }

    /// A builder for the bot of the given user name, or `None` where the
    /// text is no user name.
    pub fn new(me: &str) -> (r: Option<CommandBuilder>)
        ensures
            r is Some <==> is_username(me@),
            r matches Some(builder) ==> builder.username() == me@,
    {
        let chars = chars_of(me);
        if chars.len() == 0 {
            return None;
        }
        let mut i: usize = 0;
        while i < chars.len()
            invariant
                i <= chars.len(),
                chars@ == me@,
                forall|k: int| 0 <= k < i ==> is_username_char(#[trigger] chars@[k]),
            decreases chars.len() - i,
        {
            let c = chars[i];
            let ok = ('a' <= c && c <= 'z') || ('A' <= c && c <= 'Z') || ('0' <= c && c <= '9') || c
                == '_';
            if !ok {
                return None;
            }
            i += 1;
        }
        Some(CommandBuilder { username: String::from_str(me) })
    }

    /// Address of the bot.
    pub fn url(&self) -> (r: String)
        ensures
            r@ == "https://t.me/"@ + self.username(),
    {
        let mut out = String::from_str("https://t.me/");
        out.append(self.username.as_str());
        out
    }

    /// The link with a text that carries a payload to the bot.
    pub open spec fn link_view(&self, content: Seq<char>, payload: CommandPayload) -> LinkView {
        LinkView { content, url: deep_link(self.username(), payload.base64()) }
    }

    /// The link that subscribes to a query.
    pub open spec fn subscribe_link_view(&self, query_hash: i64) -> LinkView {
        self.link_view(
            "Subscribe"@,
            CommandPayload {
                manage: false,
                subscription: Some(SubscriptionCommand { query_hash, action: ACTION_SUBSCRIBE }),
            },
        )
    }

    /// The link that unsubscribes from a query.
    pub open spec fn unsubscribe_link_view(&self, query_hash: i64) -> LinkView {
        self.link_view(
            "Unsubscribe"@,
            CommandPayload {
                manage: false,
                subscription: Some(SubscriptionCommand { query_hash, action: ACTION_UNSUBSCRIBE }),
            },
        )
    }

    /// The link that subscribes again to a query.
    pub open spec fn resubscribe_link_view(&self, query_hash: i64) -> LinkView {
        self.link_view(
            "Re-subscribe"@,
            CommandPayload {
                manage: false,
                subscription: Some(SubscriptionCommand { query_hash, action: ACTION_SUBSCRIBE }),
            },
        )
    }

    /// The link that lists the subscriptions.
    pub open spec fn manage_link_view(&self) -> LinkView {
        self.link_view("Manage"@, CommandPayload { manage: true, subscription: None })
    }

    /// A link that carries the payload to the bot.
    pub fn link(&self, content: &str, payload: &CommandPayload) -> (r: Link)
        ensures
            r.deep_view() == self.link_view(content@, *payload),
    {
        let mut url = String::from_str("https://t.me/");
        url.append(self.username.as_str());
        url.append("?start=");
        url.append(payload.to_base64().as_str());
        Link { content: String::from_str(content), url }
    }

    /// The link that subscribes to a query.
    pub fn subscribe_link(&self, query_hash: i64) -> (r: Link)
        ensures
            r.deep_view() == self.subscribe_link_view(query_hash),
    {
        self.link(
            "Subscribe",
            &CommandPayload::with_subscription(SubscriptionCommand::subscribe(query_hash)),
        )
    }

    /// The link that unsubscribes from a query.
    pub fn unsubscribe_link(&self, query_hash: i64) -> (r: Link)
        ensures
            r.deep_view() == self.unsubscribe_link_view(query_hash),
    {
        self.link(
            "Unsubscribe",
            &CommandPayload::with_subscription(SubscriptionCommand::unsubscribe(query_hash)),
        )
    }

    /// The link that subscribes again to a query.
    pub fn resubscribe_link(&self, query_hash: i64) -> (r: Link)
        ensures
            r.deep_view() == self.resubscribe_link_view(query_hash),
    {
        self.link(
            "Re-subscribe",
            &CommandPayload::with_subscription(SubscriptionCommand::subscribe(query_hash)),
        )
    }

    /// The link that lists the subscriptions.
    pub fn manage_link(&self) -> (r: Link)
        ensures
            r.deep_view() == self.manage_link_view(),
    {
        self.link("Manage", &CommandPayload::manage())
    }
}

} // verus!
