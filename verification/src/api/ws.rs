//! BitSkins WebSocket protocol: actions, channels, and how an incoming
//! message is routed.
use crate::text::{seq_starts_with, starts_with};
use vstd::prelude::*;

verus! {

pub const WEB_SOCKET_URL: &'static str = "wss://ws.bitskins.com";

/// A feed the socket can subscribe to.
#[derive(Clone, Copy, Debug, PartialEq, Eq)]
pub enum Channel {
    Listed,
    PriceChanged,
    DelistedOrSold,
    ExtraInfo,
}

pub open spec fn channel_name_spec(c: Channel) -> Seq<char> {
    match c {
        Channel::Listed => "listed"@,
        Channel::PriceChanged => "price_changed"@,
        Channel::DelistedOrSold => "delisted_or_sold"@,
        Channel::ExtraInfo => "extra_info"@,
    }
}

impl Channel {
    /// The channel's name on the wire.
    pub fn name(&self) -> (s: &'static str)
        ensures
            s@ == channel_name_spec(*self),
    {
        match self {
            Channel::Listed => "listed",
            Channel::PriceChanged => "price_changed",
            Channel::DelistedOrSold => "delisted_or_sold",
            Channel::ExtraInfo => "extra_info",
        }
    }
}

/// The channels subscribed to once the socket is authenticated, in order.
pub fn default_channels() -> (r: [Channel; 4])
    ensures
        r@ == seq![Channel::Listed, Channel::PriceChanged, Channel::DelistedOrSold, Channel::ExtraInfo],
{
    let r = [Channel::Listed, Channel::PriceChanged, Channel::DelistedOrSold, Channel::ExtraInfo];
    assert(r@ =~= seq![Channel::Listed, Channel::PriceChanged, Channel::DelistedOrSold, Channel::ExtraInfo]);
    r
}

/// An action sent over (or echoed back by) the socket.
#[derive(Clone, Copy, Debug, PartialEq, Eq)]
pub enum WsAction {
    WsAuth,
    WsAuthApikey,
    WsDeauth,
    WsSub,
    WsUnsub,
    WsUnsubAll,
}

pub open spec fn action_name_spec(a: WsAction) -> Seq<char> {
    match a {
        WsAction::WsAuth => "WS_AUTH"@,
        WsAction::WsAuthApikey => "WS_AUTH_APIKEY"@,
        WsAction::WsDeauth => "WS_DEAUTH"@,
        WsAction::WsSub => "WS_SUB"@,
        WsAction::WsUnsub => "WS_UNSUB"@,
        WsAction::WsUnsubAll => "WS_UNSUB_ALL"@,
    }
}

impl WsAction {
    /// The action's name on the wire.
    pub fn as_str(&self) -> (s: &'static str)
        ensures
            s@ == action_name_spec(*self),
    {
        match self {
            WsAction::WsAuth => "WS_AUTH",
            WsAction::WsAuthApikey => "WS_AUTH_APIKEY",
            WsAction::WsDeauth => "WS_DEAUTH",
            WsAction::WsSub => "WS_SUB",
            WsAction::WsUnsub => "WS_UNSUB",
            WsAction::WsUnsubAll => "WS_UNSUB_ALL",
        }
    }
}

/// Whether a server reply names one of the authentication actions
/// (`WS_AUTH`, `WS_AUTH_APIKEY`): after those the channels are set up.
pub fn is_auth_action(action: &str) -> (r: bool)
    ensures
        r == seq_starts_with(action@, "WS_AUTH"@),
{
    starts_with(action, "WS_AUTH")
}

/// How an incoming message is handled.
#[derive(Clone, Copy, Debug, PartialEq, Eq)]
pub enum MessageType {
    /// The API key was accepted: subscribe to the channels.
    WsAuthApikey,
    /// Data published on a channel.
    ChannelMessage(Channel),
    /// Anything else: logged and skipped.
    Invalid,
}

impl MessageType {
    /// The meaning of a message's first element, given what it reads as: the
    /// API-key authentication action wins, then a channel, else it is invalid.
    pub fn from_value(action: Option<WsAction>, channel: Option<Channel>) -> (m: MessageType)
        ensures
            m == (if action == Some(WsAction::WsAuthApikey) {
                MessageType::WsAuthApikey
            } else {
                match channel {
                    Some(c) => MessageType::ChannelMessage(c),
                    None => MessageType::Invalid,
                }
            }),
    {
        if let Some(WsAction::WsAuthApikey) = action {
            MessageType::WsAuthApikey
        } else {
            match channel {
                Some(c) => MessageType::ChannelMessage(c),
                None => MessageType::Invalid,
            }
        }
    }
}

/// Routes a message: it must be a JSON array (`array_len` is its length, or
/// `None` for any other JSON value) of at least two elements, an action or
/// channel and its data; `action` and `channel` are what the first element
/// reads as.
pub fn parse_message(array_len: Option<usize>, action: Option<WsAction>, channel: Option<Channel>) -> (m: MessageType)
    ensures
        m == (match array_len {
            Some(n) if n >= 2 => if action == Some(WsAction::WsAuthApikey) {
                MessageType::WsAuthApikey
            } else {
                match channel {
                    Some(c) => MessageType::ChannelMessage(c),
                    None => MessageType::Invalid,
                }
            },
            _ => MessageType::Invalid,
        }),
{
    match array_len {
        Some(n) => if n < 2 {
            MessageType::Invalid
        } else {
            MessageType::from_value(action, channel)
        },
        None => MessageType::Invalid,
    }
}

} // verus!
