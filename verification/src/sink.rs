//! Which notification sink the process runs with.
//!
//! A channel is named either by a number or by a text such as `@alerts`.
//! An id that reads as a decimal number is a numeric id; any other text is
//! taken as the name of the channel. The sink is silent only where a
//! credential is missing.

use vstd::prelude::*;

verus! {

/// What identifies a chat channel.
#[derive(Clone, Debug, PartialEq, Eq)]
pub enum ChannelId {
    /// The channel with this number.
    Numeric(i64),
    /// The channel with this name.
    Named(String),
}

/// Where decisions are announced: nowhere, or on one chat channel.
#[derive(Clone, Debug, PartialEq, Eq)]
pub enum NotificationSink {
    /// Notifications are dropped.
    Silent,
    /// Notifications go to `channel`, authenticated by `token`.
    Channel { token: String, channel: ChannelId },
}

/// The number that a run of decimal digits writes.
pub open spec fn digits_value(digits: Seq<char>) -> int
    decreases digits.len(),
{
    if digits.len() == 0 {
        0
    } else {
        digits_value(digits.drop_last()) * 10 + (digits.last() as int - '0' as int)
    }
}

/// Every character is one of `0` to `9`.
pub open spec fn all_digits(text: Seq<char>) -> bool {
    forall|i: int| 0 <= i < text.len() ==> '0' <= #[trigger] text[i] <= '9'
}

/// The `i64` that `text` writes in decimal: an optional `+` or `-`, then
/// one or more digits and nothing else, the number within the range of
/// `i64`. Any other text writes none.
pub open spec fn decimal_i64(text: Seq<char>) -> Option<i64> {
    let signed = text.len() > 0 && (text[0] == '-' || text[0] == '+');
    let digits = if signed {
        text.skip(1)
    } else {
        text
    };
    let value = if signed && text[0] == '-' {
        -digits_value(digits)
    } else {
        digits_value(digits)
    };
    if digits.len() > 0 && all_digits(digits) && i64::MIN <= value <= i64::MAX {
        Some(value as i64)
    } else {
        None
    }
}

/// Reads a channel id as a number with `str::parse::<i64>`. The standard
/// library accepts an optional sign followed by decimal digits only, and
/// reports an error for an empty text, for any other character and for a
/// number that does not fit; an error becomes `None` here.
#[verifier::external_body]
fn parse_chat_id(text: &str) -> (id: Option<i64>)
    ensures
        id == decimal_i64(text@),
{
    match text.parse::<i64>() {
        Ok(id) => Some(id),
        Err(_) => None,
    }
}

impl ChannelId {
    /// The channel that `text` identifies: the numeric one where `text`
    /// writes an `i64` in decimal, the one named `text` otherwise.
    pub open spec fn identified(text: String) -> ChannelId {
        match decimal_i64(text@) {
            Some(number) => ChannelId::Numeric(number),
            None => ChannelId::Named(text),
        }
    }

    /// The channel for a text and what the text reads as in decimal: the
    /// number where there is one, the text itself as a name otherwise.
    pub fn from_parsed(text: String, parsed: Option<i64>) -> (id: Self)
        ensures
            id == match parsed {
                Some(number) => ChannelId::Numeric(number),
                None => ChannelId::Named(text),
            },
    {
        match parsed {
            Some(number) => ChannelId::Numeric(number),
            None => ChannelId::Named(text),
        }
    }

    /// The channel that `text` identifies.
    pub fn from_text(text: String) -> (id: Self)
        ensures
            id == Self::identified(text),
    {
        let parsed: Option<i64> = parse_chat_id(text.as_str());
        Self::from_parsed(text, parsed)
    }
}

impl NotificationSink {
    /// The sink for a token and a channel: a channel sink where both are
    /// there, silence where either is missing.
    pub open spec fn chosen(token: Option<String>, channel: Option<ChannelId>) -> NotificationSink {
        match (token, channel) {
            (Some(token), Some(channel)) => NotificationSink::Channel { token, channel },
            _ => NotificationSink::Silent,
        }
    }

    /// The sink for the credentials as they were configured, the channel
    /// given as text.
    pub open spec fn selected(token: Option<String>, channel: Option<String>) -> NotificationSink {
        Self::chosen(
            token,
            match channel {
                Some(text) => Some(ChannelId::identified(text)),
                None => None,
            },
        )
    }

    /// The sink for a token and a channel.
    pub fn from_parts(token: Option<String>, channel: Option<ChannelId>) -> (sink: Self)
        ensures
            sink == Self::chosen(token, channel),
    {
        match (token, channel) {
            (Some(token), Some(channel)) => NotificationSink::Channel { token, channel },
            _ => NotificationSink::Silent,
        }
    }

    /// The sink for the credentials as they were configured. With a token
    /// and a channel id the sink is a channel, numeric or named as the id
    /// reads; it is silent only where the token or the id is missing.
    pub fn select(token: Option<String>, channel: Option<String>) -> (sink: Self)
        ensures
            sink == Self::selected(token, channel),
            sink is Silent <==> token is None || channel is None,
    {
        let id: Option<ChannelId> = match channel {
            Some(text) => Some(ChannelId::from_text(text)),
            None => None,
        };
        Self::from_parts(token, id)
    }

    /// Whether notifications go anywhere.
    pub fn is_live(&self) -> (live: bool)
        ensures
            live == (*self is Channel),
    {
        match self {
            NotificationSink::Channel { .. } => true,
            NotificationSink::Silent => false,
        }
    }
}

} // verus!
