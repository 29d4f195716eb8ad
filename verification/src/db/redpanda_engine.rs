//! The settings of the Redpanda consumer, and the first checks of a received message.
use vstd::prelude::*;

use super::error::{MessageError, SettingError};
use crate::payload::{has_identifier, is_trace_v1, trace_v1_identifier};
use crate::text::{decimal, push_decimal};

verus! {

broadcast use vstd::string::group_string_axioms;

/// What a Redpanda client is built with.
pub struct BrokerSettings {
    /// The address of the broker: host and port.
    pub bootstrap_servers: String,
    /// The time allowed to create the client, in milliseconds.
    pub creation_timeout_ms: u32,
    /// The consumer group, where one is named.
    pub group_id: Option<String>,
}

/// The time allowed to create a Redpanda client, in milliseconds.
pub const CREATION_TIMEOUT_MS: u32 = 3000;

/// Builds the settings of a Redpanda client from the values given. The host, port, user, password
/// and consumer group must all be given, and the first one missing, in that order, is reported; an
/// empty consumer group names none.
pub fn new_builder_from_optional(
    url: Option<String>,
    port: Option<u32>,
    user: Option<String>,
    password: Option<String>,
    group: Option<String>,
) -> (res: Result<BrokerSettings, SettingError>)
    ensures
        url.is_none() ==> res == Err::<BrokerSettings, _>(SettingError::EnvVar("REDPANDA_URL")),
        url.is_some() && port.is_none() ==> res == Err::<BrokerSettings, _>(
            SettingError::EnvVar("REDPANDA_PORT"),
        ),
        url.is_some() && port.is_some() && user.is_none() ==> res == Err::<BrokerSettings, _>(
            SettingError::EnvVar("REDPANDA_USER"),
        ),
        url.is_some() && port.is_some() && user.is_some() && password.is_none() ==> res == Err::<
            BrokerSettings,
            _,
        >(SettingError::EnvVar("REDPANDA_PASSWORD")),
        url.is_some() && port.is_some() && user.is_some() && password.is_some() && group.is_none()
            ==> res == Err::<BrokerSettings, _>(SettingError::EnvVar("REDPANDA_CONSUMER_GROUP")),
        url.is_some() && port.is_some() && user.is_some() && password.is_some() && group.is_some()
            ==> (res matches Ok(b) && b.bootstrap_servers@ == url.unwrap()@ + ":"@ + decimal(
            port.unwrap() as nat,
        ) && b.creation_timeout_ms == CREATION_TIMEOUT_MS && (if group.unwrap()@.len() == 0 {
            b.group_id.is_none()
        } else {
            b.group_id matches Some(g) && g@ == group.unwrap()@
        })),
{
    let mut broker = match url {
        Some(u) => u,
        None => {
            return Err(SettingError::EnvVar("REDPANDA_URL"));
        },
    };
    let port = match port {
        Some(p) => p,
        None => {
            return Err(SettingError::EnvVar("REDPANDA_PORT"));
        },
    };
    broker.append(":");
    push_decimal(&mut broker, port as u64);
    if user.is_none() {
        return Err(SettingError::EnvVar("REDPANDA_USER"));
    }
    if password.is_none() {
        return Err(SettingError::EnvVar("REDPANDA_PASSWORD"));
    }
    let group = match group {
        Some(g) => g,
        None => {
            return Err(SettingError::EnvVar("REDPANDA_CONSUMER_GROUP"));
        },
    };
    let group_id = if group.as_str().is_empty() {
        None
    } else {
        Some(group)
    };
    Ok(BrokerSettings { bootstrap_servers: broker, creation_timeout_ms: CREATION_TIMEOUT_MS, group_id })
}

/// Checks that a received message holds a digitiser trace message of the first version: it must
/// have a payload, and the payload must carry that message's identifier. A payload must hold the
/// eight bytes of a flatbuffer's root offset and file identifier.
pub fn check_payload(payload: Option<&[u8]>, topic: &str) -> (res: Result<(), MessageError>)
    requires
        payload matches Some(p) ==> p@.len() >= 8,
    ensures
        payload.is_none() ==> (res matches Err(MessageError::NoPayload(t)) && t@ == topic@),
        payload matches Some(p) ==> if has_identifier(p@, trace_v1_identifier()) {
            res is Ok
        } else {
            res matches Err(MessageError::NoIdentifier(t)) && t@ == topic@
        },
{
    match payload {
        None => Err(MessageError::NoPayload(topic.to_owned())),
        Some(p) => if is_trace_v1(p) {
            Ok(())
        } else {
            Err(MessageError::NoIdentifier(topic.to_owned()))
        },
    }
}

} // verus!
