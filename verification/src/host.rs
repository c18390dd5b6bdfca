//! The host agent's scan/connect/subscribe/decode session machine.
//!
//! An outer supervisor retries scan attempts forever, swallowing every
//! error. One scan attempt starts a discovery scan on each adapter, waits a
//! fixed dwell period, then walks the discovered peripherals in enumeration
//! order. Each peripheral gets one [`Session`]: skip it if its advertised
//! name does not contain the configured filter substring; otherwise connect
//! (unless already connected), discover characteristics, subscribe to the
//! one with the configured identity and notify capability, then receive
//! notifications until the shared deadline expires with none — the designed,
//! clean end of a session — and finally disconnect.
//!
//! The I/O runtime drives the machine: it performs each returned
//! [`SessionAction`] (racing transport calls against the shared deadline,
//! see [`crate::deadline`]) and hands the outcome back as the next event.

use vstd::prelude::*;
use vstd::utf8::encode_utf8;
use crate::codec::spec_decode;
use crate::codec::decode_payload;
use crate::text::contains_seq;
use crate::text::str_contains;

verus! {

/// The Bluetooth base UUID, into which a 16-bit alias is spliced.
pub const BLE_BASE_UUID: u128 = 0x00000000_0000_1000_8000_00805F9B34FB;

/// The full 128-bit identity that a 16-bit alias stands for: the alias
/// spliced into the top 32 bits of the Bluetooth base UUID.
pub open spec fn spec_uuid_from_alias(alias: u16) -> u128 {
    ((alias as u128) << 96) | BLE_BASE_UUID
}

/// Expand a 16-bit UUID alias to the full 128-bit identity.
pub fn uuid_from_alias(alias: u16) -> (v: u128)
    ensures
        v == spec_uuid_from_alias(alias),
{
    ((alias as u128) << 96) | BLE_BASE_UUID
}

/// The host agent's configuration: which peripherals to try, which
/// characteristic to subscribe to, and the two time constants.
pub struct HostConfig {
    /// A peripheral is tried only if its advertised name contains this.
    pub name_filter: String,
    /// The identity of the one characteristic to subscribe to.
    pub target_uuid: u128,
    /// The shared deadline for every bounded transport operation, in ms.
    pub deadline_ms: u64,
    /// How long one discovery scan dwells before enumerating, in ms.
    pub scan_dwell_ms: u64,
}

impl HostConfig {
    /// An advertised name passes the filter: it is known, and its UTF-8
    /// bytes contain the filter substring's bytes. An unknown name never
    /// passes.
    pub open spec fn spec_matches_name(self, name: Option<String>) -> bool {
        name matches Some(n) && contains_seq(encode_utf8(n@), encode_utf8(self.name_filter@))
    }
}

/// What a discovery scan reports of one peripheral.
pub struct PeripheralInfo {
    /// The advertised local name, if the advertisement carried one.
    pub name: Option<String>,
    /// Whether a connection to it already exists.
    pub is_connected: bool,
}

/// What characteristic discovery reports of one characteristic.
#[derive(Clone, Copy, PartialEq, Eq, Debug)]
pub struct CharacteristicInfo {
    /// Its 128-bit identity.
    pub uuid: u128,
    /// Whether it advertises the notify capability.
    pub can_notify: bool,
}

/// A characteristic is the subscription target: the configured identity,
/// with notify capability.
pub open spec fn spec_char_matches(c: CharacteristicInfo, target: u128) -> bool {
    c.uuid == target && c.can_notify
}

/// How one peripheral's session ended.
#[derive(Clone, Copy, PartialEq, Eq, Debug)]
pub enum SessionEnd {
    /// The advertised name did not pass the filter; no attempt was made.
    SkippedName,
    /// The bounded connect failed or timed out; the peripheral was skipped.
    SkippedConnect,
    /// No characteristic carried the configured identity with notify
    /// capability.
    NoCharacteristic,
    /// Discovery or subscription failed or timed out: a hard error for
    /// this peripheral only.
    Failed,
    /// The receive loop ended by deadline expiry with no notification —
    /// the designed, clean end of a session.
    Completed,
}

/// Where a session stands.
#[derive(Clone, Copy, PartialEq, Eq, Debug)]
pub enum SessionPhase {
    /// Waiting for the bounded connect to resolve.
    Connecting,
    /// Connected; waiting for characteristic discovery to resolve.
    Discovering,
    /// Waiting for the bounded subscribe to resolve.
    Subscribing,
    /// Subscribed; waiting for the next notification under the deadline.
    Receiving,
    /// Waiting for the bounded disconnect to resolve; `end` records how
    /// the session ended.
    Disconnecting { end: SessionEnd },
    /// Over; the attempt proceeds to the next peripheral.
    Finished { end: SessionEnd },
}

/// What the runtime must do next for this session.
#[derive(Clone, Copy, PartialEq, Eq, Debug)]
pub enum SessionAction {
    /// Attempt to connect, racing the shared deadline.
    Connect,
    /// Discover services and characteristics, racing the shared deadline.
    DiscoverServices,
    /// Subscribe to the characteristic with this identity, racing the
    /// shared deadline.
    Subscribe { uuid: u128 },
    /// Wait for the next notification, racing the shared deadline.
    AwaitNotification,
    /// Write this value to the metrics sink, then wait for the next
    /// notification under the deadline.
    PublishMetric { value: u16 },
    /// Disconnect, racing the shared deadline.
    Disconnect,
    /// Nothing more here; move on to the next peripheral.
    MoveOn,
}

/// How a bounded unit operation (connect, subscribe, disconnect) resolved.
#[derive(Clone, Copy, PartialEq, Eq, Debug)]
pub enum OpOutcome {
    /// It completed successfully within the deadline.
    Done,
    /// The transport rejected it within the deadline.
    Failed,
    /// The deadline expired first.
    TimedOut,
}

/// How the bounded characteristic discovery resolved.
#[derive(PartialEq, Eq, Debug)]
pub enum DiscoverOutcome {
    /// Discovery completed; these are the peripheral's characteristics.
    Found(Vec<CharacteristicInfo>),
    /// The transport rejected it within the deadline.
    Failed,
    /// The deadline expired first.
    TimedOut,
}

/// How one bounded wait for a notification resolved.
#[derive(PartialEq, Eq, Debug)]
pub enum ReceiveOutcome {
    /// A notification arrived from the characteristic with this identity,
    /// carrying this payload.
    Notified { uuid: u128, payload: Vec<u8> },
    /// The notification stream ended (the connection broke or stopped).
    StreamEnded,
    /// The deadline expired with no notification.
    TimedOut,
}

/// Pick the subscription target: the first characteristic carrying the
/// configured identity with notify capability, in discovery order.
pub fn select_characteristic(target_uuid: u128, chars: &Vec<CharacteristicInfo>) -> (r: Option<
    usize,
>)
    ensures
        match r {
            Some(i) => i < chars@.len() && spec_char_matches(chars@[i as int], target_uuid)
                && forall|k: int| 0 <= k < i ==> !spec_char_matches(chars@[k], target_uuid),
            None => forall|k: int|
                0 <= k < chars@.len() ==> !spec_char_matches(chars@[k], target_uuid),
        },
{
    let n = chars.len();
    let mut i: usize = 0;
    while i < n
        invariant
            n == chars@.len(),
            0 <= i <= n,
            forall|k: int| 0 <= k < i ==> !spec_char_matches(chars@[k], target_uuid),
        decreases n - i,
    {
        let c = chars[i];
        if c.uuid == target_uuid && c.can_notify {
            return Some(i);
        }
        i += 1;
    }
    None
}

/// One peripheral's session, driven by the runtime one event at a time.
pub struct Session {
    pub phase: SessionPhase,
}

impl Session {
    /// Open a session for one discovered peripheral and decide its first
    /// step from the advertisement data alone: skip it if the name does
    /// not pass the filter, go straight to discovery if a connection
    /// already exists, else attempt the bounded connect.
    pub fn start(cfg: &HostConfig, p: &PeripheralInfo) -> (r: (Session, SessionAction))
        ensures
            !cfg.spec_matches_name(p.name) ==> r.0.phase == (SessionPhase::Finished {
                end: SessionEnd::SkippedName,
            }) && r.1 is MoveOn,
            cfg.spec_matches_name(p.name) && p.is_connected ==> r.0.phase is Discovering
                && r.1 is DiscoverServices,
            cfg.spec_matches_name(p.name) && !p.is_connected ==> r.0.phase is Connecting
                && r.1 is Connect,
    {
        let matches_filter = match &p.name {
            Some(n) => str_contains(n.as_str(), cfg.name_filter.as_str()),
            None => false,
        };
        if !matches_filter {
            (
                Session { phase: SessionPhase::Finished { end: SessionEnd::SkippedName } },
                SessionAction::MoveOn,
            )
        } else if p.is_connected {
            (Session { phase: SessionPhase::Discovering }, SessionAction::DiscoverServices)
        } else {
            (Session { phase: SessionPhase::Connecting }, SessionAction::Connect)
        }
    }

    /// The bounded connect resolved. Success moves on to characteristic
    /// discovery; a connect error or deadline expiry skips this peripheral
    /// — the attempt proceeds to the next one, with no retry here.
    pub fn on_connect(&mut self, outcome: OpOutcome) -> (a: SessionAction)
        requires
            old(self).phase is Connecting,
        ensures
            outcome is Done ==> final(self).phase is Discovering && a is DiscoverServices,
            !(outcome is Done) ==> final(self).phase == (SessionPhase::Finished {
                end: SessionEnd::SkippedConnect,
            }) && a is MoveOn,
    {
        match outcome {
            OpOutcome::Done => {
                self.phase = SessionPhase::Discovering;
                SessionAction::DiscoverServices
            },
            _ => {
                self.phase = SessionPhase::Finished { end: SessionEnd::SkippedConnect };
                SessionAction::MoveOn
            },
        }
    }

    /// The bounded discovery resolved. If some characteristic carries the
    /// configured identity with notify capability, subscribe to it — and
    /// only to it: the subscription's identity is always exactly the
    /// configured one. If none does, or discovery failed or timed out,
    /// disconnect.
    pub fn on_discover(&mut self, cfg: &HostConfig, outcome: DiscoverOutcome) -> (a: SessionAction)
        requires
            old(self).phase is Discovering,
        ensures
            (outcome matches DiscoverOutcome::Found(chars) && (exists|k: int|
                0 <= k < chars@.len() && spec_char_matches(chars@[k], cfg.target_uuid))) ==> (
            final(self).phase is Subscribing && a == (SessionAction::Subscribe {
                uuid: cfg.target_uuid,
            })),
            (outcome matches DiscoverOutcome::Found(chars) && !(exists|k: int|
                0 <= k < chars@.len() && spec_char_matches(chars@[k], cfg.target_uuid))) ==> (
            final(self).phase == (SessionPhase::Disconnecting {
                end: SessionEnd::NoCharacteristic,
            }) && a is Disconnect),
            !(outcome is Found) ==> final(self).phase == (SessionPhase::Disconnecting {
                end: SessionEnd::Failed,
            }) && a is Disconnect,
            a matches SessionAction::Subscribe { uuid } ==> uuid == cfg.target_uuid,
    {
        match outcome {
            DiscoverOutcome::Found(chars) => {
                match select_characteristic(cfg.target_uuid, &chars) {
                    Some(i) => {
                        let c = chars[i];
                        self.phase = SessionPhase::Subscribing;
                        SessionAction::Subscribe { uuid: c.uuid }
                    },
                    None => {
                        self.phase = SessionPhase::Disconnecting {
                            end: SessionEnd::NoCharacteristic,
                        };
                        SessionAction::Disconnect
                    },
                }
            },
            _ => {
                self.phase = SessionPhase::Disconnecting { end: SessionEnd::Failed };
                SessionAction::Disconnect
            },
        }
    }

    /// The bounded subscribe resolved. Success opens the receive loop; a
    /// failure or deadline expiry is a hard error for this peripheral, so
    /// disconnect.
    pub fn on_subscribe(&mut self, outcome: OpOutcome) -> (a: SessionAction)
        requires
            old(self).phase is Subscribing,
        ensures
            outcome is Done ==> final(self).phase is Receiving && a is AwaitNotification,
            !(outcome is Done) ==> final(self).phase == (SessionPhase::Disconnecting {
                end: SessionEnd::Failed,
            }) && a is Disconnect,
    {
        match outcome {
            OpOutcome::Done => {
                self.phase = SessionPhase::Receiving;
                SessionAction::AwaitNotification
            },
            _ => {
                self.phase = SessionPhase::Disconnecting { end: SessionEnd::Failed };
                SessionAction::Disconnect
            },
        }
    }

    /// One bounded wait for a notification resolved. Only a notification
    /// carrying the configured characteristic identity is decoded: its
    /// payload's first two bytes (little-endian, unsigned) become the
    /// metric to publish, overwriting the previous value. A notification
    /// with any other identity, or a payload shorter than two bytes, is
    /// dropped; the loop continues either way. A deadline expiry with no
    /// notification is the clean end of the session, not an error; a
    /// broken stream ends it the same way. Both lead to the bounded
    /// disconnect.
    pub fn on_receive(&mut self, cfg: &HostConfig, outcome: ReceiveOutcome) -> (a: SessionAction)
        requires
            old(self).phase is Receiving,
        ensures
            outcome matches ReceiveOutcome::Notified { uuid, payload } ==> (
            final(self).phase is Receiving) && (
            if uuid == cfg.target_uuid && payload@.len() >= 2 {
                a == (SessionAction::PublishMetric { value: spec_decode(payload@[0], payload@[1]) })
            } else {
                a is AwaitNotification
            }),
            !(outcome is Notified) ==> final(self).phase == (SessionPhase::Disconnecting {
                end: SessionEnd::Completed,
            }) && a is Disconnect,
    {
        match outcome {
            ReceiveOutcome::Notified { uuid, payload } => {
                if uuid == cfg.target_uuid {
                    match decode_payload(&payload) {
                        Some(value) => SessionAction::PublishMetric { value },
                        None => SessionAction::AwaitNotification,
                    }
                } else {
                    SessionAction::AwaitNotification
                }
            },
            _ => {
                self.phase = SessionPhase::Disconnecting { end: SessionEnd::Completed };
                SessionAction::Disconnect
            },
        }
    }

    /// The bounded disconnect resolved. Its outcome — success, failure or
    /// deadline expiry — makes no difference: the session is over with the
    /// end recorded when the disconnect was requested, and the attempt
    /// proceeds to the next peripheral.
    pub fn on_disconnect(&mut self, outcome: OpOutcome) -> (a: SessionAction)
        requires
            old(self).phase is Disconnecting,
        ensures
            old(self).phase matches SessionPhase::Disconnecting { end } ==> final(self).phase
                == (SessionPhase::Finished { end }),
            a is MoveOn,
    {
        let _ = outcome;
        if let SessionPhase::Disconnecting { end } = self.phase {
            self.phase = SessionPhase::Finished { end };
        }
        SessionAction::MoveOn
    }
}

/// The last decoded metric, as the pull-based exposition endpoint holds
/// it: one named numeric value, overwritten on each successful decode and
/// retained across disconnects — nothing ever resets it.
pub struct MetricsGauge {
    pub value: u16,
}

impl MetricsGauge {
    /// A fresh gauge reads zero until the first decode.
    pub fn new() -> (g: MetricsGauge)
        ensures
            g.value == 0,
    {
        MetricsGauge { value: 0 }
    }

    /// Overwrite the gauge with a newly decoded metric. Last write wins;
    /// there is no value history.
    pub fn set(&mut self, value: u16)
        ensures
            final(self).value == value,
    {
        self.value = value;
    }
}

} // verus!
