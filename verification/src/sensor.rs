//! The sensor node's connection-lifecycle state machine.
//!
//! The node cycles forever through `Idle -> Advertising -> Connected ->
//! Advertising -> ...`. While connected, two logically concurrent activities
//! run: a sampler that reads the sensor on a fixed interval and pushes (or
//! stores) each reading, and a protocol servicer that handles subscription
//! toggles, teardown and transport errors. Whichever activity hits a terminal
//! condition first raises an explicit cancellation signal; the other activity
//! observes it and stops, and only then does the node return to advertising.
//! Recovery from any failure is solely "advertise again" — there is no
//! in-session retry.
//!
//! The surrounding runtime (timers, the radio, the wireless stack) drives
//! this machine: it calls one transition per event and carries out the
//! returned [`NodeAction`].

use vstd::prelude::*;
use crate::codec::spec_encode;
use crate::codec::encode_sample;

verus! {

/// Where the node stands in its advertise/connect cycle.
///
/// `Connected` carries the per-session state: whether the client has
/// enabled notifications on the characteristic, and whether the session's
/// cancellation signal has been raised.
#[derive(Clone, Copy, PartialEq, Eq, Debug)]
pub enum NodePhase {
    /// Powered up, not yet advertising.
    Idle,
    /// Emitting connectable advertisements, waiting for a central.
    Advertising,
    /// Exactly one central is connected.
    Connected { notify_enabled: bool, cancel_requested: bool },
}

/// What the runtime must do with a fresh reading.
#[derive(PartialEq, Eq, Debug)]
pub enum NodeAction {
    /// Send the encoded reading to the connected client as a notification
    /// (this also updates the characteristic's stored value).
    PushNotification(Vec<u8>),
    /// Only update the characteristic's stored value; the client has not
    /// enabled notifications, so nothing is pushed.
    StoreValue(Vec<u8>),
}

/// The sensor node: its lifecycle phase and the characteristic's stored
/// value, which mirrors the last reading written to the wireless stack's
/// attribute table.
pub struct SensorNode {
    pub phase: NodePhase,
    pub stored_value: i16,
}

impl SensorNode {
    /// How many connections exist: one while a session is live, else none.
    pub open spec fn connection_count(self) -> nat {
        if self.phase is Connected {
            1
        } else {
            0
        }
    }

    pub open spec fn is_connected(self) -> bool {
        self.phase is Connected
    }

    pub open spec fn is_advertising(self) -> bool {
        self.phase is Advertising
    }

    /// The session's cancellation signal has been raised: the session is
    /// ending and no further sampling may happen in it.
    pub open spec fn cancel_requested(self) -> bool {
        self.phase matches NodePhase::Connected { cancel_requested, .. } && cancel_requested
    }

    /// The connected client has enabled notifications on the characteristic.
    pub open spec fn notify_enabled(self) -> bool {
        self.phase matches NodePhase::Connected { notify_enabled, .. } && notify_enabled
    }

    /// A node fresh from power-up: idle, with the characteristic's stored
    /// value at its initial zero.
    pub fn new() -> (n: SensorNode)
        ensures
            n.phase is Idle,
            n.stored_value == 0,
    {
        SensorNode { phase: NodePhase::Idle, stored_value: 0 }
    }

    /// Begin (or restart) advertising. Never called while a connection is
    /// active: advertising is only entered from idle, after an advertise
    /// attempt failed, or after a session has fully ended.
    pub fn start_advertising(&mut self)
        requires
            !old(self).is_connected(),
        ensures
            final(self).phase is Advertising,
            final(self).stored_value == old(self).stored_value,
    {
        self.phase = NodePhase::Advertising;
    }

    /// The advertise attempt finished: a central connected, or the attempt
    /// failed. Acceptance opens the one session, with notifications
    /// initially disabled (the client has not written the subscription yet)
    /// and no cancellation pending; failure restarts advertising.
    pub fn on_advertise_result(&mut self, accepted: bool)
        requires
            old(self).is_advertising(),
        ensures
            accepted ==> final(self).phase == (NodePhase::Connected {
                notify_enabled: false,
                cancel_requested: false,
            }),
            !accepted ==> final(self).phase is Advertising,
            final(self).stored_value == old(self).stored_value,
    {
        if accepted {
            self.phase = NodePhase::Connected { notify_enabled: false, cancel_requested: false };
        } else {
            self.phase = NodePhase::Advertising;
        }
    }

    /// The sampling timer fired with a fresh reading. Sampling happens only
    /// while a connection exists and its cancellation signal is not raised.
    /// The stored value always becomes the new reading; it is pushed as a
    /// notification only if the client has notifications enabled, else it is
    /// stored without a push.
    pub fn on_sample(&mut self, reading: i16) -> (a: NodeAction)
        requires
            old(self).is_connected(),
            !old(self).cancel_requested(),
        ensures
            final(self).phase == old(self).phase,
            final(self).stored_value == reading,
            old(self).notify_enabled() ==> (a matches NodeAction::PushNotification(p)
                && p@ == spec_encode(reading)),
            !old(self).notify_enabled() ==> (a matches NodeAction::StoreValue(p)
                && p@ == spec_encode(reading)),
    {
        self.stored_value = reading;
        let payload = encode_sample(reading);
        match self.phase {
            NodePhase::Connected { notify_enabled: true, .. } => {
                NodeAction::PushNotification(payload)
            },
            _ => NodeAction::StoreValue(payload),
        }
    }

    /// The connected client wrote the subscription descriptor, toggling
    /// whether notifications are permitted. Independent of the connection's
    /// lifetime: it may flip any number of times within one session.
    pub fn on_subscription_write(&mut self, enabled: bool)
        requires
            old(self).is_connected(),
        ensures
            final(self).is_connected(),
            final(self).notify_enabled() == enabled,
            final(self).cancel_requested() == old(self).cancel_requested(),
            final(self).stored_value == old(self).stored_value,
    {
        if let NodePhase::Connected { cancel_requested, .. } = self.phase {
            self.phase = NodePhase::Connected { notify_enabled: enabled, cancel_requested };
        }
    }

    /// One of the two session activities hit a terminal condition — the peer
    /// disconnected, or a transport error occurred in sampling or in event
    /// servicing. Either way the session is over; this raises the explicit
    /// cancellation signal so the other activity abandons its pending
    /// operation. The connection still exists until [`Self::finish_session`].
    pub fn signal_session_end(&mut self)
        requires
            old(self).is_connected(),
        ensures
            final(self).is_connected(),
            final(self).cancel_requested(),
            final(self).notify_enabled() == old(self).notify_enabled(),
            final(self).stored_value == old(self).stored_value,
    {
        if let NodePhase::Connected { notify_enabled, .. } = self.phase {
            self.phase = NodePhase::Connected { notify_enabled, cancel_requested: true };
        }
    }

    /// Both activities have stopped after the cancellation signal: destroy
    /// the connection and return to advertising. This is the only way back
    /// to advertising from a session, so advertising is never re-entered
    /// while a connection is still active.
    pub fn finish_session(&mut self)
        requires
            old(self).is_connected(),
            old(self).cancel_requested(),
        ensures
            final(self).phase is Advertising,
            final(self).connection_count() == 0,
            final(self).stored_value == old(self).stored_value,
    {
        self.phase = NodePhase::Advertising;
    }
}

/// The advertising payload's fixed byte layout: a flags field, one 16-bit
/// service UUID alias (little-endian), and an 8-byte device-name string,
/// each prefixed by its length byte and type byte.
pub open spec fn spec_adv_payload(flags: u8, service_alias: u16, name: Seq<u8>) -> Seq<u8> {
    seq![
        0x02u8,
        0x01u8,
        flags,
        0x03u8,
        0x03u8,
        (service_alias & 0xff) as u8,
        ((service_alias >> 8) & 0xff) as u8,
        0x09u8,
        0x09u8,
    ] + name
}

/// Build the connectable advertisement's payload: flags, the 16-bit
/// service UUID alias little-endian, and the 8-byte device name.
pub fn advertising_payload(flags: u8, service_alias: u16, name: &[u8; 8]) -> (p: Vec<u8>)
    ensures
        p@ == spec_adv_payload(flags, service_alias, name@),
{
    let mut p: Vec<u8> = Vec::new();
    p.push(0x02);
    p.push(0x01);
    p.push(flags);
    p.push(0x03);
    p.push(0x03);
    p.push((service_alias & 0xff) as u8);
    p.push(((service_alias >> 8) & 0xff) as u8);
    p.push(0x09);
    p.push(0x09);
    let mut i: usize = 0;
    while i < 8
        invariant
            0 <= i <= 8,
            p@ == spec_adv_payload(flags, service_alias, name@.subrange(0, i as int)),
        decreases 8 - i,
    {
        p.push(name[i]);
        assert(name@.subrange(0, i as int).push(name@[i as int]) =~= name@.subrange(
            0,
            i + 1 as int,
        ));
        i += 1;
    }
    assert(name@.subrange(0, 8) =~= name@);
    p
}

/// The scan-response payload: the 16-bit service UUID alias alone,
/// little-endian, with its length byte and type byte.
pub fn scan_response_payload(service_alias: u16) -> (p: Vec<u8>)
    ensures
        p@ == seq![
            0x03u8,
            0x03u8,
            (service_alias & 0xff) as u8,
            ((service_alias >> 8) & 0xff) as u8,
        ],
{
    let mut p: Vec<u8> = Vec::new();
    p.push(0x03);
    p.push(0x03);
    p.push((service_alias & 0xff) as u8);
    p.push(((service_alias >> 8) & 0xff) as u8);
    assert(p@ =~= seq![
        0x03u8,
        0x03u8,
        (service_alias & 0xff) as u8,
        ((service_alias >> 8) & 0xff) as u8,
    ]);
    p
}

/// At most one connection exists at any instant, and while the node is
/// advertising no connection exists — so advertising is never re-entered
/// while a connection is active.
pub proof fn lemma_single_connection(n: SensorNode)
    ensures
        n.connection_count() <= 1,
        n.is_advertising() ==> n.connection_count() == 0,
        n.is_connected() ==> !n.is_advertising(),
{
}

} // verus!
