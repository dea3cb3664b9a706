//! The fixed-interval uplink scheduler.
//!
//! Once the device is joined, every tick sends one unconfirmed message and
//! then pauses for the configured interval. A failed send is dropped: it is
//! neither repeated nor does it shift the next tick. The interval is the only
//! duty-cycle safeguard, and it is the configuration's business to pick one
//! that the network allows.

use crate::config::{is_application_port, Config, ConfigModel};
use crate::join::{JoinCoordinator, JoinState};
use vstd::prelude::*;
use vstd::slice::slice_to_vec;

verus! {

/// How one send ended, as the radio stack reported it.
#[derive(Clone, Copy, Debug, PartialEq, Eq, Structural)]
pub enum SendOutcome {
    /// The message went out.
    Sent,
    /// The radio or the stack below failed. `detail` is the transport's own
    /// code, kept for reporting; the scheduler never reads it.
    TransportError { detail: u32 },
}

/// Why no message was composed.
#[derive(Clone, Copy, Debug, PartialEq, Eq, Structural)]
pub enum UplinkError {
    /// The data is `len` bytes long and the configured maximum is `max`.
    PayloadTooLong { len: usize, max: usize },
}

/// A message as a mathematical value.
pub struct UplinkMessageModel {
    /// The bytes to send.
    pub payload: Seq<u8>,
    /// The port to send them on.
    pub port: u8,
    /// Whether the network is asked to acknowledge the message.
    pub confirmed: bool,
}

/// One message for the radio stack. It lives for one send attempt. Its port
/// is an application port.
#[derive(Debug)]
pub struct UplinkMessage {
    payload: Vec<u8>,
    port: u8,
    confirmed: bool,
}

impl View for UplinkMessage {
    type V = UplinkMessageModel;

    closed spec fn view(&self) -> UplinkMessageModel {
        UplinkMessageModel { payload: self.payload@, port: self.port, confirmed: self.confirmed }
    }
}

/// A scheduler as a mathematical value.
pub struct SchedulerModel {
    /// Seconds to pause after each send.
    pub interval_secs: nat,
    /// Port that every message is sent on.
    pub port: u8,
    /// Largest payload in bytes.
    pub max_payload_bytes: nat,
}

/// The scheduler that a configuration gives.
pub open spec fn scheduler_for(config: ConfigModel) -> SchedulerModel {
    SchedulerModel {
        interval_secs: config.uplink_interval_secs,
        port: config.application_port,
        max_payload_bytes: config.max_payload_bytes,
    }
}

/// The message that carries `data`: on the scheduler's port, unconfirmed.
pub open spec fn uplink_for(s: SchedulerModel, data: Seq<u8>) -> UplinkMessageModel {
    UplinkMessageModel { payload: data, port: s.port, confirmed: false }
}

/// Seconds to pause after a send that ended in `outcome`: the interval,
/// whatever the outcome.
pub open spec fn pause_for(s: SchedulerModel, outcome: SendOutcome) -> nat {
    s.interval_secs
}

/// One tick as the scheduler meets it: the application's data, and how the
/// send of that data ended.
pub struct Tick {
    /// The bytes that the application wants sent.
    pub data: Seq<u8>,
    /// How the send ended.
    pub outcome: SendOutcome,
}

/// What the scheduler asks of its caller.
pub enum UplinkAction {
    /// Hand this message to the radio stack.
    Send(UplinkMessageModel),
    /// Sleep for this many seconds.
    Pause(nat),
}

/// Everything the scheduler asks for over a sequence of ticks, in order:
/// per tick one send, then one pause.
pub open spec fn schedule(s: SchedulerModel, ticks: Seq<Tick>) -> Seq<UplinkAction>
    decreases ticks.len(),
{
    if ticks.len() == 0 {
        Seq::empty()
    } else {
        schedule(s, ticks.drop_last()).push(
            UplinkAction::Send(uplink_for(s, ticks.last().data)),
        ).push(UplinkAction::Pause(pause_for(s, ticks.last().outcome)))
    }
}

/// The number of sends among `actions`.
pub open spec fn send_count(actions: Seq<UplinkAction>) -> nat
    decreases actions.len(),
{
    if actions.len() == 0 {
        0
    } else if actions.last() is Send {
        send_count(actions.drop_last()) + 1
    } else {
        send_count(actions.drop_last())
    }
}

/// Over any number of ticks whose data fit the payload limit, the scheduler
/// asks for exactly one send per tick, however many sends fail, and each send
/// is followed by a pause of the configured interval.
pub proof fn lemma_one_send_per_tick(s: SchedulerModel, ticks: Seq<Tick>)
    requires
        forall|i: int| 0 <= i < ticks.len() ==> (#[trigger] ticks[i]).data.len()
            <= s.max_payload_bytes,
    ensures
        schedule(s, ticks).len() == 2 * ticks.len(),
        send_count(schedule(s, ticks)) == ticks.len(),
        forall|i: int|
            0 <= i < ticks.len() ==> schedule(s, ticks)[2 * i] == UplinkAction::Send(
                uplink_for(s, (#[trigger] ticks[i]).data),
            ) && schedule(s, ticks)[2 * i + 1] == UplinkAction::Pause(s.interval_secs),
    decreases ticks.len(),
{
    if ticks.len() > 0 {
        let earlier = ticks.drop_last();
        let sent = UplinkAction::Send(uplink_for(s, ticks.last().data));
        let paused = UplinkAction::Pause(pause_for(s, ticks.last().outcome));
        lemma_one_send_per_tick(s, earlier);
        let before = schedule(s, earlier);
        assert(send_count(before.push(sent)) == send_count(before) + 1) by {
            assert(before.push(sent).drop_last() =~= before);
        }
        assert(send_count(before.push(sent).push(paused)) == send_count(before.push(sent))) by {
            assert(before.push(sent).push(paused).drop_last() =~= before.push(sent));
        }
        assert forall|i: int| 0 <= i < ticks.len() implies schedule(s, ticks)[2 * i]
            == UplinkAction::Send(uplink_for(s, (#[trigger] ticks[i]).data)) && schedule(
            s,
            ticks,
        )[2 * i + 1] == UplinkAction::Pause(s.interval_secs) by {
            if i < earlier.len() {
                assert(earlier[i] == ticks[i]);
            }
        }
    }
}

/// Sends uplinks on a fixed cadence. It holds no state beyond its
/// configuration, so no tick can influence a later one.
#[derive(Clone, Copy, Debug)]
pub struct UplinkScheduler {
    interval_secs: u64,
    port: u8,
    max_payload_bytes: usize,
}

impl View for UplinkScheduler {
    type V = SchedulerModel;

    closed spec fn view(&self) -> SchedulerModel {
        SchedulerModel {
            interval_secs: self.interval_secs as nat,
            port: self.port,
            max_payload_bytes: self.max_payload_bytes as nat,
        }
    }
}

impl UplinkMessage {
    #[verifier::type_invariant]
    spec fn port_is_valid(self) -> bool {
        is_application_port(self.port)
    }

    /// The bytes to send.
    pub fn payload(&self) -> (payload: &[u8])
        ensures
            payload@ == self@.payload,
    {
        self.payload.as_slice()
    }

    /// The port to send on, one of 1 to 223.
    pub fn port(&self) -> (port: u8)
        ensures
            port == self@.port,
            is_application_port(port),
    {
        proof {
            use_type_invariant(self);
        }
        self.port
    }

    /// Whether the network is asked to acknowledge the message.
    pub fn confirmed(&self) -> (confirmed: bool)
        ensures
            confirmed == self@.confirmed,
    {
        self.confirmed
    }
}

impl UplinkScheduler {
    #[verifier::type_invariant]
    spec fn port_is_valid(self) -> bool {
        is_application_port(self.port)
    }

    /// The scheduler for `config`, handed out only once `coordinator` is
    /// joined: no uplink is composed before a join has succeeded.
    pub fn start(config: &Config, coordinator: &JoinCoordinator) -> (scheduler: Option<
        UplinkScheduler,
    >)
        ensures
            scheduler is Some <==> coordinator@.state == JoinState::Joined,
            scheduler matches Some(s) ==> s@ == scheduler_for(config@),
    {
        if coordinator.is_joined() {
            Some(
                UplinkScheduler {
                    interval_secs: config.uplink_interval_secs(),
                    port: config.application_port(),
                    max_payload_bytes: config.max_payload_bytes(),
                },
            )
        } else {
            None
        }
    }

    /// Seconds between the end of one send and the next tick.
    pub fn interval_secs(&self) -> (secs: u64)
        ensures
            secs == self@.interval_secs,
    {
        self.interval_secs
    }

    /// Port that every message is sent on, one of 1 to 223.
    pub fn port(&self) -> (port: u8)
        ensures
            port == self@.port,
            is_application_port(port),
    {
        proof {
            use_type_invariant(self);
        }
        self.port
    }

    /// Largest payload in bytes.
    pub fn max_payload_bytes(&self) -> (bytes: usize)
        ensures
            bytes == self@.max_payload_bytes,
    {
        self.max_payload_bytes
    }

    /// Composes the message of one tick from the application's `data`, or
    /// refuses data that is longer than the configured maximum.
    pub fn compose(&self, data: &[u8]) -> (result: Result<UplinkMessage, UplinkError>)
        ensures
            data@.len() <= self@.max_payload_bytes ==> result is Ok && result->Ok_0@ == uplink_for(
                self@,
                data@,
            ),
            data@.len() > self@.max_payload_bytes ==> result is Err && result->Err_0 == (
            UplinkError::PayloadTooLong { len: data.len(), max: self@.max_payload_bytes as usize }),
    {
        proof {
            use_type_invariant(self);
        }
        if data.len() > self.max_payload_bytes {
            Err(UplinkError::PayloadTooLong { len: data.len(), max: self.max_payload_bytes })
        } else {
            Ok(UplinkMessage { payload: slice_to_vec(data), port: self.port, confirmed: false })
        }
    }

    /// Seconds to pause before the next tick, after the send of this tick
    /// ended in `outcome`. A failure neither shortens nor lengthens the pause.
    pub fn pause_after(&self, outcome: SendOutcome) -> (secs: u64)
        ensures
            secs == pause_for(self@, outcome),
            secs == self@.interval_secs,
    {
        self.interval_secs
    }
}

} // verus!
