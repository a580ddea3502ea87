//! Transmission of one Echo Request over a raw transport.
//!
//! The transport is an explicit handle behind the `IcmpTransport` trait:
//! acquiring the raw channel may fail (a fatal setup error), and a send
//! may fail (a per-attempt error surfaced in the outcome). `transmit`
//! drives one acquisition and one send and records what happened; it
//! never sends before the channel was acquired.

use vstd::prelude::*;
use crate::packet::EchoRequestPacket;
use crate::packet::build_echo_request;

verus! {

/// An IPv4 address as its four dotted-quad octets, in order.
#[derive(Clone, Copy, Debug, PartialEq, Eq, Structural)]
pub struct Ipv4Address {
    pub a: u8,
    pub b: u8,
    pub c: u8,
    pub d: u8,
}

impl Ipv4Address {
    /// The address `a.b.c.d`.
    pub fn new(a: u8, b: u8, c: u8, d: u8) -> (r: Ipv4Address)
        ensures
            r == (Ipv4Address { a, b, c, d }),
    {
        Ipv4Address { a, b, c, d }
    }
}

/// The fatal setup failure: the OS denied the raw ICMPv4 channel,
/// commonly for want of privilege. No send is possible without it.
#[derive(Clone, Copy, Debug, PartialEq, Eq, Structural)]
pub enum TransmitError {
    ChannelUnavailable,
}

/// The per-attempt failure: the OS rejected or could not deliver the
/// packet onto the wire. Recoverable; surfaced as a failed outcome.
#[derive(Clone, Copy, Debug, PartialEq, Eq, Structural)]
pub enum SendError {
    SendFailed,
}

/// What one send attempt reported: whether the send primitive accepted
/// the packet, and how long the local send call took. The time measures
/// only the send call, never a network round trip.
#[derive(Clone, Copy, Debug)]
pub struct SendAttempt {
    pub result: Result<(), SendError>,
    pub elapsed_micros: u64,
}

/// The result of one transmission: whether the local send succeeded and
/// the elapsed time of the send call in microseconds. It says nothing
/// about any reply; none is awaited.
#[derive(Clone, Copy, Debug, PartialEq, Eq, Structural)]
pub struct TransmissionOutcome {
    pub succeeded: bool,
    pub elapsed_micros: u64,
}

impl TransmissionOutcome {
    /// A one-line diagnostic for logs.
    pub fn describe(&self) -> (r: &'static str)
        ensures
            self.succeeded ==> r@ == "echo request sent"@,
            !self.succeeded ==> r@ == "echo request send failed"@,
    {
        if self.succeeded {
            "echo request sent"
        } else {
            "echo request send failed"
        }
    }
}

/// A raw ICMPv4 transport handle: acquire the channel, then send one
/// well-formed Echo Request. Implementors decide what a send reports;
/// the trait only fixes that acquisition fails exactly when the channel
/// is not available, and that a send needs an acquired channel.
pub trait IcmpTransport {
    /// Whether the OS grants this handle a raw ICMPv4 channel.
    spec fn channel_available(&self) -> bool;

    /// Acquires the raw channel; fails exactly when it is unavailable.
    fn open_channel(&mut self) -> (r: Result<(), TransmitError>)
        ensures
            r is Ok <==> old(self).channel_available(),
            final(self).channel_available() == old(self).channel_available(),
    ;

    /// Sends one packet to `target` and reports the result of the send
    /// primitive with the elapsed time of the call. Only well-formed
    /// packets ever reach the wire, and only over an acquired channel.
    fn timed_send(&mut self, packet: &EchoRequestPacket, target: &Ipv4Address) -> (r: SendAttempt)
        requires
            packet.wf(),
            old(self).channel_available(),
    ;
}

/// Turns what a send attempt reported into the outcome handed to the
/// caller: success exactly when the send primitive returned no error,
/// with the reported elapsed time kept. A failed attempt is still an
/// outcome, never dropped.
pub fn record_outcome(attempt: SendAttempt) -> (r: TransmissionOutcome)
    ensures
        r.succeeded == (attempt.result is Ok),
        r.elapsed_micros == attempt.elapsed_micros,
{
    let succeeded: bool = match attempt.result {
        Ok(_) => true,
        Err(_) => false,
    };
    TransmissionOutcome { succeeded, elapsed_micros: attempt.elapsed_micros }
}

/// Transmits one Echo Request (identifier and sequence zero) to `target`
/// over `transport`: acquires the raw channel, builds the packet, sends
/// it once, and records the outcome. Fails with `ChannelUnavailable`,
/// before any send, exactly when the channel cannot be acquired; a send
/// failure is returned as an outcome with `succeeded` false.
pub fn transmit<T: IcmpTransport>(transport: &mut T, target: Ipv4Address) -> (r: Result<
    TransmissionOutcome,
    TransmitError,
>)
    ensures
        r is Ok <==> old(transport).channel_available(),
        r matches Err(e) ==> e == TransmitError::ChannelUnavailable,
        r matches Ok(out) ==> out.elapsed_micros >= 0,
{
    match transport.open_channel() {
        Err(e) => Err(e),
        Ok(_) => {
            let packet: EchoRequestPacket = build_echo_request(0, 0);
            let attempt: SendAttempt = transport.timed_send(&packet, &target);
            Ok(record_outcome(attempt))
        },
    }
}

/// A scripted transport for tests: accepts or rejects acquisition and
/// the send as configured, reports a fixed elapsed time, and counts how
/// often each operation was attempted.
pub struct ScriptedTransport {
    pub channel_up: bool,
    pub accept_send: bool,
    pub report_micros: u64,
    pub opens: u64,
    pub sends: u64,
}

impl ScriptedTransport {
    /// A fresh scripted transport with zeroed attempt counters.
    pub fn new(channel_up: bool, accept_send: bool, report_micros: u64) -> (r: ScriptedTransport)
        ensures
            r.channel_up == channel_up,
            r.accept_send == accept_send,
            r.report_micros == report_micros,
            r.opens == 0,
            r.sends == 0,
    {
        ScriptedTransport { channel_up, accept_send, report_micros, opens: 0, sends: 0 }
    }
}

impl IcmpTransport for ScriptedTransport {
    open spec fn channel_available(&self) -> bool {
        self.channel_up
    }

    fn open_channel(&mut self) -> (r: Result<(), TransmitError>) {
        if self.opens < u64::MAX {
            self.opens = self.opens + 1;
        }
        if self.channel_up {
            Ok(())
        } else {
            Err(TransmitError::ChannelUnavailable)
        }
    }

    fn timed_send(&mut self, packet: &EchoRequestPacket, target: &Ipv4Address) -> (r: SendAttempt) {
        if self.sends < u64::MAX {
            self.sends = self.sends + 1;
        }
        let result: Result<(), SendError> = if self.accept_send {
            Ok(())
        } else {
            Err(SendError::SendFailed)
        };
        SendAttempt { result, elapsed_micros: self.report_micros }
    }
}

} // verus!
