//! The two kinds of failure of a round trip: transport and protocol.
use vstd::prelude::*;

verus! {

/// How the transport failed.
#[derive(Clone, Debug)]
pub enum IoFault {
    /// The command could not be written before the write timeout.
    WriteTimedOut,
    /// No reply arrived before the read timeout.
    ReadTimedOut,
    /// The socket reported a failure, described by the text.
    Socket(String),
}

/// Why a battery reply was not a reading.
#[derive(Clone, Copy, Debug, PartialEq, Eq, Structural)]
pub enum BatteryFault {
    /// The reply was empty.
    Empty,
    /// The reply held something other than an optional `+` and digits.
    InvalidDigit,
    /// The reply was a number above 100.
    AboveHundred,
}

/// How a delivered reply broke the contract of its command.
#[derive(Clone, Copy, Debug, PartialEq, Eq, Structural)]
pub enum ProtocolFault {
    /// An action command got a reply other than the acknowledgement token.
    NotAcknowledged,
    /// The battery query got a reply that is not a percentage.
    Battery(BatteryFault),
}

/// A failed round trip. Both kinds carry the command text; a protocol
/// failure also carries the reply text as it was received.
#[derive(Clone, Debug)]
pub enum TelloError {
    Io { command: String, fault: IoFault },
    Protocol { command: String, reply: String, fault: ProtocolFault },
}

/// `e` is a transport failure of `command`.
pub open spec fn is_io_error(e: TelloError, command: Seq<char>) -> bool {
    match e {
        TelloError::Io { command: c, .. } => c@ == command,
        _ => false,
    }
}

/// `e` is a protocol failure of `command` on `reply`, for `fault`.
pub open spec fn is_protocol_error(
    e: TelloError,
    command: Seq<char>,
    reply: Seq<char>,
    fault: ProtocolFault,
) -> bool {
    match e {
        TelloError::Protocol { command: c, reply: r, fault: f } => c@ == command && r@ == reply
            && f == fault,
        _ => false,
    }
}

/// `s` between single quotes.
pub open spec fn quoted(s: Seq<char>) -> Seq<char> {
    "'"@ + s + "'"@
}

/// The words for a transport failure.
pub open spec fn io_reason(fault: IoFault) -> Seq<char> {
    match fault {
        IoFault::WriteTimedOut => "write timed out"@,
        IoFault::ReadTimedOut => "no reply before the read timeout"@,
        IoFault::Socket(detail) => "socket failure: "@ + detail@,
    }
}

/// The words for a battery reply that is not a reading.
pub open spec fn battery_reason(fault: BatteryFault) -> Seq<char> {
    match fault {
        BatteryFault::Empty => "cannot parse integer from empty string"@,
        BatteryFault::InvalidDigit => "invalid digit found in string"@,
        BatteryFault::AboveHundred => "number above 100"@,
    }
}

fn push_quoted(out: &mut String, s: &str)
    ensures
        final(out)@ == old(out)@ + quoted(s@),
{
    out.append("'");
    out.append(s);
    out.append("'");
    assert(final(out)@ =~= old(out)@ + quoted(s@));
}

impl TelloError {
    /// The human-readable text of the error.
    pub open spec fn message_text(&self) -> Seq<char> {
        match self {
            TelloError::Io { command, fault } => quoted(command@) + ": "@ + io_reason(*fault),
            TelloError::Protocol { command, reply, fault } => match fault {
                ProtocolFault::NotAcknowledged => quoted(command@) + " -> "@ + quoted(reply@),
                ProtocolFault::Battery(f) => "parse battery failed: "@ + battery_reason(*f)
                    + " (got "@ + quoted(reply@) + ")"@,
            },
        }
    }

    /// Describes the error: the command, and for a protocol failure the
    /// reply as received and the reason.
    pub fn message(&self) -> (r: String)
        ensures
            r@ == self.message_text(),
    {
        let mut out = String::new();
        match self {
            TelloError::Io { command, fault } => {
                push_quoted(&mut out, command.as_str());
                out.append(": ");
                match fault {
                    IoFault::WriteTimedOut => out.append("write timed out"),
                    IoFault::ReadTimedOut => out.append("no reply before the read timeout"),
                    IoFault::Socket(detail) => {
                        out.append("socket failure: ");
                        out.append(detail.as_str());
                    },
                }
            },
            TelloError::Protocol { command, reply, fault } => match fault {
                ProtocolFault::NotAcknowledged => {
                    push_quoted(&mut out, command.as_str());
                    out.append(" -> ");
                    push_quoted(&mut out, reply.as_str());
                },
                ProtocolFault::Battery(f) => {
                    out.append("parse battery failed: ");
                    match f {
                        BatteryFault::Empty => out.append("cannot parse integer from empty string"),
                        BatteryFault::InvalidDigit => out.append("invalid digit found in string"),
                        BatteryFault::AboveHundred => out.append("number above 100"),
                    }
                    out.append(" (got ");
                    push_quoted(&mut out, reply.as_str());
                    out.append(")");
                },
            },
        }
        assert(out@ =~= self.message_text());
        out
    }
}

} // verus!
