//! The command channel: one command outstanding at a time, each settled by
//! exactly one transport event.
use vstd::prelude::*;
use vstd::slice::slice_to_vec;
use vstd::string::StringSliceAdditionalSpecFns;
use crate::command::valid_command;
use crate::error::{IoFault, TelloError, is_io_error};
use crate::reply::{lossy_utf8, reply_text, trimmed};

verus! {

/// What the transport reports after a command was handed to it.
pub enum TransportEvent {
    /// One datagram arrived, with these bytes.
    Reply(Vec<u8>),
    /// The write did not finish before the write timeout.
    WriteTimedOut,
    /// No datagram arrived before the read timeout.
    ReadTimedOut,
    /// The socket failed, as the text describes.
    SocketFailure(String),
}

/// The transport failure that `event` stands for, if it is one.
pub open spec fn io_fault_matches(event: TransportEvent, fault: IoFault) -> bool {
    match event {
        TransportEvent::Reply(_) => false,
        TransportEvent::WriteTimedOut => fault is WriteTimedOut,
        TransportEvent::ReadTimedOut => fault is ReadTimedOut,
        TransportEvent::SocketFailure(d) => fault is Socket && fault->Socket_0@ == d@,
    }
}

/// The channel's protocol state: idle, or awaiting the reply to the one
/// outstanding command. It keeps no reply and nothing else across calls.
pub struct CommandChannel {
    outstanding: Option<String>,
}

impl CommandChannel {
    /// The command whose reply is awaited, if any.
    pub closed spec fn outstanding(&self) -> Option<Seq<char>> {
        match self.outstanding {
            Some(c) => Some(c@),
            None => None,
        }
    }

    /// No command is outstanding.
    pub open spec fn spec_is_idle(&self) -> bool {
        self.outstanding() is None
    }

    /// A channel with no command outstanding.
    pub fn new() -> (r: Self)
        ensures
            r.spec_is_idle(),
    {
        CommandChannel { outstanding: None }
    }

    /// Whether no command is outstanding.
    #[verifier::when_used_as_spec(spec_is_idle)]
    pub fn is_idle(&self) -> (r: bool)
        ensures
            r == self.spec_is_idle(),
    {
        self.outstanding.is_none()
    }

    /// Starts a round trip: records `command` as outstanding and returns
    /// the datagram to write, which is its text and nothing more.
    pub fn begin(&mut self, command: &str) -> (datagram: Vec<u8>)
        requires
            old(self).spec_is_idle(),
            valid_command(command@),
        ensures
            final(self).outstanding() == Some(command@),
            datagram@ == command.spec_bytes(),
    {
        self.outstanding = Some(command.to_owned());
        slice_to_vec(command.as_bytes())
    }

    /// Ends the round trip with what the transport reported. The channel is
    /// idle again whatever the event. A datagram gives its text, decoded
    /// lossily and trimmed; any other event is a transport failure of the
    /// outstanding command, and is not retried.
    pub fn complete(&mut self, event: TransportEvent) -> (r: Result<String, TelloError>)
        requires
            !old(self).spec_is_idle(),
        ensures
            final(self).spec_is_idle(),
            match event {
                TransportEvent::Reply(bytes) => r is Ok && r->Ok_0@ == trimmed(
                    lossy_utf8(bytes@),
                ),
                _ => r is Err && is_io_error(r->Err_0, old(self).outstanding()->0) && match r->Err_0 {
                    TelloError::Io { fault, .. } => io_fault_matches(event, fault),
                    _ => false,
                },
            },
    {
        let command = self.outstanding.take().unwrap();
        match event {
            TransportEvent::Reply(bytes) => Ok(reply_text(bytes.as_slice())),
            TransportEvent::WriteTimedOut => Err(
                TelloError::Io { command, fault: IoFault::WriteTimedOut },
            ),
            TransportEvent::ReadTimedOut => Err(TelloError::Io { command, fault: IoFault::ReadTimedOut }),
            TransportEvent::SocketFailure(detail) => Err(
                TelloError::Io { command, fault: IoFault::Socket(detail) },
            ),
        }
    }
}

} // verus!
