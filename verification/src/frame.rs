//! The fixed-length frame that every command travels in.

use crate::error::UsbError;
use vstd::prelude::*;

verus! {

/// The length of a command frame in bytes.
pub const CMD_LEN: usize = 16;

/// `command` followed by as many zero bytes as it takes to fill a frame.
pub open spec fn padded(command: Seq<u8>) -> Seq<u8>
    recommends
        command.len() <= CMD_LEN,
{
    command + Seq::new((CMD_LEN - command.len()) as nat, |i: int| 0u8)
}

/// A command padded to the length that the probe expects.
pub struct CommandFrame {
    bytes: Vec<u8>,
}

impl View for CommandFrame {
    type V = Seq<u8>;

    closed spec fn view(&self) -> Seq<u8> {
        self.bytes@
    }
}

impl CommandFrame {
    #[verifier::type_invariant]
    spec fn has_frame_length(self) -> bool {
        self.bytes@.len() == CMD_LEN
    }

    /// Pads `command` with zero bytes. A command longer than a frame is
    /// refused.
    pub fn new(command: Vec<u8>) -> (frame: Result<Self, UsbError>)
        ensures
            command@.len() <= CMD_LEN ==> frame is Ok && frame->Ok_0@ == padded(command@),
            command@.len() > CMD_LEN ==> frame == Err::<Self, UsbError>(UsbError::InvalidParam),
    {
        if command.len() > CMD_LEN {
            return Err(UsbError::InvalidParam);
        }
        let ghost prefix = command@;
        let mut bytes = command;
        while bytes.len() < CMD_LEN
            invariant
                prefix.len() <= bytes@.len() <= CMD_LEN,
                bytes@ == prefix + Seq::new((bytes@.len() - prefix.len()) as nat, |i: int| 0u8),
            decreases CMD_LEN - bytes@.len(),
        {
            bytes.push(0);
        }
        Ok(CommandFrame { bytes })
    }

    /// The bytes of the frame, ready for transmission.
    pub fn into_bytes(self) -> (bytes: Vec<u8>)
        ensures
            bytes@ == self@,
            bytes@.len() == CMD_LEN,
    {
        proof {
            use_type_invariant(&self);
        }
        self.bytes
    }
}

/// A frame is exactly sixteen bytes long, begins with the command, and holds
/// nothing but zero bytes after it.
pub proof fn lemma_padded_shape(command: Seq<u8>)
    requires
        command.len() <= CMD_LEN,
    ensures
        padded(command).len() == CMD_LEN,
        padded(command).subrange(0, command.len() as int) == command,
        forall|i: int| command.len() <= i < CMD_LEN ==> padded(command)[i] == 0,
{
}

} // verus!
