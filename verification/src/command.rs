//! The closed set of wire commands and their byte encodings.
//!
//! Every bus transaction is one command frame: an opcode byte followed by
//! the command's payload.  Register commands fold the five-bit register
//! address into the opcode's low bits.  Read-type commands carry zero-filled
//! placeholder bytes that the response overwrites in the full-duplex
//! exchange.

use vstd::prelude::*;

verus! {

/// A wire command: opcode, payload length, and encode/decode rules.
#[derive(Debug)]
pub enum Command {
    /// Read a one-to-five-byte register: opcode `000AAAAA`.
    ReadRegister { addr: u8, width: u8 },
    /// Write a one-to-five-byte register: opcode `001AAAAA`.
    WriteRegister { addr: u8, data: Vec<u8> },
    /// Read one receive-payload FIFO entry of the given width.
    ReadRxPayload { width: u8 },
    /// Queue one transmit payload of 1 to 32 bytes.
    WriteTxPayload { data: Vec<u8> },
    /// Discard everything in the receive FIFO.
    FlushRx,
    /// Discard everything in the transmit FIFO.
    FlushTx,
    /// No operation; used to fetch the status byte alone.
    Nop,
}

/// A run of `n` zero placeholder bytes.
pub open spec fn zeros(n: int) -> Seq<u8> {
    Seq::new(n as nat, |i: int| 0u8)
}

impl Command {
    /// Well-formed commands: addresses fit in five bits, payload lengths in
    /// their chip-imposed ranges.
    pub open spec fn wf(&self) -> bool {
        match self {
            Command::ReadRegister { addr, width } => *addr < 32 && 1 <= *width <= 5,
            Command::WriteRegister { addr, data } => *addr < 32 && 1 <= data@.len() <= 5,
            Command::ReadRxPayload { width } => 1 <= *width <= 32,
            Command::WriteTxPayload { data } => 1 <= data@.len() <= 32,
            Command::FlushRx => true,
            Command::FlushTx => true,
            Command::Nop => true,
        }
    }

    /// The exact on-wire frame: opcode byte, then payload.
    pub open spec fn frame(&self) -> Seq<u8> {
        match self {
            Command::ReadRegister { addr, width } => seq![*addr] + zeros(*width as int),
            Command::WriteRegister { addr, data } => seq![*addr | 0x20] + data@,
            Command::ReadRxPayload { width } => seq![0b0110_0001u8] + zeros(*width as int),
            Command::WriteTxPayload { data } => seq![0b1010_0000u8] + data@,
            Command::FlushRx => seq![0b1110_0010u8],
            Command::FlushTx => seq![0b1110_0001u8],
            Command::Nop => seq![0b1111_1111u8],
        }
    }

    /// The data a response carries back for this command: the bytes after
    /// the status byte for read-type commands, nothing for the others.
    pub open spec fn response_of(&self, rx: Seq<u8>) -> Seq<u8> {
        match self {
            Command::ReadRegister { .. } => rx.subrange(1, self.frame().len() as int),
            Command::ReadRxPayload { .. } => rx.subrange(1, self.frame().len() as int),
            _ => Seq::empty(),
        }
    }

    /// Total frame length: one opcode byte plus the payload.
    pub fn len(&self) -> (r: usize)
        requires
            self.wf(),
        ensures
            r == self.frame().len(),
    {
        match self {
            Command::ReadRegister { width, .. } => 1 + (*width as usize),
            Command::WriteRegister { data, .. } => 1 + data.len(),
            Command::ReadRxPayload { width } => 1 + (*width as usize),
            Command::WriteTxPayload { data } => 1 + data.len(),
            Command::FlushRx => 1,
            Command::FlushTx => 1,
            Command::Nop => 1,
        }
    }

    /// Build the on-wire frame.
    pub fn encode(&self) -> (r: Vec<u8>)
        requires
            self.wf(),
        ensures
            r@ == self.frame(),
    {
        let mut v: Vec<u8> = Vec::new();
        match self {
            Command::ReadRegister { addr, width } => {
                v.push(*addr);
                let mut i: u8 = 0;
                while i < *width
                    invariant
                        i <= *width,
                        v@.len() == 1 + i as int,
                        v@[0] == *addr,
                        forall|j: int| 1 <= j < v@.len() ==> v@[j] == 0u8,
                    decreases *width - i,
                {
                    v.push(0u8);
                    i = i + 1;
                }
                assert(v@ =~= self.frame());
            },
            Command::WriteRegister { addr, data } => {
                v.push(*addr | 0x20);
                let mut i: usize = 0;
                while i < data.len()
                    invariant
                        i <= data@.len(),
                        v@.len() == 1 + i as int,
                        v@[0] == *addr | 0x20,
                        forall|j: int| 1 <= j < v@.len() ==> v@[j] == data@[j - 1],
                    decreases data@.len() - i,
                {
                    v.push(data[i]);
                    i = i + 1;
                }
                assert(v@ =~= self.frame());
            },
            Command::ReadRxPayload { width } => {
                v.push(0b0110_0001u8);
                let mut i: u8 = 0;
                while i < *width
                    invariant
                        i <= *width,
                        v@.len() == 1 + i as int,
                        v@[0] == 0b0110_0001u8,
                        forall|j: int| 1 <= j < v@.len() ==> v@[j] == 0u8,
                    decreases *width - i,
                {
                    v.push(0u8);
                    i = i + 1;
                }
                assert(v@ =~= self.frame());
            },
            Command::WriteTxPayload { data } => {
                v.push(0b1010_0000u8);
                let mut i: usize = 0;
                while i < data.len()
                    invariant
                        i <= data@.len(),
                        v@.len() == 1 + i as int,
                        v@[0] == 0b1010_0000u8,
                        forall|j: int| 1 <= j < v@.len() ==> v@[j] == data@[j - 1],
                    decreases data@.len() - i,
                {
                    v.push(data[i]);
                    i = i + 1;
                }
                assert(v@ =~= self.frame());
            },
            Command::FlushRx => {
                v.push(0b1110_0010u8);
                assert(v@ =~= self.frame());
            },
            Command::FlushTx => {
                v.push(0b1110_0001u8);
                assert(v@ =~= self.frame());
            },
            Command::Nop => {
                v.push(0b1111_1111u8);
                assert(v@ =~= self.frame());
            },
        }
        v
    }

    /// Extract the data bytes a response carries back for this command from
    /// the exchanged buffer.
    pub fn decode_response(&self, buf: &Vec<u8>) -> (r: Vec<u8>)
        requires
            self.wf(),
            buf@.len() == self.frame().len(),
        ensures
            r@ == self.response_of(buf@),
    {
        let mut v: Vec<u8> = Vec::new();
        match self {
            Command::ReadRegister { .. } | Command::ReadRxPayload { .. } => {
                let n: usize = self.len();
                let mut i: usize = 1;
                while i < n
                    invariant
                        1 <= i <= n,
                        n == self.frame().len(),
                        buf@.len() == n,
                        v@.len() == i - 1,
                        forall|j: int| 0 <= j < v@.len() ==> v@[j] == buf@[j + 1],
                    decreases n - i,
                {
                    v.push(buf[i]);
                    i = i + 1;
                }
                assert(v@ =~= self.response_of(buf@));
            },
            _ => {
                assert(v@ =~= self.response_of(buf@));
            },
        }
        v
    }
}

/// A frame of the read-register command for a given register has exactly one
/// opcode byte, the register's address, followed by one placeholder byte per
/// register byte.
pub proof fn lemma_read_frame_shape(addr: u8, width: u8)
    requires
        addr < 32,
        1 <= width <= 5,
    ensures
        (Command::ReadRegister { addr, width }).frame().len() == 1 + width,
        (Command::ReadRegister { addr, width }).frame()[0] == addr,
{
}

} // verus!
