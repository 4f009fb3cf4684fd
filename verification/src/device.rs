//! Transport and device abstraction.
//!
//! A [`Device`] owns the bus and chip-enable capabilities and executes one
//! atomic full-duplex exchange per command.  Its behaviour is modelled by a
//! log of exchanges: each entry is the frame sent and the same-length byte
//! sequence received.  Byte 0 of every received sequence is the status byte.
//! What the chip answers is outside the model, so the received bytes are
//! unconstrained: callers state what they do for every possible response.

use vstd::prelude::*;
use crate::command::Command;
use crate::registers::{Register, Config, Status};
use crate::Error;

verus! {

/// The history of completed exchanges: `(sent frame, received bytes)` pairs.
pub type Log = Seq<(Seq<u8>, Seq<u8>)>;

/// The frame of a one-byte read-register command for address `addr`.
pub open spec fn read_frame(addr: u8) -> Seq<u8> {
    seq![addr, 0u8]
}

/// The frame of a one-byte write-register command for address `addr`.
pub open spec fn write_frame(addr: u8, val: u8) -> Seq<u8> {
    seq![addr | 0x20, val]
}

/// The frame of a multi-byte write-register command for address `addr`.
pub open spec fn write_frame_bytes(addr: u8, data: Seq<u8>) -> Seq<u8> {
    seq![addr | 0x20] + data
}

/// `newlog` is `oldlog` extended by exactly one exchange per listed frame,
/// in order, each response as long as its frame.
pub open spec fn appended(oldlog: Log, newlog: Log, frames: Seq<Seq<u8>>) -> bool {
    &&& newlog.len() == oldlog.len() + frames.len()
    &&& forall|k: int| 0 <= k < oldlog.len() ==> newlog[k] == oldlog[k]
    &&& forall|k: int|
        0 <= k < frames.len() ==> (#[trigger] newlog[oldlog.len() + k]).0 == frames[k]
            && newlog[oldlog.len() + k].1.len() == frames[k].len()
}

/// `newlog` preserves `oldlog` as a prefix; what follows is bus traffic the
/// operation performed before failing.
pub open spec fn extends(oldlog: Log, newlog: Log) -> bool {
    &&& newlog.len() >= oldlog.len()
    &&& forall|k: int| 0 <= k < oldlog.len() ==> newlog[k] == oldlog[k]
}

/// A write-if-changed step on the configuration register: the write is on
/// the wire exactly when the new byte differs from the cached one.
pub open spec fn config_write_logged(oldlog: Log, newlog: Log, oldcfg: u8, newcfg: u8) -> bool {
    if newcfg == oldcfg {
        newlog == oldlog
    } else {
        appended(oldlog, newlog, seq![write_frame(0x00, newcfg)])
    }
}

/// The configuration byte carried by the last configuration-register write
/// in the log, if any such write happened.
pub open spec fn last_config_write(log: Log) -> Option<u8>
    decreases log.len(),
{
    if log.len() == 0 {
        None
    } else if log.last().0.len() == 2 && log.last().0[0] == 0x20 {
        Some(log.last().0[1])
    } else {
        last_config_write(log.drop_last())
    }
}

/// The cached configuration value always equals the last successfully
/// written configuration register: a write-if-changed step keeps the cache
/// and the wire in step, whether or not it wrote.
pub proof fn lemma_config_cache_synced(oldlog: Log, newlog: Log, oldcfg: u8, newcfg: u8)
    requires
        config_write_logged(oldlog, newlog, oldcfg, newcfg),
        last_config_write(oldlog) matches Some(v) ==> v == oldcfg,
    ensures
        last_config_write(newlog) matches Some(v) ==> v == newcfg,
{
    if newcfg != oldcfg {
        assert(0x00u8 | 0x20 == 0x20u8) by (bit_vector);
        assert(newlog[oldlog.len() as int + 0].0 == seq![write_frame(0x00, newcfg)][0]);
        assert(newlog.last() == newlog[oldlog.len() as int]);
        assert(newlog.last().0 == write_frame(0x00, newcfg));
    }
}

/// An appended log preserves the old log as a prefix.
pub proof fn lemma_appended_extends(oldlog: Log, newlog: Log, frames: Seq<Seq<u8>>)
    requires
        appended(oldlog, newlog, frames),
    ensures
        extends(oldlog, newlog),
{
}

/// Prefix preservation is transitive.
pub proof fn lemma_extends_trans(log0: Log, log1: Log, log2: Log)
    requires
        extends(log0, log1),
        extends(log1, log2),
    ensures
        extends(log0, log2),
{
    assert forall|k: int| 0 <= k < log0.len() implies log2[k] == log0[k] by {
        assert(log1[k] == log0[k]);
        assert(log2[k] == log1[k]);
    }
}

/// Two successive extensions compose into one.
pub proof fn lemma_appended_trans(
    log0: Log,
    log1: Log,
    log2: Log,
    f1: Seq<Seq<u8>>,
    f2: Seq<Seq<u8>>,
)
    requires
        appended(log0, log1, f1),
        appended(log1, log2, f2),
    ensures
        appended(log0, log2, f1 + f2),
{
    assert forall|k: int| 0 <= k < (f1 + f2).len() implies (#[trigger] log2[log0.len() + k]).0 == (
    f1 + f2)[k] && log2[log0.len() + k].1.len() == (f1 + f2)[k].len() by {
        if k < f1.len() {
            assert(log1[log0.len() + k].0 == f1[k]);
            assert(log2[log0.len() + k] == log1[log0.len() + k]);
        } else {
            let j = k - f1.len();
            assert(log2[log1.len() + j].0 == f2[j]);
            assert(log0.len() + k == log1.len() + j);
        }
    }
}

/// Full-duplex synchronous-bus capability supplied by the host platform.
///
/// Implementations live outside the verified library (the platform's bus
/// driver); the library relies on a successful transfer overwriting the
/// buffer in place with exactly one response byte per byte sent.
pub trait SpiBus {
    /// Exchange `buf` with the chip: every byte is sent and simultaneously
    /// overwritten by the byte received.
    fn transfer_in_place(&mut self, buf: &mut Vec<u8>) -> (r: Result<(), Error>)
        ensures
            r is Ok ==> final(buf)@.len() == old(buf)@.len(),
    ;
}

/// Digital-output capability for the chip-enable line, supplied by the host
/// platform.  Logic-high starts or continues radio activity; logic-low is
/// idle.  The line is infallible by contract of the capability.
pub trait CePin {
    /// Drive the line high.
    fn set_high(&mut self);

    /// Drive the line low.
    fn set_low(&mut self);
}

/// A device: bus and chip-enable ownership, a cached copy of the
/// configuration register, and the exchange-log model of its bus traffic.
pub trait Device: Sized {
    /// Whether the chip-enable line is currently driven high.
    spec fn ce_high(&self) -> bool;

    /// The cached configuration register byte.
    spec fn config_cache(&self) -> u8;

    /// All completed exchanges so far.
    spec fn log(&self) -> Log;

    /// Drive chip-enable high.
    fn ce_enable(&mut self)
        ensures
            final(self).ce_high(),
            final(self).config_cache() == old(self).config_cache(),
            final(self).log() == old(self).log(),
    ;

    /// Drive chip-enable low.
    fn ce_disable(&mut self)
        ensures
            !final(self).ce_high(),
            final(self).config_cache() == old(self).config_cache(),
            final(self).log() == old(self).log(),
    ;

    /// The cached copy of the configuration register.
    fn config(&self) -> (r: Config)
        ensures
            r.spec_raw() == self.config_cache(),
    ;

    /// Execute one atomic exchange: send the command's frame, give back the
    /// status byte (byte 0 of the response) and the decoded response data.
    /// A bus failure is surfaced immediately, as the transport error, and
    /// leaves no exchange logged.
    fn send_command(&mut self, cmd: &Command) -> (r: Result<(Status, Vec<u8>), Error>)
        requires
            cmd.wf(),
        ensures
            final(self).ce_high() == old(self).ce_high(),
            final(self).config_cache() == old(self).config_cache(),
            match r {
                Ok((status, response)) => {
                    &&& appended(old(self).log(), final(self).log(), seq![cmd.frame()])
                    &&& status.spec_raw() == final(self).log().last().1[0]
                    &&& response@ == cmd.response_of(final(self).log().last().1)
                },
                Err(e) => {
                    &&& final(self).log() == old(self).log()
                    &&& e is Bus
                },
            },
    ;

    /// Replace the cached configuration register, writing it to the chip
    /// only if the new bit pattern differs from the cached one.  The cache
    /// is updated only on success; an unchanged pattern involves no bus
    /// traffic at all, so success is owed there.
    fn update_config(&mut self, new: Config) -> (r: Result<(), Error>)
        ensures
            final(self).ce_high() == old(self).ce_high(),
            new.spec_raw() == old(self).config_cache() ==> r is Ok,
            match r {
                Ok(()) => {
                    &&& final(self).config_cache() == new.spec_raw()
                    &&& if new.spec_raw() == old(self).config_cache() {
                        final(self).log() == old(self).log()
                    } else {
                        appended(
                            old(self).log(),
                            final(self).log(),
                            seq![write_frame(0x00, new.spec_raw())],
                        )
                    }
                },
                Err(e) => {
                    &&& final(self).config_cache() == old(self).config_cache()
                    &&& final(self).log() == old(self).log()
                    &&& e is Bus
                },
            },
    ;
}

/// Issue a read-register command for `R`'s address and decode byte 1 of the
/// response as the register value.
pub fn read_register<D: Device, R: Register>(device: &mut D) -> (r: Result<(Status, R), Error>)
    ensures
        final(device).ce_high() == old(device).ce_high(),
        final(device).config_cache() == old(device).config_cache(),
        match r {
            Ok((status, reg)) => {
                &&& appended(old(device).log(), final(device).log(), seq![
                    read_frame(R::spec_addr()),
                ])
                &&& status.spec_raw() == final(device).log().last().1[0]
                &&& reg.spec_raw() == final(device).log().last().1[1]
            },
            Err(e) => {
                &&& final(device).log() == old(device).log()
                &&& e is Bus
            },
        },
{
    let cmd = Command::ReadRegister { addr: R::addr(), width: 1 };
    proof {
        assert(cmd.frame() =~= read_frame(R::spec_addr()));
    }
    match device.send_command(&cmd) {
        Ok((status, response)) => {
            proof {
                let oldlog = old(device).log();
                let newlog = device.log();
                assert(newlog[oldlog.len() as int + 0].0 == seq![cmd.frame()][0]);
                assert(newlog.last() == newlog[oldlog.len() as int]);
                assert(newlog.last().1.len() == cmd.frame().len());
                assert(response@.len() == 1);
            }
            let reg = R::from_raw(response[0]);
            Ok((status, reg))
        },
        Err(e) => Err(e),
    }
}

/// Issue a write-register command carrying `reg`'s raw byte; only the status
/// byte comes back.
pub fn write_register<D: Device, R: Register>(device: &mut D, reg: &R) -> (r: Result<
    Status,
    Error,
>)
    ensures
        final(device).ce_high() == old(device).ce_high(),
        final(device).config_cache() == old(device).config_cache(),
        match r {
            Ok(status) => {
                &&& appended(old(device).log(), final(device).log(), seq![
                    write_frame(R::spec_addr(), reg.spec_raw()),
                ])
                &&& status.spec_raw() == final(device).log().last().1[0]
            },
            Err(e) => {
                &&& final(device).log() == old(device).log()
                &&& e is Bus
            },
        },
{
    let mut data: Vec<u8> = Vec::new();
    data.push(reg.raw());
    let cmd = Command::WriteRegister { addr: R::addr(), data };
    proof {
        assert(cmd.frame() =~= write_frame(R::spec_addr(), reg.spec_raw()));
    }
    match device.send_command(&cmd) {
        Ok((status, _)) => Ok(status),
        Err(e) => Err(e),
    }
}

/// Issue a write-register command carrying one raw byte for a register
/// addressed by number (the per-pipe payload-length registers).
pub fn write_register_raw<D: Device>(device: &mut D, addr: u8, val: u8) -> (r: Result<
    Status,
    Error,
>)
    requires
        addr < 32,
    ensures
        final(device).ce_high() == old(device).ce_high(),
        final(device).config_cache() == old(device).config_cache(),
        match r {
            Ok(status) => {
                &&& appended(old(device).log(), final(device).log(), seq![
                    write_frame(addr, val),
                ])
                &&& status.spec_raw() == final(device).log().last().1[0]
            },
            Err(e) => {
                &&& final(device).log() == old(device).log()
                &&& e is Bus
            },
        },
{
    let mut data: Vec<u8> = Vec::new();
    data.push(val);
    let cmd = Command::WriteRegister { addr, data };
    proof {
        assert(cmd.frame() =~= write_frame(addr, val));
    }
    match device.send_command(&cmd) {
        Ok((status, _)) => Ok(status),
        Err(e) => Err(e),
    }
}

/// Issue a write-register command carrying a 2–5 byte value (an address-table
/// register); only the status byte comes back.
pub fn write_register_bytes<D: Device>(device: &mut D, addr: u8, data: &[u8]) -> (r: Result<
    Status,
    Error,
>)
    requires
        addr < 32,
        1 <= data@.len() <= 5,
    ensures
        final(device).ce_high() == old(device).ce_high(),
        final(device).config_cache() == old(device).config_cache(),
        match r {
            Ok(status) => {
                &&& appended(old(device).log(), final(device).log(), seq![
                    write_frame_bytes(addr, data@),
                ])
                &&& status.spec_raw() == final(device).log().last().1[0]
            },
            Err(e) => {
                &&& final(device).log() == old(device).log()
                &&& e is Bus
            },
        },
{
    let mut copy: Vec<u8> = Vec::new();
    let mut i: usize = 0;
    while i < data.len()
        invariant
            i <= data@.len(),
            copy@ == data@.subrange(0, i as int),
        decreases data@.len() - i,
    {
        copy.push(data[i]);
        i = i + 1;
        proof {
            assert(copy@ =~= data@.subrange(0, i as int));
        }
    }
    proof {
        assert(copy@ =~= data@);
    }
    let cmd = Command::WriteRegister { addr, data: copy };
    proof {
        assert(cmd.frame() =~= write_frame_bytes(addr, data@));
    }
    match device.send_command(&cmd) {
        Ok((status, _)) => Ok(status),
        Err(e) => Err(e),
    }
}

} // verus!
