//! **Transmit** mode and its reliability logic.
//!
//! Chip-enable is asserted only while a send is in flight.  The
//! retransmit-limit condition does not advance the transmit FIFO: the
//! undeliverable packet stays at its head, so both completion paths flush
//! the FIFO whenever that flag is seen — omitting the flush would retry the
//! same packet forever.

use vstd::prelude::*;
use crate::bits::{bit, with_bit};
use crate::command::Command;
use crate::config::Configuration;
use crate::device::{
    Device, read_register, write_register, read_frame, write_frame, appended, extends,
    lemma_appended_trans, lemma_appended_extends, Log,
};
use crate::registers::{Register, Status, FifoStatus, ObserveTx};
use crate::standby::StandbyMode;
use crate::Error;

verus! {

/// The outcome of a non-blocking completion probe that found nothing to
/// report yet, or a device failure.
#[derive(Debug, Clone, Copy, PartialEq, Eq)]
pub enum PollError {
    /// The transmit FIFO is still draining; poll again.
    WouldBlock,
    /// The underlying device failed.
    Other(Error),
}

/// The frame that reads the FIFO_STATUS register.
pub open spec fn fifo_read_frame() -> Seq<u8> {
    read_frame(0x17)
}

/// The frame of the flush-transmit command.
pub open spec fn flush_tx_frame() -> Seq<u8> {
    seq![0b1110_0001u8]
}

/// The frame that clears the send-done and retransmit-limit interrupt bits
/// by writing them back set.
pub open spec fn clear_tx_frame() -> Seq<u8> {
    write_frame(0x07, 0x30)
}

/// The only frames the transmit-drain logic ever puts on the wire.
pub open spec fn tx_drain_frame(f: Seq<u8>) -> bool {
    f == fifo_read_frame() || f == flush_tx_frame() || f == clear_tx_frame()
}

/// Between positions `from` and `to` of the log, some status poll reported
/// the transmit FIFO empty, and only the flush and interrupt-clear frames
/// answering it follow.
pub open spec fn drained_observed(log: Log, from: int, to: int) -> bool {
    exists|i: int|
        from <= i < to && (#[trigger] log[i]).0 == fifo_read_frame() && bit(log[i].1[1], 4) && (
        forall|j: int|
            i < j < to ==> (#[trigger] log[j]).0 == flush_tx_frame() || log[j].0
                == clear_tx_frame())
}

/// Between positions `from` and `to` of the log, every poll whose status
/// byte carried the retransmit-limit flag is answered, before the next
/// poll, by one flush-transmit command and one write clearing the two
/// transmit interrupt bits: the mandatory flush-on-limit response.
pub open spec fn max_rt_handled(log: Log, from: int, to: int) -> bool {
    forall|i: int|
        from <= i < to && (#[trigger] log[i]).0 == fifo_read_frame() && bit(log[i].1[0], 4)
            ==> i + 2 < to && log[i + 1].0 == flush_tx_frame() && log[i + 2].0 == clear_tx_frame()
}

/// How many status polls a blocking drain will make before concluding the
/// chip is wedged: far beyond anything a working chip needs to drain its
/// three-entry FIFO, yet a bound, so that the loop provably makes progress.
pub const DRAIN_POLL_BUDGET: u64 = 0xffff_ffff;

/// The action one transmit-completion poll takes, decided from the two
/// bytes it read.  Hosts that drive the bus themselves (an asynchronous
/// platform, say) make the same decision through this function and perform
/// the actions it names.
#[derive(Debug, Clone, Copy, PartialEq, Eq)]
pub enum PollStep {
    /// Retransmit limit exceeded: flush the transmit FIFO, clear the two
    /// transmit interrupt bits, lower chip-enable, report failure.
    FlushAndFail,
    /// Transmit FIFO empty: clear the two transmit interrupt bits, lower
    /// chip-enable, report success.
    FinishSuccess,
    /// Still draining: re-raise chip-enable and poll again.
    KeepWaiting,
}

/// Decide one transmit-completion poll from the status byte and the
/// FIFO-status byte it read, exactly as [`TxMode::poll_send`] reacts.
pub fn poll_decision(status: Status, fifo: FifoStatus) -> (r: PollStep)
    ensures
        r is FlushAndFail <==> bit(status.spec_raw(), 4),
        r is FinishSuccess <==> !bit(status.spec_raw(), 4) && bit(fifo.spec_raw(), 4),
        r is KeepWaiting <==> !bit(status.spec_raw(), 4) && !bit(fifo.spec_raw(), 4),
{
    if status.max_rt() {
        PollStep::FlushAndFail
    } else if fifo.tx_empty() {
        PollStep::FinishSuccess
    } else {
        PollStep::KeepWaiting
    }
}

/// The Transmit state; owns the device exclusively.
pub struct TxMode<D: Device> {
    device: D,
}

impl<D: Device> TxMode<D> {
    /// Relies on everything being set up by the Standby → Transmit
    /// transition, from which it is called.
    pub fn new(device: D) -> (r: Self)
        ensures
            r.device_spec() == device,
    {
        TxMode { device }
    }

    /// Is the transmit FIFO empty?
    pub fn is_empty(&mut self) -> (r: Result<bool, Error>)
        ensures
            final(self).device_spec().ce_high() == old(self).device_spec().ce_high(),
            final(self).device_spec().config_cache() == old(self).device_spec().config_cache(),
            match r {
                Ok(b) => {
                    &&& appended(old(self).device_spec().log(), final(self).device_spec().log(), seq![
                        fifo_read_frame(),
                    ])
                    &&& b == bit(final(self).device_spec().log().last().1[1], 4)
                },
                Err(_) => final(self).device_spec().log() == old(self).device_spec().log(),
            },
    {
        let r: Result<(Status, FifoStatus), Error> = read_register(&mut self.device);
        match r {
            Ok((_, fifo)) => Ok(fifo.tx_empty()),
            Err(e) => Err(e),
        }
    }

    /// Is the transmit FIFO full?
    pub fn is_full(&mut self) -> (r: Result<bool, Error>)
        ensures
            final(self).device_spec().ce_high() == old(self).device_spec().ce_high(),
            final(self).device_spec().config_cache() == old(self).device_spec().config_cache(),
            match r {
                Ok(b) => {
                    &&& appended(old(self).device_spec().log(), final(self).device_spec().log(), seq![
                        fifo_read_frame(),
                    ])
                    &&& b == bit(final(self).device_spec().log().last().1[1], 5)
                },
                Err(_) => final(self).device_spec().log() == old(self).device_spec().log(),
            },
    {
        let r: Result<(Status, FifoStatus), Error> = read_register(&mut self.device);
        match r {
            Ok((_, fifo)) => Ok(fifo.tx_full()),
            Err(e) => Err(e),
        }
    }

    /// Does the transmit FIFO have space?
    pub fn can_send(&mut self) -> (r: Result<bool, Error>)
        ensures
            final(self).device_spec().ce_high() == old(self).device_spec().ce_high(),
            final(self).device_spec().config_cache() == old(self).device_spec().config_cache(),
            match r {
                Ok(b) => {
                    &&& appended(old(self).device_spec().log(), final(self).device_spec().log(), seq![
                        fifo_read_frame(),
                    ])
                    &&& b == !bit(final(self).device_spec().log().last().1[1], 5)
                },
                Err(_) => final(self).device_spec().log() == old(self).device_spec().log(),
            },
    {
        match self.is_full() {
            Ok(full) => Ok(!full),
            Err(e) => Err(e),
        }
    }

    /// Queue one packet into the transmit FIFO and raise chip-enable;
    /// returns immediately with the status snapshot taken at write time and
    /// never blocks for completion.  Packets outside 1–32 bytes are a
    /// contract violation.
    pub fn send(&mut self, packet: &[u8]) -> (r: Result<Status, Error>)
        requires
            1 <= packet@.len() <= 32,
        ensures
            final(self).device_spec().config_cache() == old(self).device_spec().config_cache(),
            match r {
                Ok(status) => {
                    &&& appended(old(self).device_spec().log(), final(self).device_spec().log(), seq![
                        seq![0b1010_0000u8] + packet@,
                    ])
                    &&& status.spec_raw() == final(self).device_spec().log().last().1[0]
                    &&& final(self).device_spec().ce_high()
                },
                Err(_) => {
                    &&& final(self).device_spec().log() == old(self).device_spec().log()
                    &&& final(self).device_spec().ce_high() == old(self).device_spec().ce_high()
                },
            },
    {
        let mut data: Vec<u8> = Vec::new();
        let mut i: usize = 0;
        while i < packet.len()
            invariant
                i <= packet@.len(),
                data@ == packet@.subrange(0, i as int),
            decreases packet@.len() - i,
        {
            data.push(packet[i]);
            i = i + 1;
            proof {
                assert(data@ =~= packet@.subrange(0, i as int));
            }
        }
        proof {
            assert(data@ =~= packet@);
        }
        let cmd = Command::WriteTxPayload { data };
        match self.device.send_command(&cmd) {
            Ok((status, _)) => {
                self.device.ce_enable();
                Ok(status)
            },
            Err(e) => Err(e),
        }
    }

    /// Clear the send-done and retransmit-limit interrupt bits, then lower
    /// chip-enable to save power.
    fn clear_interrupts_and_ce(&mut self) -> (r: Result<(), Error>)
        ensures
            final(self).device_spec().config_cache() == old(self).device_spec().config_cache(),
            match r {
                Ok(()) => {
                    &&& appended(old(self).device_spec().log(), final(self).device_spec().log(), seq![
                        clear_tx_frame(),
                    ])
                    &&& !final(self).device_spec().ce_high()
                },
                Err(_) => {
                    &&& final(self).device_spec().log() == old(self).device_spec().log()
                    &&& final(self).device_spec().ce_high() == old(self).device_spec().ce_high()
                },
            },
    {
        let mut clear = Status::from_raw(0);
        clear.set_tx_ds(true);
        clear.set_max_rt(true);
        proof {
            assert(with_bit(with_bit(0u8, 5, true), 4, true) == 0x30u8) by (bit_vector);
        }
        match write_register(&mut self.device, &clear) {
            Ok(_) => {
                self.device.ce_disable();
                Ok(())
            },
            Err(e) => Err(e),
        }
    }

    /// Non-blocking completion probe: read status and FIFO status together
    /// and react.
    ///
    /// - Retransmit-limit exceeded: the hardware leaves the undeliverable
    ///   packet at the head of the FIFO, so issue exactly one flush-transmit
    ///   command, clear the two transmit interrupt bits, lower chip-enable,
    ///   and report failure (`Ok(false)`).
    /// - Transmit FIFO empty: clear the same two interrupt bits, lower
    ///   chip-enable, and report success (`Ok(true)`).
    /// - Otherwise: re-raise chip-enable (idempotent, in case a caller
    ///   queued another packet while it was low) and report
    ///   [`PollError::WouldBlock`]; this call never sleeps.
    pub fn poll_send(&mut self) -> (r: Result<bool, PollError>)
        ensures
            final(self).device_spec().config_cache() == old(self).device_spec().config_cache(),
            match r {
                Ok(b) => ({
                    let oldlog = old(self).device_spec().log();
                    let newlog = final(self).device_spec().log();
                    let n: int = oldlog.len() as int;
                    &&& !final(self).device_spec().ce_high()
                    &&& newlog[n].0 == fifo_read_frame()
                    &&& newlog[n].1.len() == 2
                    &&& if b {
                        &&& appended(oldlog, newlog, seq![fifo_read_frame(), clear_tx_frame()])
                        &&& !bit(newlog[n].1[0], 4)
                        &&& bit(newlog[n].1[1], 4)
                    } else {
                        &&& appended(oldlog, newlog, seq![
                            fifo_read_frame(),
                            flush_tx_frame(),
                            clear_tx_frame(),
                        ])
                        &&& bit(newlog[n].1[0], 4)
                    }
                }),
                Err(PollError::WouldBlock) => ({
                    let oldlog = old(self).device_spec().log();
                    let newlog = final(self).device_spec().log();
                    let n: int = oldlog.len() as int;
                    &&& appended(oldlog, newlog, seq![fifo_read_frame()])
                    &&& final(self).device_spec().ce_high()
                    &&& !bit(newlog[n].1[0], 4)
                    &&& !bit(newlog[n].1[1], 4)
                }),
                Err(PollError::Other(_)) => ({
                    let oldlog = old(self).device_spec().log();
                    let newlog = final(self).device_spec().log();
                    &&& extends(oldlog, newlog)
                    &&& forall|j: int|
                        oldlog.len() <= j < newlog.len() ==> tx_drain_frame(
                            (#[trigger] newlog[j]).0,
                        )
                }),
            },
    {
        let ghost log0 = self.device.log();
        let r: Result<(Status, FifoStatus), Error> = read_register(&mut self.device);
        let (status, fifo) = match r {
            Ok(p) => p,
            Err(e) => {
                return Err(PollError::Other(e));
            },
        };
        let ghost log1 = self.device.log();
        proof {
            assert(log1[log0.len() as int + 0] == log1.last());
        }
        let step = poll_decision(status, fifo);
        if matches!(step, PollStep::FlushAndFail) {
            let cmd = Command::FlushTx;
            proof {
                assert(cmd.frame() =~= flush_tx_frame());
            }
            match self.device.send_command(&cmd) {
                Ok(_) => (),
                Err(e) => {
                    proof {
                        lemma_appended_extends(log0, log1, seq![fifo_read_frame()]);
                        assert forall|j: int|
                            log0.len() <= j < log1.len() implies tx_drain_frame(
                            (#[trigger] log1[j]).0,
                        ) by {
                            assert(log1[log0.len() as int + 0].0 == seq![fifo_read_frame()][0]);
                        }
                    }
                    return Err(PollError::Other(e));
                },
            }
            let ghost log2 = self.device.log();
            proof {
                lemma_appended_trans(log0, log1, log2, seq![fifo_read_frame()], seq![
                    flush_tx_frame(),
                ]);
            }
            match self.clear_interrupts_and_ce() {
                Ok(()) => (),
                Err(e) => {
                    proof {
                        lemma_appended_extends(log0, log2, seq![fifo_read_frame()] + seq![
                            flush_tx_frame(),
                        ]);
                        assert forall|j: int|
                            log0.len() <= j < log2.len() implies tx_drain_frame(
                            (#[trigger] log2[j]).0,
                        ) by {
                            if j == log0.len() {
                                assert(log2[log0.len() as int + 0].0 == (seq![fifo_read_frame()]
                                    + seq![flush_tx_frame()])[0]);
                            } else {
                                assert(log2[log0.len() as int + 1].0 == (seq![fifo_read_frame()]
                                    + seq![flush_tx_frame()])[1]);
                            }
                        }
                    }
                    return Err(PollError::Other(e));
                },
            }
            let ghost log3 = self.device.log();
            proof {
                lemma_appended_trans(
                    log0,
                    log2,
                    log3,
                    seq![fifo_read_frame()] + seq![flush_tx_frame()],
                    seq![clear_tx_frame()],
                );
                assert(seq![fifo_read_frame()] + seq![flush_tx_frame()] + seq![clear_tx_frame()]
                    =~= seq![fifo_read_frame(), flush_tx_frame(), clear_tx_frame()]);
                assert(log2[log0.len() as int] == log1[log0.len() as int]);
                assert(log3[log0.len() as int] == log2[log0.len() as int]);
            }
            Ok(false)
        } else if matches!(step, PollStep::FinishSuccess) {
            match self.clear_interrupts_and_ce() {
                Ok(()) => (),
                Err(e) => {
                    proof {
                        lemma_appended_extends(log0, log1, seq![fifo_read_frame()]);
                        assert forall|j: int|
                            log0.len() <= j < log1.len() implies tx_drain_frame(
                            (#[trigger] log1[j]).0,
                        ) by {
                            assert(log1[log0.len() as int + 0].0 == seq![fifo_read_frame()][0]);
                        }
                    }
                    return Err(PollError::Other(e));
                },
            }
            let ghost log2 = self.device.log();
            proof {
                lemma_appended_trans(log0, log1, log2, seq![fifo_read_frame()], seq![
                    clear_tx_frame(),
                ]);
                assert(seq![fifo_read_frame()] + seq![clear_tx_frame()] =~= seq![
                    fifo_read_frame(),
                    clear_tx_frame(),
                ]);
                assert(log2[log0.len() as int] == log1[log0.len() as int]);
            }
            Ok(true)
        } else {
            self.device.ce_enable();
            Err(PollError::WouldBlock)
        }
    }

    /// Wait until the transmit FIFO is empty, cooperatively: keep reading
    /// status and FIFO status, re-raising chip-enable while packets remain.
    /// Whenever the retransmit-limit flag is seen, flush the transmit FIFO
    /// and clear the transmit interrupt bits without leaving the loop: the
    /// packet that exhausted its retransmit budget, and every packet queued
    /// behind it, is dropped.  Returns success only once the FIFO was
    /// observed empty, then lowers chip-enable; a chip that never drains
    /// within [`DRAIN_POLL_BUDGET`] polls is reported as a bus fault.
    pub fn wait_empty(&mut self) -> (r: Result<(), Error>)
        ensures
            final(self).device_spec().config_cache() == old(self).device_spec().config_cache(),
            extends(old(self).device_spec().log(), final(self).device_spec().log()),
            forall|j: int|
                old(self).device_spec().log().len() <= j < final(self).device_spec().log().len()
                    ==> tx_drain_frame((#[trigger] final(self).device_spec().log()[j]).0),
            match r {
                Ok(()) => ({
                    let oldlog = old(self).device_spec().log();
                    let newlog = final(self).device_spec().log();
                    &&& !final(self).device_spec().ce_high()
                    &&& drained_observed(newlog, oldlog.len() as int, newlog.len() as int)
                    &&& max_rt_handled(newlog, oldlog.len() as int, newlog.len() as int)
                }),
                Err(_) => true,
            },
    {
        let mut empty = false;
        let mut polls_left: u64 = DRAIN_POLL_BUDGET;
        #[verifier::loop_isolation(false)]
        while !empty && polls_left > 0
            invariant
                self.device.config_cache() == old(self).device.config_cache(),
                extends(old(self).device.log(), self.device.log()),
                forall|j: int|
                    old(self).device.log().len() <= j < self.device.log().len()
                        ==> tx_drain_frame((#[trigger] self.device.log()[j]).0),
                max_rt_handled(
                    self.device.log(),
                    old(self).device.log().len() as int,
                    self.device.log().len() as int,
                ),
                empty ==> drained_observed(
                    self.device.log(),
                    old(self).device.log().len() as int,
                    self.device.log().len() as int,
                ),
            decreases polls_left,
        {
            polls_left = polls_left - 1;
            let ghost logpre = self.device.log();
            let r: Result<(Status, FifoStatus), Error> = read_register(&mut self.device);
            let (status, fifo) = match r {
                Ok(p) => p,
                Err(e) => {
                    return Err(e);
                },
            };
            let ghost log1 = self.device.log();
            proof {
                assert(log1[logpre.len() as int + 0] == log1.last());
                assert forall|j: int|
                    old(self).device.log().len() <= j < log1.len() implies tx_drain_frame(
                    (#[trigger] log1[j]).0,
                ) by {
                    if j < logpre.len() {
                        assert(log1[j] == logpre[j]);
                    }
                }
            }
            empty = fifo.tx_empty();
            if !empty {
                self.device.ce_enable();
            }
            if status.max_rt() {
                let cmd = Command::FlushTx;
                proof {
                    assert(cmd.frame() =~= flush_tx_frame());
                }
                match self.device.send_command(&cmd) {
                    Ok(_) => (),
                    Err(e) => {
                        return Err(e);
                    },
                }
                let ghost log2 = self.device.log();
                proof {
                    lemma_appended_trans(logpre, log1, log2, seq![fifo_read_frame()], seq![
                        flush_tx_frame(),
                    ]);
                    assert(log2[logpre.len() as int] == log1[logpre.len() as int]);
                    assert(log2[logpre.len() as int + 1].0 == (seq![fifo_read_frame()] + seq![
                        flush_tx_frame(),
                    ])[1]);
                    assert forall|j: int|
                        old(self).device.log().len() <= j < log2.len() implies tx_drain_frame(
                        (#[trigger] log2[j]).0,
                    ) by {
                        if j < log1.len() {
                            assert(log2[j] == log1[j]);
                        }
                    }
                }
                let mut clear = Status::from_raw(0);
                clear.set_tx_ds(true);
                clear.set_max_rt(true);
                proof {
                    assert(with_bit(with_bit(0u8, 5, true), 4, true) == 0x30u8) by (bit_vector);
                }
                match write_register(&mut self.device, &clear) {
                    Ok(_) => (),
                    Err(e) => {
                        return Err(e);
                    },
                }
                let ghost log3 = self.device.log();
                proof {
                    lemma_appended_trans(
                        logpre,
                        log2,
                        log3,
                        seq![fifo_read_frame()] + seq![flush_tx_frame()],
                        seq![clear_tx_frame()],
                    );
                    assert(log3[logpre.len() as int] == log2[logpre.len() as int]);
                    assert(log3[logpre.len() as int + 1] == log2[logpre.len() as int + 1]);
                    assert(log3[logpre.len() as int + 2].0 == (seq![fifo_read_frame()] + seq![
                        flush_tx_frame(),
                    ] + seq![clear_tx_frame()])[2]);
                    assert forall|j: int|
                        old(self).device.log().len() <= j < log3.len() implies tx_drain_frame(
                        (#[trigger] log3[j]).0,
                    ) by {
                        if j < log2.len() {
                            assert(log3[j] == log2[j]);
                        }
                    }
                    assert(0x07u8 | 0x20 == 0x27u8) by (bit_vector);
                    assert forall|i: int|
                        old(self).device.log().len() <= i < log3.len() && (#[trigger] log3[i]).0
                            == fifo_read_frame() && bit(log3[i].1[0], 4) implies i + 2
                        < log3.len() && log3[i + 1].0 == flush_tx_frame() && log3[i + 2].0
                        == clear_tx_frame() by {
                        if i < logpre.len() {
                            assert(log3[i] == logpre[i]);
                            assert(i + 2 < logpre.len());
                            assert(log3[i + 1] == logpre[i + 1]);
                            assert(log3[i + 2] == logpre[i + 2]);
                        } else if i == logpre.len() {
                        } else {
                            assert(log3[i].0 == flush_tx_frame() || log3[i].0 == clear_tx_frame());
                        }
                    }
                    if empty {
                        assert(log3[logpre.len() as int].1[1] == log1.last().1[1]);
                        assert(bit(log3[logpre.len() as int].1[1], 4));
                        assert(drained_observed(
                            log3,
                            old(self).device.log().len() as int,
                            log3.len() as int,
                        ));
                    }
                }
            } else {
                proof {
                    assert forall|i: int|
                        old(self).device.log().len() <= i < log1.len() && (#[trigger] log1[i]).0
                            == fifo_read_frame() && bit(log1[i].1[0], 4) implies i + 2
                        < log1.len() && log1[i + 1].0 == flush_tx_frame() && log1[i + 2].0
                        == clear_tx_frame() by {
                        if i < logpre.len() {
                            assert(log1[i] == logpre[i]);
                            assert(i + 2 < logpre.len());
                            assert(log1[i + 1] == logpre[i + 1]);
                            assert(log1[i + 2] == logpre[i + 2]);
                        } else {
                            assert(!bit(log1[i].1[0], 4));
                        }
                    }
                    if empty {
                        assert(bit(log1[logpre.len() as int].1[1], 4));
                        assert(drained_observed(
                            log1,
                            old(self).device.log().len() as int,
                            log1.len() as int,
                        ));
                    }
                }
            }
        }
        if !empty {
            return Err(Error::Bus);
        }
        let ghost logf = self.device.log();
        proof {
            assert(drained_observed(
                logf,
                old(self).device.log().len() as int,
                logf.len() as int,
            ));
            assert(max_rt_handled(logf, old(self).device.log().len() as int, logf.len() as int));
        }
        self.device.ce_disable();
        proof {
            assert(self.device.log() == logf);
        }
        Ok(())
    }

    /// Transmit → Standby: first drain the transmit FIFO, then lower
    /// chip-enable.  On a device failure the transmit value comes back
    /// beside the error.
    pub fn standby(self) -> (r: Result<StandbyMode<D>, (Self, Error)>)
        ensures
            match r {
                Ok(s) => {
                    &&& s.wf()
                    &&& s.device_spec().config_cache() == self.device_spec().config_cache()
                    &&& extends(self.device_spec().log(), s.device_spec().log())
                    &&& forall|j: int|
                        self.device_spec().log().len() <= j < s.device_spec().log().len()
                            ==> tx_drain_frame((#[trigger] s.device_spec().log()[j]).0)
                    &&& drained_observed(
                        s.device_spec().log(),
                        self.device_spec().log().len() as int,
                        s.device_spec().log().len() as int,
                    )
                    &&& max_rt_handled(
                        s.device_spec().log(),
                        self.device_spec().log().len() as int,
                        s.device_spec().log().len() as int,
                    )
                },
                Err((t, e)) => {
                    &&& t.device_spec().config_cache() == self.device_spec().config_cache()
                    &&& extends(self.device_spec().log(), t.device_spec().log())
                    &&& forall|j: int|
                        self.device_spec().log().len() <= j < t.device_spec().log().len()
                            ==> tx_drain_frame((#[trigger] t.device_spec().log()[j]).0)
                },
            },
    {
        let mut this = self;
        match this.wait_empty() {
            Ok(()) => {
                let ghost logw = this.device.log();
                let s = StandbyMode::from_rx_tx(this.device);
                proof {
                    assert(s.device_spec().log() == logw);
                }
                Ok(s)
            },
            Err(e) => Err((this, e)),
        }
    }

    /// Read the OBSERVE_TX register: lost-packet and retransmit counters.
    pub fn observe(&mut self) -> (r: Result<ObserveTx, Error>)
        ensures
            final(self).device_spec().ce_high() == old(self).device_spec().ce_high(),
            final(self).device_spec().config_cache() == old(self).device_spec().config_cache(),
            match r {
                Ok(obs) => {
                    &&& appended(old(self).device_spec().log(), final(self).device_spec().log(), seq![
                        read_frame(0x08),
                    ])
                    &&& obs.spec_raw() == final(self).device_spec().log().last().1[1]
                },
                Err(_) => final(self).device_spec().log() == old(self).device_spec().log(),
            },
    {
        let r: Result<(Status, ObserveTx), Error> = read_register(&mut self.device);
        match r {
            Ok((_, obs)) => Ok(obs),
            Err(e) => Err(e),
        }
    }
}

impl<D: Device> Configuration for TxMode<D> {
    type Inner = D;

    closed spec fn device_spec(&self) -> D {
        self.device
    }

    fn device(&mut self) -> (r: &mut D) {
        &mut self.device
    }
}

} // verus!
