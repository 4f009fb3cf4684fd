//! Cross-cutting configuration operations, usable uniformly from any mode.
//!
//! Every mode exposes its owned device through [`Configuration::device`];
//! the operations are written once against that capability.  The underlying
//! registers may legally change in any power state, so no mode restriction
//! is imposed here.

use vstd::prelude::*;
use crate::bits::{bit, with_bit, pipes_byte};
use crate::command::Command;
use crate::device::{
    Device, read_register, write_register, write_register_bytes, write_register_raw, read_frame,
    write_frame, write_frame_bytes, appended, extends, config_write_logged, Log,
    lemma_appended_trans, lemma_appended_extends, lemma_extends_trans,
};
use crate::registers::{
    Register, Config, Status, SetupAw, RfCh, RfSetup, SetupRetr, EnAa, EnRxaddr, Dynpd, Feature,
    RX_ADDR_P0, TX_ADDR, RX_PW_P0,
};
use crate::Error;

verus! {

/// Supported air data rates.
#[derive(Debug, PartialEq, Eq, Copy, Clone)]
pub enum DataRate {
    /// 250 Kbps
    R250Kbps,
    /// 1 Mbps
    R1Mbps,
    /// 2 Mbps
    R2Mbps,
}

impl Default for DataRate {
    /// The chip's default rate.
    fn default() -> (r: DataRate)
        ensures
            r is R1Mbps,
    {
        DataRate::R1Mbps
    }
}

/// Supported CRC modes.
#[derive(Debug, PartialEq, Eq, Copy, Clone)]
pub enum CrcMode {
    /// Disable all CRC generation/checking.
    Disabled,
    /// One byte checksum.
    OneByte,
    /// Two bytes checksum.
    TwoBytes,
}

impl CrcMode {
    /// The CRC-enable bit this mode asks for.
    pub open spec fn en_bit(self) -> bool {
        !(self is Disabled)
    }

    /// The CRC-length bit this mode asks for (two-byte checksum).
    pub open spec fn co_bit(self) -> bool {
        self is TwoBytes
    }

    /// Fold this mode into the configuration register's two CRC bits.
    pub fn set_config(&self, config: &mut Config)
        ensures
            final(config).spec_raw() == with_bit(
                with_bit(old(config).spec_raw(), 3, self.en_bit()),
                2,
                self.co_bit(),
            ),
    {
        let (en_crc, crco) = match *self {
            CrcMode::Disabled => (false, false),
            CrcMode::OneByte => (true, false),
            CrcMode::TwoBytes => (true, true),
        };
        config.set_en_crc(en_crc);
        config.set_crco(crco);
    }
}

/// The RF_SETUP byte written for a rate and power level, mirroring the
/// order in which the fields are folded in.
pub open spec fn rf_setup_byte(rate: DataRate, power: u8) -> u8 {
    with_bit(with_bit(power << 1, 5, rate is R250Kbps), 3, rate is R2Mbps)
}

/// The SETUP_RETR byte for an auto-retransmit delay and count, each
/// truncated to its four-bit field.
pub open spec fn retr_byte(delay: u8, count: u8) -> u8 {
    ((delay & 0x0f) << 4) | (count & 0x0f)
}

/// Which pipes ask for dynamic payload length: exactly those without a
/// static length.
pub open spec fn dyn_table(lengths: Seq<Option<u8>>) -> Seq<bool> {
    Seq::new(6, |i: int| lengths[i] is None)
}

/// The static payload length written for one pipe: the configured length,
/// or zero when the pipe uses dynamic lengths.
pub open spec fn pw_value(o: Option<u8>) -> u8 {
    match o {
        Some(l) => l,
        None => 0,
    }
}

/// The six payload-length register writes, pipe 0 first.
pub open spec fn pw_frames(lengths: Seq<Option<u8>>) -> Seq<Seq<u8>> {
    Seq::new(6, |i: int| write_frame((0x11 + i) as u8, pw_value(lengths[i])))
}

/// The command frames of a payload-length configuration pass that must
/// first enable the chip-wide dynamic-payload feature: feature read,
/// feature write-back with the feature bit set, table write, then the six
/// per-pipe length writes.  `fb` is the feature byte the read returned.
pub open spec fn dyn_frames(lengths: Seq<Option<u8>>, fb: u8) -> Seq<Seq<u8>> {
    seq![
        read_frame(0x1d),
        write_frame(0x1d, with_bit(fb, 2, true)),
        write_frame(0x1c, pipes_byte(dyn_table(lengths))),
    ] + pw_frames(lengths)
}

/// The full frame sequence of one payload-length configuration pass: the
/// table write and the six per-pipe length writes, preceded — when any
/// pipe asks for dynamic lengths — by the feature read and write-back.
/// `fb` is the feature byte the read returned; it is unused when no read
/// happens.
pub open spec fn pipes_lengths_frames(lengths: Seq<Option<u8>>, fb: u8) -> Seq<Seq<u8>> {
    if pipes_byte(dyn_table(lengths)) == 0 {
        seq![write_frame(0x1c, pipes_byte(dyn_table(lengths)))] + pw_frames(lengths)
    } else {
        dyn_frames(lengths, fb)
    }
}

proof fn lemma_rf_ch_zero_base(freq: u8)
    by (bit_vector)
    ensures
        (0u8 & 0x80) | freq == freq,
{
}

proof fn lemma_retr_compose(delay: u8, count: u8)
    by (bit_vector)
    ensures
        (((0u8 & 0x0f) | ((delay & 0x0f) << 4)) & 0xf0) | (count & 0x0f) == ((delay & 0x0f) << 4)
            | (count & 0x0f),
{
}

proof fn lemma_clear_byte()
    by (bit_vector)
    ensures
        with_bit(with_bit(with_bit(0u8, 6, true), 5, true), 4, true) == 0x70u8,
{
}

/// Configuration methods, available from every mode.
pub trait Configuration: Sized {
    /// The underlying device type.
    type Inner: Device;

    /// The owned device, as seen by contracts.
    spec fn device_spec(&self) -> Self::Inner;

    /// Get a mutable reference to the underlying device.
    fn device(&mut self) -> (r: &mut Self::Inner)
        ensures
            *r == old(self).device_spec(),
            final(self).device_spec() == *final(r),
    ;

    /// Discard all received packets that have not yet been read from the
    /// receive FIFO.
    fn flush_rx(&mut self) -> (r: Result<(), Error>)
        ensures
            final(self).device_spec().ce_high() == old(self).device_spec().ce_high(),
            final(self).device_spec().config_cache() == old(self).device_spec().config_cache(),
            match r {
                Ok(()) => appended(
                    old(self).device_spec().log(),
                    final(self).device_spec().log(),
                    seq![seq![0b1110_0010u8]],
                ),
                Err(_) => final(self).device_spec().log() == old(self).device_spec().log(),
            },
    {
        let d = self.device();
        let cmd = Command::FlushRx;
        proof {
            assert(cmd.frame() =~= seq![0b1110_0010u8]);
        }
        match d.send_command(&cmd) {
            Ok(_) => Ok(()),
            Err(e) => Err(e),
        }
    }

    /// Discard any unsent packets in the transmit FIFO.
    fn flush_tx(&mut self) -> (r: Result<(), Error>)
        ensures
            final(self).device_spec().ce_high() == old(self).device_spec().ce_high(),
            final(self).device_spec().config_cache() == old(self).device_spec().config_cache(),
            match r {
                Ok(()) => appended(
                    old(self).device_spec().log(),
                    final(self).device_spec().log(),
                    seq![seq![0b1110_0001u8]],
                ),
                Err(_) => final(self).device_spec().log() == old(self).device_spec().log(),
            },
    {
        let d = self.device();
        let cmd = Command::FlushTx;
        proof {
            assert(cmd.frame() =~= seq![0b1110_0001u8]);
        }
        match d.send_command(&cmd) {
            Ok(_) => Ok(()),
            Err(e) => Err(e),
        }
    }

    /// Read the frequency offset (channel).
    fn get_frequency(&mut self) -> (r: Result<u8, Error>)
        ensures
            final(self).device_spec().ce_high() == old(self).device_spec().ce_high(),
            final(self).device_spec().config_cache() == old(self).device_spec().config_cache(),
            match r {
                Ok(freq) => {
                    &&& appended(
                        old(self).device_spec().log(),
                        final(self).device_spec().log(),
                        seq![read_frame(0x05)],
                    )
                    &&& freq == final(self).device_spec().log().last().1[1] & 0x7f
                },
                Err(_) => final(self).device_spec().log() == old(self).device_spec().log(),
            },
    {
        let d = self.device();
        let r: Result<(Status, RfCh), Error> = read_register(d);
        match r {
            Ok((_, reg)) => Ok(reg.rf_ch()),
            Err(e) => Err(e),
        }
    }

    /// Set the frequency offset (channel); offsets of 126 and above are a
    /// contract violation.
    fn set_frequency(&mut self, freq: u8) -> (r: Result<(), Error>)
        requires
            freq < 126,
        ensures
            final(self).device_spec().ce_high() == old(self).device_spec().ce_high(),
            final(self).device_spec().config_cache() == old(self).device_spec().config_cache(),
            match r {
                Ok(()) => appended(
                    old(self).device_spec().log(),
                    final(self).device_spec().log(),
                    seq![write_frame(0x05, freq)],
                ),
                Err(_) => final(self).device_spec().log() == old(self).device_spec().log(),
            },
    {
        let mut reg = RfCh::from_raw(0);
        reg.set_rf_ch(freq);
        proof {
            lemma_rf_ch_zero_base(freq);
        }
        let d = self.device();
        match write_register(d, &reg) {
            Ok(_) => Ok(()),
            Err(e) => Err(e),
        }
    }

    /// Set data rate and output power (`0`: -18 dBm, `3`: 0 dBm); power
    /// levels of 4 and above are a contract violation.
    fn set_rf(&mut self, rate: &DataRate, power: u8) -> (r: Result<(), Error>)
        requires
            power < 4,
        ensures
            final(self).device_spec().ce_high() == old(self).device_spec().ce_high(),
            final(self).device_spec().config_cache() == old(self).device_spec().config_cache(),
            match r {
                Ok(()) => appended(
                    old(self).device_spec().log(),
                    final(self).device_spec().log(),
                    seq![write_frame(0x06, rf_setup_byte(*rate, power))],
                ),
                Err(_) => final(self).device_spec().log() == old(self).device_spec().log(),
            },
    {
        let mut reg = RfSetup::from_raw(0);
        reg.set_rf_pwr(power);
        proof {
            assert((0u8 & 0xf9) | (power << 1) == power << 1) by (bit_vector);
        }
        let (dr_low, dr_high) = match *rate {
            DataRate::R250Kbps => (true, false),
            DataRate::R1Mbps => (false, false),
            DataRate::R2Mbps => (false, true),
        };
        reg.set_rf_dr_low(dr_low);
        reg.set_rf_dr_high(dr_high);
        let d = self.device();
        match write_register(d, &reg) {
            Ok(_) => Ok(()),
            Err(e) => Err(e),
        }
    }

    /// Set the CRC mode through the cached configuration register.
    fn set_crc(&mut self, mode: CrcMode) -> (r: Result<(), Error>)
        ensures
            final(self).device_spec().ce_high() == old(self).device_spec().ce_high(),
            with_bit(
                with_bit(old(self).device_spec().config_cache(), 3, mode.en_bit()),
                2,
                mode.co_bit(),
            ) == old(self).device_spec().config_cache() ==> r is Ok,
            match r {
                Ok(()) => {
                    &&& final(self).device_spec().config_cache() == with_bit(
                        with_bit(old(self).device_spec().config_cache(), 3, mode.en_bit()),
                        2,
                        mode.co_bit(),
                    )
                    &&& config_write_logged(
                        old(self).device_spec().log(),
                        final(self).device_spec().log(),
                        old(self).device_spec().config_cache(),
                        with_bit(
                            with_bit(old(self).device_spec().config_cache(), 3, mode.en_bit()),
                            2,
                            mode.co_bit(),
                        ),
                    )
                },
                Err(_) => {
                    &&& final(self).device_spec().config_cache() == old(
                        self,
                    ).device_spec().config_cache()
                    &&& final(self).device_spec().log() == old(self).device_spec().log()
                },
            },
    {
        let d = self.device();
        let mut cfg = d.config();
        mode.set_config(&mut cfg);
        d.update_config(cfg)
    }

    /// Set the three interrupt mask bits.  A masked interrupt does not fire
    /// on the IRQ pin.
    fn set_interrupt_mask(
        &mut self,
        data_ready_rx: bool,
        data_sent_tx: bool,
        max_retransmits_tx: bool,
    ) -> (r: Result<(), Error>)
        ensures
            final(self).device_spec().ce_high() == old(self).device_spec().ce_high(),
            with_bit(
                with_bit(
                    with_bit(old(self).device_spec().config_cache(), 6, data_ready_rx),
                    5,
                    data_sent_tx,
                ),
                4,
                max_retransmits_tx,
            ) == old(self).device_spec().config_cache() ==> r is Ok,
            match r {
                Ok(()) => {
                    &&& final(self).device_spec().config_cache() == with_bit(
                        with_bit(
                            with_bit(old(self).device_spec().config_cache(), 6, data_ready_rx),
                            5,
                            data_sent_tx,
                        ),
                        4,
                        max_retransmits_tx,
                    )
                    &&& config_write_logged(
                        old(self).device_spec().log(),
                        final(self).device_spec().log(),
                        old(self).device_spec().config_cache(),
                        with_bit(
                            with_bit(
                                with_bit(old(self).device_spec().config_cache(), 6, data_ready_rx),
                                5,
                                data_sent_tx,
                            ),
                            4,
                            max_retransmits_tx,
                        ),
                    )
                },
                Err(_) => {
                    &&& final(self).device_spec().config_cache() == old(
                        self,
                    ).device_spec().config_cache()
                    &&& final(self).device_spec().log() == old(self).device_spec().log()
                },
            },
    {
        let d = self.device();
        let mut cfg = d.config();
        cfg.set_mask_rx_dr(data_ready_rx);
        cfg.set_mask_tx_ds(data_sent_tx);
        cfg.set_mask_max_rt(max_retransmits_tx);
        d.update_config(cfg)
    }

    /// Configure which RX pipes are enabled.
    fn set_pipes_rx_enable(&mut self, bools: &[bool; 6]) -> (r: Result<(), Error>)
        ensures
            final(self).device_spec().ce_high() == old(self).device_spec().ce_high(),
            final(self).device_spec().config_cache() == old(self).device_spec().config_cache(),
            match r {
                Ok(()) => appended(
                    old(self).device_spec().log(),
                    final(self).device_spec().log(),
                    seq![write_frame(0x02, pipes_byte(bools@))],
                ),
                Err(_) => final(self).device_spec().log() == old(self).device_spec().log(),
            },
    {
        let reg = EnRxaddr::from_bools(bools);
        let d = self.device();
        match write_register(d, &reg) {
            Ok(_) => Ok(()),
            Err(e) => Err(e),
        }
    }

    /// Set the address of RX pipe `pipe_no`; a pipe number of 6 or above,
    /// or an address outside 2–5 bytes, is a contract violation.
    fn set_rx_addr(&mut self, pipe_no: usize, addr: &[u8]) -> (r: Result<(), Error>)
        requires
            pipe_no < 6,
            2 <= addr@.len() <= 5,
        ensures
            final(self).device_spec().ce_high() == old(self).device_spec().ce_high(),
            final(self).device_spec().config_cache() == old(self).device_spec().config_cache(),
            match r {
                Ok(()) => appended(
                    old(self).device_spec().log(),
                    final(self).device_spec().log(),
                    seq![write_frame_bytes((0x0a + pipe_no) as u8, addr@)],
                ),
                Err(_) => final(self).device_spec().log() == old(self).device_spec().log(),
            },
    {
        let reg_addr: u8 = RX_ADDR_P0 + (pipe_no as u8);
        let d = self.device();
        match write_register_bytes(d, reg_addr, addr) {
            Ok(_) => Ok(()),
            Err(e) => Err(e),
        }
    }

    /// Set the address of the TX pipe; an address outside 2–5 bytes is a
    /// contract violation.
    fn set_tx_addr(&mut self, addr: &[u8]) -> (r: Result<(), Error>)
        requires
            2 <= addr@.len() <= 5,
        ensures
            final(self).device_spec().ce_high() == old(self).device_spec().ce_high(),
            final(self).device_spec().config_cache() == old(self).device_spec().config_cache(),
            match r {
                Ok(()) => appended(
                    old(self).device_spec().log(),
                    final(self).device_spec().log(),
                    seq![write_frame_bytes(0x10, addr@)],
                ),
                Err(_) => final(self).device_spec().log() == old(self).device_spec().log(),
            },
    {
        let d = self.device();
        match write_register_bytes(d, TX_ADDR, addr) {
            Ok(_) => Ok(()),
            Err(e) => Err(e),
        }
    }

    /// Configure auto-retransmit delay and count (each truncated to four
    /// bits); call as `set_auto_retransmit(0, 0)` to disable.
    fn set_auto_retransmit(&mut self, delay: u8, count: u8) -> (r: Result<(), Error>)
        ensures
            final(self).device_spec().ce_high() == old(self).device_spec().ce_high(),
            final(self).device_spec().config_cache() == old(self).device_spec().config_cache(),
            match r {
                Ok(()) => appended(
                    old(self).device_spec().log(),
                    final(self).device_spec().log(),
                    seq![write_frame(0x04, retr_byte(delay, count))],
                ),
                Err(_) => final(self).device_spec().log() == old(self).device_spec().log(),
            },
    {
        let mut reg = SetupRetr::from_raw(0);
        reg.set_ard(delay);
        reg.set_arc(count);
        proof {
            lemma_retr_compose(delay, count);
        }
        let d = self.device();
        match write_register(d, &reg) {
            Ok(_) => Ok(()),
            Err(e) => Err(e),
        }
    }

    /// Read the per-pipe auto-acknowledgment table.
    fn get_auto_ack(&mut self) -> (r: Result<[bool; 6], Error>)
        ensures
            final(self).device_spec().ce_high() == old(self).device_spec().ce_high(),
            final(self).device_spec().config_cache() == old(self).device_spec().config_cache(),
            match r {
                Ok(t) => {
                    &&& appended(
                        old(self).device_spec().log(),
                        final(self).device_spec().log(),
                        seq![read_frame(0x01)],
                    )
                    &&& forall|i: int|
                        0 <= i < 6 ==> #[trigger] t@[i] == bit(
                            final(self).device_spec().log().last().1[1],
                            i as u8,
                        )
                },
                Err(_) => final(self).device_spec().log() == old(self).device_spec().log(),
            },
    {
        let d = self.device();
        let r: Result<(Status, EnAa), Error> = read_register(d);
        match r {
            Ok((_, reg)) => Ok(reg.to_bools()),
            Err(e) => Err(e),
        }
    }

    /// Configure the per-pipe auto-acknowledgment table.
    fn set_auto_ack(&mut self, bools: &[bool; 6]) -> (r: Result<(), Error>)
        ensures
            final(self).device_spec().ce_high() == old(self).device_spec().ce_high(),
            final(self).device_spec().config_cache() == old(self).device_spec().config_cache(),
            match r {
                Ok(()) => appended(
                    old(self).device_spec().log(),
                    final(self).device_spec().log(),
                    seq![write_frame(0x01, pipes_byte(bools@))],
                ),
                Err(_) => final(self).device_spec().log() == old(self).device_spec().log(),
            },
    {
        let reg = EnAa::from_bools(bools);
        let d = self.device();
        match write_register(d, &reg) {
            Ok(_) => Ok(()),
            Err(e) => Err(e),
        }
    }

    /// Read the configured address width in bytes.
    fn get_address_width(&mut self) -> (r: Result<u8, Error>)
        ensures
            final(self).device_spec().ce_high() == old(self).device_spec().ce_high(),
            final(self).device_spec().config_cache() == old(self).device_spec().config_cache(),
            match r {
                Ok(w) => {
                    &&& appended(
                        old(self).device_spec().log(),
                        final(self).device_spec().log(),
                        seq![read_frame(0x03)],
                    )
                    &&& w == 2 + (final(self).device_spec().log().last().1[1] & 7)
                },
                Err(_) => final(self).device_spec().log() == old(self).device_spec().log(),
            },
    {
        let d = self.device();
        let r: Result<(Status, SetupAw), Error> = read_register(d);
        match r {
            Ok((_, reg)) => Ok(2 + reg.aw()),
            Err(e) => Err(e),
        }
    }

    /// Set the address width; widths outside 2–5 bytes are a contract
    /// violation.
    fn set_address_width(&mut self, width: u8) -> (r: Result<(), Error>)
        requires
            2 <= width <= 5,
        ensures
            final(self).device_spec().ce_high() == old(self).device_spec().ce_high(),
            final(self).device_spec().config_cache() == old(self).device_spec().config_cache(),
            match r {
                Ok(()) => appended(
                    old(self).device_spec().log(),
                    final(self).device_spec().log(),
                    seq![write_frame(0x03, (width - 2) as u8)],
                ),
                Err(_) => final(self).device_spec().log() == old(self).device_spec().log(),
            },
    {
        let reg = SetupAw::from_raw(width - 2);
        let d = self.device();
        match write_register(d, &reg) {
            Ok(_) => Ok(()),
            Err(e) => Err(e),
        }
    }

    /// Read the pending-interrupt flags as `(receive-ready, send-done,
    /// retransmit-limit)` from the status byte of a no-op exchange.
    fn get_interrupts(&mut self) -> (r: Result<(bool, bool, bool), Error>)
        ensures
            final(self).device_spec().ce_high() == old(self).device_spec().ce_high(),
            final(self).device_spec().config_cache() == old(self).device_spec().config_cache(),
            match r {
                Ok((rx_dr, tx_ds, max_rt)) => {
                    &&& appended(
                        old(self).device_spec().log(),
                        final(self).device_spec().log(),
                        seq![seq![0b1111_1111u8]],
                    )
                    &&& rx_dr == bit(final(self).device_spec().log().last().1[0], 6)
                    &&& tx_ds == bit(final(self).device_spec().log().last().1[0], 5)
                    &&& max_rt == bit(final(self).device_spec().log().last().1[0], 4)
                },
                Err(_) => final(self).device_spec().log() == old(self).device_spec().log(),
            },
    {
        let d = self.device();
        let cmd = Command::Nop;
        proof {
            assert(cmd.frame() =~= seq![0b1111_1111u8]);
        }
        match d.send_command(&cmd) {
            Ok((status, _)) => Ok((status.rx_dr(), status.tx_ds(), status.max_rt())),
            Err(e) => Err(e),
        }
    }

    /// Clear all three interrupt flags by writing them back set.
    fn clear_interrupts(&mut self) -> (r: Result<(), Error>)
        ensures
            final(self).device_spec().ce_high() == old(self).device_spec().ce_high(),
            final(self).device_spec().config_cache() == old(self).device_spec().config_cache(),
            match r {
                Ok(()) => appended(
                    old(self).device_spec().log(),
                    final(self).device_spec().log(),
                    seq![write_frame(0x07, 0x70)],
                ),
                Err(_) => final(self).device_spec().log() == old(self).device_spec().log(),
            },
    {
        let mut clear = Status::from_raw(0);
        clear.set_rx_dr(true);
        clear.set_tx_ds(true);
        clear.set_max_rt(true);
        proof {
            lemma_clear_byte();
        }
        let d = self.device();
        match write_register(d, &clear) {
            Ok(_) => Ok(()),
            Err(e) => Err(e),
        }
    }

    /// Configure the payload length of every pipe: `Some(len)` is a static
    /// length (0–32), `None` selects dynamic payload length, which also
    /// turns on the chip-wide dynamic-payload feature bit.
    #[verifier::rlimit(80)]
    fn set_pipes_rx_lengths(&mut self, lengths: &[Option<u8>; 6]) -> (r: Result<(), Error>)
        requires
            forall|i: int| 0 <= i < 6 ==> (#[trigger] lengths@[i] matches Some(l) ==> l <= 32),
        ensures
            final(self).device_spec().ce_high() == old(self).device_spec().ce_high(),
            final(self).device_spec().config_cache() == old(self).device_spec().config_cache(),
            match r {
                Ok(()) => ({
                    let oldlog = old(self).device_spec().log();
                    let newlog = final(self).device_spec().log();
                    appended(oldlog, newlog, pipes_lengths_frames(
                        lengths@,
                        newlog[oldlog.len() as int].1[1],
                    ))
                }),
                Err(_) => ({
                    let oldlog = old(self).device_spec().log();
                    let newlog = final(self).device_spec().log();
                    let n = oldlog.len() as int;
                    let frames = pipes_lengths_frames(
                        lengths@,
                        if newlog.len() > n {
                            newlog[n].1[1]
                        } else {
                            0u8
                        },
                    );
                    &&& extends(oldlog, newlog)
                    &&& newlog.len() <= n + frames.len()
                    &&& forall|k: int|
                        n <= k < newlog.len() ==> (#[trigger] newlog[k]).0 == frames[k - n]
                }),
            },
    {
        let bools: [bool; 6] = [
            lengths[0].is_none(),
            lengths[1].is_none(),
            lengths[2].is_none(),
            lengths[3].is_none(),
            lengths[4].is_none(),
            lengths[5].is_none(),
        ];
        let dynpd = Dynpd::from_bools(&bools);
        proof {
            assert(bools@ =~= dyn_table(lengths@));
        }
        let d = self.device();
        let ghost log0 = d.log();
        let ghost n = log0.len() as int;
        let ghost mut head = Seq::<Seq<u8>>::empty();
        let ghost mut fb: u8 = 0;
        if dynpd.raw() != 0 {
            let r: Result<(Status, Feature), Error> = read_register(d);
            let mut feature = match r {
                Ok((_, f)) => f,
                Err(e) => {
                    return Err(e);
                },
            };
            let ghost log1 = d.log();
            proof {
                fb = log1.last().1[1];
                assert(log1[n + 0] == log1.last());
            }
            feature.set_en_dpl(true);
            match write_register(d, &feature) {
                Ok(_) => (),
                Err(e) => {
                    proof {
                        lemma_appended_extends(log0, d.log(), seq![read_frame(0x1d)]);
                        assert forall|k: int|
                            n <= k < d.log().len() implies (#[trigger] d.log()[k]).0
                            == pipes_lengths_frames(lengths@, d.log()[n].1[1])[k - n] by {
                            assert(d.log()[k] == log1.last());
                        }
                    }
                    return Err(e);
                },
            }
            proof {
                lemma_appended_trans(
                    log0,
                    log1,
                    d.log(),
                    seq![read_frame(0x1d)],
                    seq![write_frame(0x1d, with_bit(fb, 2, true))],
                );
                head = seq![read_frame(0x1d)] + seq![write_frame(0x1d, with_bit(fb, 2, true))];
            }
        }
        let ghost loga = d.log();
        proof {
            assert(appended(log0, loga, head));
        }
        match write_register(d, &dynpd) {
            Ok(_) => (),
            Err(e) => {
                proof {
                    lemma_appended_extends(log0, loga, head);
                    if pipes_byte(dyn_table(lengths@)) != 0 {
                        assert(loga[n + 0] == loga[n]);
                        assert(loga[n].1[1] == fb);
                        assert forall|k: int| n <= k < loga.len() implies (#[trigger] loga[k]).0
                            == pipes_lengths_frames(lengths@, loga[n].1[1])[k - n] by {
                            if k == n {
                                assert(loga[n + 0].0 == head[0]);
                            } else {
                                assert(loga[n + 1].0 == head[1]);
                            }
                        }
                    }
                }
                return Err(e);
            },
        }
        proof {
            lemma_appended_trans(log0, loga, d.log(), head, seq![
                write_frame(0x1c, pipes_byte(dyn_table(lengths@))),
            ]);
            head = head + seq![write_frame(0x1c, pipes_byte(dyn_table(lengths@)))];
        }
        let ghost logb = d.log();
        proof {
            if pipes_byte(dyn_table(lengths@)) != 0 {
                assert(logb[n + 0] == logb[n]);
                assert(logb[n].1[1] == fb);
                assert(head =~= pipes_lengths_frames(lengths@, fb).subrange(0, head.len() as int));
            } else {
                assert(head =~= pipes_lengths_frames(lengths@, fb).subrange(0, head.len() as int));
            }
        }
        let mut pipe: usize = 0;
        #[verifier::loop_isolation(false)]
        while pipe < 6
            invariant
                pipe <= 6,
                appended(log0, logb, head),
                appended(logb, d.log(), pw_frames(lengths@).subrange(0, pipe as int)),
                d.ce_high() == old(self).device_spec().ce_high(),
                d.config_cache() == old(self).device_spec().config_cache(),
            decreases 6 - pipe,
        {
            let value: u8 = match lengths[pipe] {
                Some(l) => l,
                None => 0,
            };
            let reg_addr: u8 = RX_PW_P0 + (pipe as u8);
            let ghost logc = d.log();
            match write_register_raw(d, reg_addr, value) {
                Ok(_) => (),
                Err(e) => {
                    proof {
                        lemma_appended_extends(log0, logb, head);
                        lemma_appended_extends(
                            logb,
                            logc,
                            pw_frames(lengths@).subrange(0, pipe as int),
                        );
                        lemma_extends_trans(log0, logb, logc);
                        if pipes_byte(dyn_table(lengths@)) != 0 {
                            assert(logc[n] == logb[n]);
                        }
                        assert forall|k: int| n <= k < logc.len() implies (#[trigger] logc[k]).0
                            == pipes_lengths_frames(lengths@, fb)[k - n] by {
                            if k - n < head.len() {
                                assert(logc[k] == logb[k]);
                                assert(logb[n + (k - n)].0 == head[k - n]);
                                assert(head[k - n] == pipes_lengths_frames(lengths@, fb).subrange(
                                    0,
                                    head.len() as int,
                                )[k - n]);
                            } else {
                                let j = k - n - head.len();
                                assert(logc[logb.len() + j].0 == pw_frames(lengths@).subrange(
                                    0,
                                    pipe as int,
                                )[j]);
                                assert(pipes_lengths_frames(lengths@, fb)[head.len() + j]
                                    == pw_frames(lengths@)[j]);
                            }
                        }
                        if pipes_byte(dyn_table(lengths@)) != 0 {
                            assert(logc[n].1[1] == fb);
                        }
                    }
                    return Err(e);
                },
            }
            proof {
                lemma_appended_trans(
                    logb,
                    logc,
                    d.log(),
                    pw_frames(lengths@).subrange(0, pipe as int),
                    seq![write_frame(reg_addr, value)],
                );
                assert(write_frame(reg_addr, value) == pw_frames(lengths@)[pipe as int]);
                assert(pw_frames(lengths@).subrange(0, pipe as int) + seq![
                    pw_frames(lengths@)[pipe as int],
                ] =~= pw_frames(lengths@).subrange(0, pipe as int + 1));
            }
            pipe = pipe + 1;
        }
        proof {
            assert(pw_frames(lengths@).subrange(0, 6) =~= pw_frames(lengths@));
            lemma_appended_trans(log0, logb, d.log(), head, pw_frames(lengths@));
            assert(head + pw_frames(lengths@) =~= pipes_lengths_frames(lengths@, fb));
            if pipes_byte(dyn_table(lengths@)) != 0 {
                assert(d.log()[n] == logb[n]);
                assert(d.log()[n].1[1] == fb);
            }
        }
        Ok(())
    }
}

} // verus!
