//! Driver logic for the nRF24L01+ 2.4 GHz radio transceiver.
//!
//! The crate models the chip's register file as bit-packed bytes, frames every
//! bus transaction as a command with a fixed wire encoding, and drives the
//! Standby / Receive / Transmit mode state machine by move-only ownership
//! transfer of one underlying device per mode value.  The host platform
//! supplies the serial bus and the chip-enable line through the [`SpiBus`]
//! and [`CePin`] capabilities.

use vstd::prelude::*;

mod bits;
mod registers;
mod command;
mod device;
mod config;
mod standby;
mod rx;
mod tx;

pub use bits::{bit, with_bit, pack6, pipes_byte, get_bit, put_bit};
pub use bits::{lemma_bit_update, lemma_pack6_bits, lemma_pipes_roundtrip};
pub use registers::{
    Register, lemma_address_width_roundtrip, Config, Status, FifoStatus, SetupAw, RfCh, RfSetup, SetupRetr, EnAa, EnRxaddr,
    Dynpd, Feature, ObserveTx,
};
pub use command::{Command, lemma_read_frame_shape};
pub use config::{Configuration, DataRate, CrcMode, rf_setup_byte, retr_byte, dyn_table, pw_value, pw_frames, dyn_frames};
pub use standby::StandbyMode;
pub use rx::RxMode;
pub use tx::{
    TxMode, PollError, PollStep, poll_decision, fifo_read_frame, flush_tx_frame, clear_tx_frame,
    tx_drain_frame, drained_observed, max_rt_handled, DRAIN_POLL_BUDGET,
};
pub use device::{
    Device, SpiBus, CePin, read_register, write_register, write_register_raw, write_register_bytes,
    read_frame, write_frame, write_frame_bytes, appended, extends, config_write_logged,
    last_config_write, lemma_config_cache_synced, Log,
    lemma_appended_trans, lemma_appended_extends, lemma_extends_trans,
};

verus! {

/// Number of RX pipes with configurable addresses.
pub const PIPES_COUNT: usize = 6;
/// Minimum address length in bytes.
pub const MIN_ADDR_BYTES: usize = 2;
/// Maximum address length in bytes.
pub const MAX_ADDR_BYTES: usize = 5;

/// Driver errors.
#[derive(Debug, Clone, Copy, PartialEq, Eq)]
pub enum Error {
    /// The bus exchange itself failed; never retried at this layer.
    Bus,
    /// The address-width readback at construction time was out of range:
    /// the chip is absent or miswired.
    NotConnected,
}

/// The construction-time presence decision: an address-width readback
/// inside the field's range means a chip answered; anything else means an
/// absent chip or a wiring fault, reported as exactly [`Error::NotConnected`].
fn presence_check(connected: bool) -> (r: Result<(), Error>)
    ensures
        r is Ok <==> connected,
        r matches Err(e) ==> e is NotConnected,
{
    if connected {
        Ok(())
    } else {
        Err(Error::NotConnected)
    }
}

/// Driver for the nRF24L01+.
///
/// Never deal with this directly: it is owned by exactly one of
/// [`StandbyMode`], [`RxMode`] or [`TxMode`] at any time.  It composes the
/// two host-supplied capabilities with the cached copy of the configuration
/// register — the only register mirrored, to support the write-if-changed
/// optimization — and carries the exchange log as its ghost model.
pub struct NRF24L01<CE: CePin, SPI: SpiBus> {
    ce: CE,
    spi: SPI,
    ce_level: bool,
    config: Config,
    history: Ghost<Log>,
}

impl<CE: CePin, SPI: SpiBus> NRF24L01<CE, SPI> {
    /// Construct a new driver instance: lower chip-enable, probe the chip
    /// for presence by validating the address-width readback, enable the
    /// dynamic-payload features, and power up into Standby.
    pub fn new(ce: CE, spi: SPI) -> (r: Result<StandbyMode<Self>, Error>)
        ensures
            match r {
                Ok(s) => {
                    &&& s.wf()
                    &&& s.device_spec().config_cache() == 0x0au8
                    &&& appended(Seq::empty(), s.device_spec().log(), seq![
                        read_frame(0x03),
                        write_frame(0x1d, 0x05),
                        write_frame(0x00, 0x0a),
                    ])
                    &&& (s.device_spec().log()[0].1[1] & 7) <= 3
                },
                Err(e) => e is NotConnected || e is Bus,
            },
    {
        let mut ce = ce;
        ce.set_low();
        let mut config = Config::reset();
        config.set_mask_rx_dr(false);
        config.set_mask_tx_ds(false);
        config.set_mask_max_rt(false);
        proof {
            assert(with_bit(with_bit(with_bit(0b0000_1000u8, 6, false), 5, false), 4, false)
                == 0x08u8) by (bit_vector);
        }
        let mut device = NRF24L01 { ce, spi, ce_level: false, config, history: Ghost(Seq::empty()) };
        let connected = match device.is_connected() {
            Ok(b) => b,
            Err(e) => {
                return Err(e);
            },
        };
        match presence_check(connected) {
            Ok(()) => (),
            Err(e) => {
                return Err(e);
            },
        }
        let ghost log1 = device.log();
        let mut features = Feature::from_raw(0);
        features.set_en_dyn_ack(true);
        features.set_en_dpl(true);
        proof {
            assert(with_bit(with_bit(0u8, 0, true), 2, true) == 0x05u8) by (bit_vector);
        }
        match write_register(&mut device, &features) {
            Ok(_) => (),
            Err(e) => {
                return Err(e);
            },
        }
        let ghost log2 = device.log();
        proof {
            lemma_appended_trans(Seq::empty(), log1, log2, seq![read_frame(0x03)], seq![
                write_frame(0x1d, 0x05),
            ]);
        }
        match StandbyMode::power_up(device) {
            Ok(s) => {
                proof {
                    assert(with_bit(0x08u8, 1, true) == 0x0au8) by (bit_vector);
                    lemma_appended_trans(
                        Seq::empty(),
                        log2,
                        s.device_spec().log(),
                        seq![read_frame(0x03)] + seq![write_frame(0x1d, 0x05)],
                        seq![write_frame(0x00, 0x0a)],
                    );
                    assert(seq![read_frame(0x03)] + seq![write_frame(0x1d, 0x05)] + seq![
                        write_frame(0x00, 0x0a),
                    ] =~= seq![read_frame(0x03), write_frame(0x1d, 0x05), write_frame(0x00, 0x0a)]);
                    assert(s.device_spec().log()[0] == log2[0]);
                    assert(log2[0] == log1[0]);
                    assert(log1[0] == log1.last());
                }
                Ok(s)
            },
            Err((_, e)) => Err(e),
        }
    }

    /// Reads and validates the content of the address-width register: a
    /// value outside the two-bit field means an absent chip or a wiring
    /// fault (a floating bus).
    pub fn is_connected(&mut self) -> (r: Result<bool, Error>)
        ensures
            final(self).ce_high() == old(self).ce_high(),
            final(self).config_cache() == old(self).config_cache(),
            match r {
                Ok(b) => {
                    &&& appended(old(self).log(), final(self).log(), seq![read_frame(0x03)])
                    &&& b == ((final(self).log().last().1[1] & 7) <= 3)
                },
                Err(e) => {
                    &&& final(self).log() == old(self).log()
                    &&& e is Bus
                },
            },
    {
        let r: Result<(Status, SetupAw), Error> = read_register(self);
        match r {
            Ok((_, setup_aw)) => Ok(setup_aw.aw() <= 3),
            Err(e) => Err(e),
        }
    }
}

impl<CE: CePin, SPI: SpiBus> Device for NRF24L01<CE, SPI> {
    closed spec fn ce_high(&self) -> bool {
        self.ce_level
    }

    closed spec fn config_cache(&self) -> u8 {
        self.config.spec_raw()
    }

    closed spec fn log(&self) -> Log {
        self.history@
    }

    fn ce_enable(&mut self) {
        self.ce.set_high();
        self.ce_level = true;
    }

    fn ce_disable(&mut self) {
        self.ce.set_low();
        self.ce_level = false;
    }

    fn config(&self) -> (r: Config) {
        self.config
    }

    fn send_command(&mut self, cmd: &Command) -> (r: Result<(Status, Vec<u8>), Error>) {
        let mut buf = cmd.encode();
        let ghost tx = buf@;
        match self.spi.transfer_in_place(&mut buf) {
            Ok(()) => (),
            Err(_) => {
                return Err(Error::Bus);
            },
        }
        self.history = Ghost(self.history@.push((tx, buf@)));
        proof {
            assert(self.log().last() == (tx, buf@));
            assert(appended(old(self).log(), self.log(), seq![cmd.frame()]));
            assert(cmd.frame().len() >= 1);
        }
        let status = Status::from_raw(buf[0]);
        let payload = cmd.decode_response(&buf);
        Ok((status, payload))
    }

    fn update_config(&mut self, new: Config) -> (r: Result<(), Error>) {
        if new.raw() != self.config.raw() {
            let mut data: Vec<u8> = Vec::new();
            data.push(new.raw());
            let cmd = Command::WriteRegister { addr: 0x00, data };
            proof {
                assert(cmd.frame() =~= write_frame(0x00, new.spec_raw()));
            }
            match self.send_command(&cmd) {
                Ok(_) => {
                    self.config = new;
                    Ok(())
                },
                Err(e) => Err(e),
            }
        } else {
            self.config = new;
            Ok(())
        }
    }
}

} // verus!
