//! Typed, bit-packed configuration and status registers.
//!
//! Each register is one raw byte with a five-bit wire address and named
//! field accessors; the address-table registers (2–5 raw bytes) are written
//! directly as byte sequences by the configuration operations.

use vstd::prelude::*;
use crate::bits::{bit, with_bit, get_bit, put_bit, pipes_byte, pack_pipes, unpack_pipes};

verus! {

/// A one-byte register with a fixed wire address.
pub trait Register: Sized {
    /// The register's five-bit wire address.
    spec fn spec_addr() -> u8;

    /// The raw register byte.
    spec fn spec_raw(&self) -> u8;

    /// The register's five-bit wire address.
    fn addr() -> (r: u8)
        ensures
            r == Self::spec_addr(),
            r < 32,
    ;

    /// Build the register from its raw byte.
    fn from_raw(raw: u8) -> (r: Self)
        ensures
            r.spec_raw() == raw,
    ;

    /// The raw register byte.
    fn raw(&self) -> (r: u8)
        ensures
            r == self.spec_raw(),
    ;
}

/// CONFIG register: CRC, interrupt masks, power and primary-receiver bits.
#[derive(Debug, Clone, Copy)]
pub struct Config {
    bits: u8,
}

impl Register for Config {
    open spec fn spec_addr() -> u8 {
        0x00
    }

    closed spec fn spec_raw(&self) -> u8 {
        self.bits
    }

    fn addr() -> (r: u8) {
        0x00
    }

    fn from_raw(raw: u8) -> (r: Self) {
        Config { bits: raw }
    }

    fn raw(&self) -> (r: u8) {
        self.bits
    }
}

impl Config {
    /// Power-on reset value: only EN_CRC set.
    pub fn reset() -> (r: Self)
        ensures
            r.spec_raw() == 0b0000_1000u8,
    {
        Config { bits: 0b0000_1000 }
    }

    /// Primary-receiver bit: set while listening, clear while transmitting.
    pub fn prim_rx(&self) -> (r: bool)
        ensures
            r == bit(self.spec_raw(), 0),
    {
        get_bit(self.bits, 0)
    }

    /// Set the primary-receiver bit.
    pub fn set_prim_rx(&mut self, b: bool)
        ensures
            final(self).spec_raw() == with_bit(old(self).spec_raw(), 0, b),
    {
        self.bits = put_bit(self.bits, 0, b);
    }

    /// Power-up bit.
    pub fn pwr_up(&self) -> (r: bool)
        ensures
            r == bit(self.spec_raw(), 1),
    {
        get_bit(self.bits, 1)
    }

    /// Set the power-up bit.
    pub fn set_pwr_up(&mut self, b: bool)
        ensures
            final(self).spec_raw() == with_bit(old(self).spec_raw(), 1, b),
    {
        self.bits = put_bit(self.bits, 1, b);
    }

    /// CRC length bit: set for a two-byte checksum.
    pub fn crco(&self) -> (r: bool)
        ensures
            r == bit(self.spec_raw(), 2),
    {
        get_bit(self.bits, 2)
    }

    /// Set the CRC length bit.
    pub fn set_crco(&mut self, b: bool)
        ensures
            final(self).spec_raw() == with_bit(old(self).spec_raw(), 2, b),
    {
        self.bits = put_bit(self.bits, 2, b);
    }

    /// CRC enable bit.
    pub fn en_crc(&self) -> (r: bool)
        ensures
            r == bit(self.spec_raw(), 3),
    {
        get_bit(self.bits, 3)
    }

    /// Set the CRC enable bit.
    pub fn set_en_crc(&mut self, b: bool)
        ensures
            final(self).spec_raw() == with_bit(old(self).spec_raw(), 3, b),
    {
        self.bits = put_bit(self.bits, 3, b);
    }

    /// Mask bit for the retransmit-limit interrupt.
    pub fn mask_max_rt(&self) -> (r: bool)
        ensures
            r == bit(self.spec_raw(), 4),
    {
        get_bit(self.bits, 4)
    }

    /// Set the mask bit for the retransmit-limit interrupt.
    pub fn set_mask_max_rt(&mut self, b: bool)
        ensures
            final(self).spec_raw() == with_bit(old(self).spec_raw(), 4, b),
    {
        self.bits = put_bit(self.bits, 4, b);
    }

    /// Mask bit for the send-done interrupt.
    pub fn mask_tx_ds(&self) -> (r: bool)
        ensures
            r == bit(self.spec_raw(), 5),
    {
        get_bit(self.bits, 5)
    }

    /// Set the mask bit for the send-done interrupt.
    pub fn set_mask_tx_ds(&mut self, b: bool)
        ensures
            final(self).spec_raw() == with_bit(old(self).spec_raw(), 5, b),
    {
        self.bits = put_bit(self.bits, 5, b);
    }

    /// Mask bit for the receive-ready interrupt.
    pub fn mask_rx_dr(&self) -> (r: bool)
        ensures
            r == bit(self.spec_raw(), 6),
    {
        get_bit(self.bits, 6)
    }

    /// Set the mask bit for the receive-ready interrupt.
    pub fn set_mask_rx_dr(&mut self, b: bool)
        ensures
            final(self).spec_raw() == with_bit(old(self).spec_raw(), 6, b),
    {
        self.bits = put_bit(self.bits, 6, b);
    }
}

/// STATUS register: byte 0 of every exchange; interrupt flags and pipe number.
#[derive(Debug, Clone, Copy)]
pub struct Status {
    bits: u8,
}

impl Register for Status {
    open spec fn spec_addr() -> u8 {
        0x07
    }

    closed spec fn spec_raw(&self) -> u8 {
        self.bits
    }

    fn addr() -> (r: u8) {
        0x07
    }

    fn from_raw(raw: u8) -> (r: Self) {
        Status { bits: raw }
    }

    fn raw(&self) -> (r: u8) {
        self.bits
    }
}

impl Status {
    /// Transmit-FIFO-full flag.
    pub fn tx_full(&self) -> (r: bool)
        ensures
            r == bit(self.spec_raw(), 0),
    {
        get_bit(self.bits, 0)
    }

    /// Number of the pipe that received the packet at the head of the RX
    /// FIFO; `0b111` means none.
    pub fn rx_p_no(&self) -> (r: u8)
        ensures
            r == (self.spec_raw() >> 1) & 7,
    {
        (self.bits >> 1) & 7
    }

    /// Retransmit-limit-exceeded flag.
    pub fn max_rt(&self) -> (r: bool)
        ensures
            r == bit(self.spec_raw(), 4),
    {
        get_bit(self.bits, 4)
    }

    /// Set (to clear by writing back) the retransmit-limit flag.
    pub fn set_max_rt(&mut self, b: bool)
        ensures
            final(self).spec_raw() == with_bit(old(self).spec_raw(), 4, b),
    {
        self.bits = put_bit(self.bits, 4, b);
    }

    /// Send-done flag.
    pub fn tx_ds(&self) -> (r: bool)
        ensures
            r == bit(self.spec_raw(), 5),
    {
        get_bit(self.bits, 5)
    }

    /// Set (to clear by writing back) the send-done flag.
    pub fn set_tx_ds(&mut self, b: bool)
        ensures
            final(self).spec_raw() == with_bit(old(self).spec_raw(), 5, b),
    {
        self.bits = put_bit(self.bits, 5, b);
    }

    /// Receive-ready flag.
    pub fn rx_dr(&self) -> (r: bool)
        ensures
            r == bit(self.spec_raw(), 6),
    {
        get_bit(self.bits, 6)
    }

    /// Set (to clear by writing back) the receive-ready flag.
    pub fn set_rx_dr(&mut self, b: bool)
        ensures
            final(self).spec_raw() == with_bit(old(self).spec_raw(), 6, b),
    {
        self.bits = put_bit(self.bits, 6, b);
    }
}

/// FIFO_STATUS register: fill state of the two packet FIFOs.
#[derive(Debug, Clone, Copy)]
pub struct FifoStatus {
    bits: u8,
}

impl Register for FifoStatus {
    open spec fn spec_addr() -> u8 {
        0x17
    }

    closed spec fn spec_raw(&self) -> u8 {
        self.bits
    }

    fn addr() -> (r: u8) {
        0x17
    }

    fn from_raw(raw: u8) -> (r: Self) {
        FifoStatus { bits: raw }
    }

    fn raw(&self) -> (r: u8) {
        self.bits
    }
}

impl FifoStatus {
    /// Receive FIFO empty.
    pub fn rx_empty(&self) -> (r: bool)
        ensures
            r == bit(self.spec_raw(), 0),
    {
        get_bit(self.bits, 0)
    }

    /// Receive FIFO full.
    pub fn rx_full(&self) -> (r: bool)
        ensures
            r == bit(self.spec_raw(), 1),
    {
        get_bit(self.bits, 1)
    }

    /// Transmit FIFO empty.
    pub fn tx_empty(&self) -> (r: bool)
        ensures
            r == bit(self.spec_raw(), 4),
    {
        get_bit(self.bits, 4)
    }

    /// Transmit FIFO full.
    pub fn tx_full(&self) -> (r: bool)
        ensures
            r == bit(self.spec_raw(), 5),
    {
        get_bit(self.bits, 5)
    }
}

/// SETUP_AW register: configured address width, stored as width minus two.
#[derive(Debug, Clone, Copy)]
pub struct SetupAw {
    bits: u8,
}

impl Register for SetupAw {
    open spec fn spec_addr() -> u8 {
        0x03
    }

    closed spec fn spec_raw(&self) -> u8 {
        self.bits
    }

    fn addr() -> (r: u8) {
        0x03
    }

    fn from_raw(raw: u8) -> (r: Self) {
        SetupAw { bits: raw }
    }

    fn raw(&self) -> (r: u8) {
        self.bits
    }
}

impl SetupAw {
    /// The stored width field: the low three bits, so that a readback from
    /// an absent chip (a floating bus) lands outside the valid range.
    pub fn aw(&self) -> (r: u8)
        ensures
            r == self.spec_raw() & 7,
            r <= 7,
    {
        let b = self.bits;
        proof {
            assert(b & 7 <= 7) by (bit_vector);
        }
        b & 7
    }
}

/// Address widths round-trip: a width of 2–5 bytes, stored as width minus
/// two and read back through the register's field, yields the width it was
/// set to.  Widths outside 2–5 are rejected as contract violations by
/// `Configuration::set_address_width`.
pub proof fn lemma_address_width_roundtrip(w: u8)
    requires
        2 <= w <= 5,
    ensures
        2 + (((w - 2) as u8) & 7) == w,
{
    assert(2 <= w <= 5 ==> 2 + (((w - 2) as u8) & 7) == w) by (bit_vector);
}

/// RF_CH register: frequency offset (channel).
#[derive(Debug, Clone, Copy)]
pub struct RfCh {
    bits: u8,
}

impl Register for RfCh {
    open spec fn spec_addr() -> u8 {
        0x05
    }

    closed spec fn spec_raw(&self) -> u8 {
        self.bits
    }

    fn addr() -> (r: u8) {
        0x05
    }

    fn from_raw(raw: u8) -> (r: Self) {
        RfCh { bits: raw }
    }

    fn raw(&self) -> (r: u8) {
        self.bits
    }
}

impl RfCh {
    /// The seven-bit channel field.
    pub fn rf_ch(&self) -> (r: u8)
        ensures
            r == self.spec_raw() & 0x7f,
    {
        self.bits & 0x7f
    }

    /// Set the seven-bit channel field.
    pub fn set_rf_ch(&mut self, ch: u8)
        requires
            ch < 128,
        ensures
            final(self).spec_raw() == (old(self).spec_raw() & 0x80) | ch,
    {
        self.bits = (self.bits & 0x80) | ch;
    }
}

/// RF_SETUP register: output power and air data rate.
#[derive(Debug, Clone, Copy)]
pub struct RfSetup {
    bits: u8,
}

impl Register for RfSetup {
    open spec fn spec_addr() -> u8 {
        0x06
    }

    closed spec fn spec_raw(&self) -> u8 {
        self.bits
    }

    fn addr() -> (r: u8) {
        0x06
    }

    fn from_raw(raw: u8) -> (r: Self) {
        let r = RfSetup { bits: raw };
        proof {
            assert(r.spec_raw() == raw);
        }
        r
    }

    fn raw(&self) -> (r: u8) {
        self.bits
    }
}

impl RfSetup {
    /// Set the two-bit output-power field.
    pub fn set_rf_pwr(&mut self, p: u8)
        requires
            p < 4,
        ensures
            final(self).spec_raw() == (old(self).spec_raw() & 0xf9) | (p << 1),
    {
        self.bits = (self.bits & 0xf9) | (p << 1);
    }

    /// Set the low-rate bit (250 Kbps).
    pub fn set_rf_dr_low(&mut self, b: bool)
        ensures
            final(self).spec_raw() == with_bit(old(self).spec_raw(), 5, b),
    {
        self.bits = put_bit(self.bits, 5, b);
    }

    /// Set the high-rate bit (2 Mbps).
    pub fn set_rf_dr_high(&mut self, b: bool)
        ensures
            final(self).spec_raw() == with_bit(old(self).spec_raw(), 3, b),
    {
        self.bits = put_bit(self.bits, 3, b);
    }
}

/// SETUP_RETR register: auto-retransmit delay and count.
#[derive(Debug, Clone, Copy)]
pub struct SetupRetr {
    bits: u8,
}

impl Register for SetupRetr {
    open spec fn spec_addr() -> u8 {
        0x04
    }

    closed spec fn spec_raw(&self) -> u8 {
        self.bits
    }

    fn addr() -> (r: u8) {
        0x04
    }

    fn from_raw(raw: u8) -> (r: Self) {
        let r = SetupRetr { bits: raw };
        proof {
            assert(r.spec_raw() == raw);
        }
        r
    }

    fn raw(&self) -> (r: u8) {
        self.bits
    }
}

impl SetupRetr {
    /// Set the four-bit auto-retransmit delay field (high nibble).
    pub fn set_ard(&mut self, d: u8)
        ensures
            final(self).spec_raw() == (old(self).spec_raw() & 0x0f) | ((d & 0x0f) << 4),
    {
        self.bits = (self.bits & 0x0f) | ((d & 0x0f) << 4);
    }

    /// Set the four-bit auto-retransmit count field (low nibble).
    pub fn set_arc(&mut self, c: u8)
        ensures
            final(self).spec_raw() == (old(self).spec_raw() & 0xf0) | (c & 0x0f),
    {
        self.bits = (self.bits & 0xf0) | (c & 0x0f);
    }
}

/// EN_AA register: per-pipe auto-acknowledgment enable table.
#[derive(Debug, Clone, Copy)]
pub struct EnAa {
    bits: u8,
}

impl Register for EnAa {
    open spec fn spec_addr() -> u8 {
        0x01
    }

    closed spec fn spec_raw(&self) -> u8 {
        self.bits
    }

    fn addr() -> (r: u8) {
        0x01
    }

    fn from_raw(raw: u8) -> (r: Self) {
        EnAa { bits: raw }
    }

    fn raw(&self) -> (r: u8) {
        self.bits
    }
}

impl EnAa {
    /// Pack a six-entry pipe table into the register.
    pub fn from_bools(t: &[bool; 6]) -> (r: Self)
        ensures
            r.spec_raw() == pipes_byte(t@),
    {
        EnAa { bits: pack_pipes(t) }
    }

    /// Unpack the register into its six-entry pipe table.
    pub fn to_bools(&self) -> (r: [bool; 6])
        ensures
            forall|i: int| 0 <= i < 6 ==> #[trigger] r@[i] == bit(self.spec_raw(), i as u8),
    {
        unpack_pipes(self.bits)
    }
}

/// EN_RXADDR register: per-pipe receive enable table.
#[derive(Debug, Clone, Copy)]
pub struct EnRxaddr {
    bits: u8,
}

impl Register for EnRxaddr {
    open spec fn spec_addr() -> u8 {
        0x02
    }

    closed spec fn spec_raw(&self) -> u8 {
        self.bits
    }

    fn addr() -> (r: u8) {
        0x02
    }

    fn from_raw(raw: u8) -> (r: Self) {
        EnRxaddr { bits: raw }
    }

    fn raw(&self) -> (r: u8) {
        self.bits
    }
}

impl EnRxaddr {
    /// Pack a six-entry pipe table into the register.
    pub fn from_bools(t: &[bool; 6]) -> (r: Self)
        ensures
            r.spec_raw() == pipes_byte(t@),
    {
        EnRxaddr { bits: pack_pipes(t) }
    }

    /// Unpack the register into its six-entry pipe table.
    pub fn to_bools(&self) -> (r: [bool; 6])
        ensures
            forall|i: int| 0 <= i < 6 ==> #[trigger] r@[i] == bit(self.spec_raw(), i as u8),
    {
        unpack_pipes(self.bits)
    }
}

/// DYNPD register: per-pipe dynamic-payload-length enable table.
#[derive(Debug, Clone, Copy)]
pub struct Dynpd {
    bits: u8,
}

impl Register for Dynpd {
    open spec fn spec_addr() -> u8 {
        0x1c
    }

    closed spec fn spec_raw(&self) -> u8 {
        self.bits
    }

    fn addr() -> (r: u8) {
        0x1c
    }

    fn from_raw(raw: u8) -> (r: Self) {
        Dynpd { bits: raw }
    }

    fn raw(&self) -> (r: u8) {
        self.bits
    }
}

impl Dynpd {
    /// Pack a six-entry pipe table into the register.
    pub fn from_bools(t: &[bool; 6]) -> (r: Self)
        ensures
            r.spec_raw() == pipes_byte(t@),
    {
        Dynpd { bits: pack_pipes(t) }
    }

    /// Unpack the register into its six-entry pipe table.
    pub fn to_bools(&self) -> (r: [bool; 6])
        ensures
            forall|i: int| 0 <= i < 6 ==> #[trigger] r@[i] == bit(self.spec_raw(), i as u8),
    {
        unpack_pipes(self.bits)
    }
}

/// FEATURE register: dynamic-payload and acknowledgment feature bits.
#[derive(Debug, Clone, Copy)]
pub struct Feature {
    bits: u8,
}

impl Register for Feature {
    open spec fn spec_addr() -> u8 {
        0x1d
    }

    closed spec fn spec_raw(&self) -> u8 {
        self.bits
    }

    fn addr() -> (r: u8) {
        0x1d
    }

    fn from_raw(raw: u8) -> (r: Self) {
        Feature { bits: raw }
    }

    fn raw(&self) -> (r: u8) {
        self.bits
    }
}

impl Feature {
    /// Dynamic-payload-length feature bit.
    pub fn en_dpl(&self) -> (r: bool)
        ensures
            r == bit(self.spec_raw(), 2),
    {
        get_bit(self.bits, 2)
    }

    /// Set the dynamic-payload-length feature bit.
    pub fn set_en_dpl(&mut self, b: bool)
        ensures
            final(self).spec_raw() == with_bit(old(self).spec_raw(), 2, b),
    {
        self.bits = put_bit(self.bits, 2, b);
    }

    /// Set the payload-in-acknowledgment feature bit.
    pub fn set_en_ack_pay(&mut self, b: bool)
        ensures
            final(self).spec_raw() == with_bit(old(self).spec_raw(), 1, b),
    {
        self.bits = put_bit(self.bits, 1, b);
    }

    /// Set the selective-no-acknowledgment feature bit.
    pub fn set_en_dyn_ack(&mut self, b: bool)
        ensures
            final(self).spec_raw() == with_bit(old(self).spec_raw(), 0, b),
    {
        self.bits = put_bit(self.bits, 0, b);
    }
}

/// OBSERVE_TX register: lost-packet and retransmit counters.
#[derive(Debug, Clone, Copy)]
pub struct ObserveTx {
    bits: u8,
}

impl Register for ObserveTx {
    open spec fn spec_addr() -> u8 {
        0x08
    }

    closed spec fn spec_raw(&self) -> u8 {
        self.bits
    }

    fn addr() -> (r: u8) {
        0x08
    }

    fn from_raw(raw: u8) -> (r: Self) {
        ObserveTx { bits: raw }
    }

    fn raw(&self) -> (r: u8) {
        self.bits
    }
}

impl ObserveTx {
    /// Count of packets lost since the channel was last written.
    pub fn plos_cnt(&self) -> (r: u8)
        ensures
            r == (self.spec_raw() >> 4) & 0x0f,
    {
        (self.bits >> 4) & 0x0f
    }

    /// Count of retransmissions of the current packet.
    pub fn arc_cnt(&self) -> (r: u8)
        ensures
            r == self.spec_raw() & 0x0f,
    {
        self.bits & 0x0f
    }
}

/// Wire address of the pipe-0 receive-address table register; the tables
/// for pipes 1–5 follow at the next five addresses.
pub const RX_ADDR_P0: u8 = 0x0a;
/// Wire address of the transmit-address table register.
pub const TX_ADDR: u8 = 0x10;
/// Wire address of the pipe-0 static payload-length register; the registers
/// for pipes 1–5 follow at the next five addresses.
pub const RX_PW_P0: u8 = 0x11;

} // verus!
