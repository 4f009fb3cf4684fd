//! Register-field and command-encoding behaviour on concrete values.

use nrf24l01::{poll_decision, Command, Config, Dynpd, EnAa, EnRxaddr, FifoStatus, ObserveTx,
    PollStep, RfCh, Register, SetupAw, Status};

#[test]
fn config_fields_roundtrip_independent_of_other_bits() {
    for start in [0x00u8, 0xff, 0x55, 0xaa] {
        for b in [true, false] {
            let mut c = Config::from_raw(start);
            c.set_prim_rx(b);
            assert_eq!(c.prim_rx(), b);
            let mut c = Config::from_raw(start);
            c.set_pwr_up(b);
            assert_eq!(c.pwr_up(), b);
            let mut c = Config::from_raw(start);
            c.set_crco(b);
            assert_eq!(c.crco(), b);
            let mut c = Config::from_raw(start);
            c.set_en_crc(b);
            assert_eq!(c.en_crc(), b);
            let mut c = Config::from_raw(start);
            c.set_mask_max_rt(b);
            assert_eq!(c.mask_max_rt(), b);
            // setting one field leaves the others as they were
            let mut c = Config::from_raw(start);
            let before = (c.prim_rx(), c.pwr_up(), c.en_crc());
            c.set_crco(b);
            assert_eq!((c.prim_rx(), c.pwr_up(), c.en_crc()), before);
            let mut c = Config::from_raw(start);
            c.set_mask_tx_ds(b);
            assert_eq!(c.mask_tx_ds(), b);
            let mut c = Config::from_raw(start);
            c.set_mask_rx_dr(b);
            assert_eq!(c.mask_rx_dr(), b);
        }
    }
}

#[test]
fn status_fields_decode() {
    let s = Status::from_raw(0b0101_1011);
    assert!(s.rx_dr());
    assert!(!s.tx_ds());
    assert!(s.max_rt());
    assert_eq!(s.rx_p_no(), 0b101);
    assert!(s.tx_full());
    let none = Status::from_raw(0b0000_1110);
    assert_eq!(none.rx_p_no(), 0b111);
    let mut clear = Status::from_raw(0);
    clear.set_rx_dr(true);
    clear.set_tx_ds(true);
    clear.set_max_rt(true);
    assert_eq!(clear.raw(), 0x70);
}

#[test]
fn fifo_status_fields_decode() {
    let f = FifoStatus::from_raw(0b0001_0001);
    assert!(f.rx_empty());
    assert!(!f.rx_full());
    assert!(f.tx_empty());
    assert!(!f.tx_full());
    let f = FifoStatus::from_raw(0b0010_0010);
    assert!(!f.rx_empty());
    assert!(f.rx_full());
    assert!(!f.tx_empty());
    assert!(f.tx_full());
}

#[test]
fn pipe_tables_roundtrip_all_64_combinations() {
    for bits in 0u8..64 {
        let t = [
            bits & 1 != 0,
            bits & 2 != 0,
            bits & 4 != 0,
            bits & 8 != 0,
            bits & 16 != 0,
            bits & 32 != 0,
        ];
        assert_eq!(EnAa::from_bools(&t).to_bools(), t);
        assert_eq!(EnRxaddr::from_bools(&t).to_bools(), t);
        assert_eq!(Dynpd::from_bools(&t).to_bools(), t);
        assert_eq!(EnAa::from_bools(&t).raw(), bits);
    }
}

#[test]
fn address_width_field_roundtrip() {
    for w in 2u8..=5 {
        let reg = SetupAw::from_raw(w - 2);
        assert_eq!(2 + reg.aw(), w);
    }
    // a floating bus reads back out of range
    assert!(SetupAw::from_raw(0xff).aw() > 3);
}

#[test]
fn observe_tx_counters_decode() {
    let o = ObserveTx::from_raw(0xa3);
    assert_eq!(o.plos_cnt(), 0x0a);
    assert_eq!(o.arc_cnt(), 0x03);
}

#[test]
fn rf_ch_field_roundtrip() {
    let mut r = RfCh::from_raw(0);
    r.set_rf_ch(42);
    assert_eq!(r.rf_ch(), 42);
    assert_eq!(r.raw(), 42);
}

#[test]
fn read_register_command_encodes_opcode_then_placeholders() {
    let cmd = Command::ReadRegister { addr: 0x05, width: 1 };
    assert_eq!(cmd.encode(), vec![0x05, 0x00]);
    assert_eq!(cmd.len(), 2);
    let wide = Command::ReadRegister { addr: 0x0a, width: 5 };
    assert_eq!(wide.encode(), vec![0x0a, 0, 0, 0, 0, 0]);
    assert_eq!(wide.len(), 1 + 5);
}

#[test]
fn write_register_command_encodes_address_in_opcode() {
    let cmd = Command::WriteRegister { addr: 0x07, data: vec![0x70] };
    assert_eq!(cmd.encode(), vec![0x27, 0x70]);
    let addr = Command::WriteRegister { addr: 0x10, data: vec![0xe7, 0xe7, 0xe7] };
    assert_eq!(addr.encode(), vec![0x30, 0xe7, 0xe7, 0xe7]);
}

#[test]
fn fixed_opcodes_encode_exactly() {
    assert_eq!(Command::ReadRxPayload { width: 3 }.encode(), vec![0b0110_0001, 0, 0, 0]);
    assert_eq!(
        Command::WriteTxPayload { data: vec![1, 2] }.encode(),
        vec![0b1010_0000, 1, 2]
    );
    assert_eq!(Command::FlushTx.encode(), vec![0b1110_0001]);
    assert_eq!(Command::FlushRx.encode(), vec![0b1110_0010]);
    assert_eq!(Command::Nop.encode(), vec![0b1111_1111]);
}

#[test]
fn decoding_a_response_reproduces_the_register_value() {
    let cmd = Command::ReadRegister { addr: 0x03, width: 1 };
    let exchanged = vec![0x0e, 0x03];
    assert_eq!(cmd.decode_response(&exchanged), vec![0x03]);
    let reg = SetupAw::from_raw(cmd.decode_response(&exchanged)[0]);
    assert_eq!(2 + reg.aw(), 5);
    // write-type commands carry no data back
    let w = Command::WriteRegister { addr: 0x00, data: vec![0x0a] };
    assert_eq!(w.decode_response(&vec![0x0e, 0x00]), Vec::<u8>::new());
}

#[test]
fn poll_decision_reacts_to_the_two_status_bytes() {
    // retransmit limit wins, whatever the FIFO reports
    assert_eq!(
        poll_decision(Status::from_raw(0x10), FifoStatus::from_raw(0x00)),
        PollStep::FlushAndFail
    );
    assert_eq!(
        poll_decision(Status::from_raw(0x10), FifoStatus::from_raw(0x10)),
        PollStep::FlushAndFail
    );
    // empty FIFO without the limit flag finishes the send
    assert_eq!(
        poll_decision(Status::from_raw(0x00), FifoStatus::from_raw(0x10)),
        PollStep::FinishSuccess
    );
    // neither: keep waiting
    assert_eq!(
        poll_decision(Status::from_raw(0x00), FifoStatus::from_raw(0x00)),
        PollStep::KeepWaiting
    );
}
