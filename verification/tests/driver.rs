//! End-to-end scenarios against a scripted bus and a recording
//! chip-enable pin.

use std::cell::RefCell;
use std::rc::Rc;

use nrf24l01::{
    CePin, Configuration, CrcMode, DataRate, Error, NRF24L01, PollError, SpiBus, StandbyMode,
};

struct BusState {
    responses: Vec<Vec<u8>>,
    cursor: usize,
    sent: Vec<Vec<u8>>,
    fail_at: Option<usize>,
}

#[derive(Clone)]
struct ScriptBus(Rc<RefCell<BusState>>);

impl ScriptBus {
    fn new(responses: Vec<Vec<u8>>) -> ScriptBus {
        ScriptBus(Rc::new(RefCell::new(BusState {
            responses,
            cursor: 0,
            sent: Vec::new(),
            fail_at: None,
        })))
    }

    fn failing_at(responses: Vec<Vec<u8>>, at: usize) -> ScriptBus {
        let bus = ScriptBus::new(responses);
        bus.0.borrow_mut().fail_at = Some(at);
        bus
    }

    fn sent(&self) -> Vec<Vec<u8>> {
        self.0.borrow().sent.clone()
    }
}

impl SpiBus for ScriptBus {
    fn transfer_in_place(&mut self, buf: &mut Vec<u8>) -> Result<(), Error> {
        let mut st = self.0.borrow_mut();
        let idx = st.cursor;
        st.cursor += 1;
        if st.fail_at == Some(idx) {
            return Err(Error::Bus);
        }
        st.sent.push(buf.clone());
        let resp = st.responses.get(idx).cloned().unwrap_or_default();
        for i in 0..buf.len() {
            buf[i] = *resp.get(i).unwrap_or(&0);
        }
        Ok(())
    }
}

#[derive(Clone)]
struct RecPin(Rc<RefCell<bool>>);

impl RecPin {
    fn new() -> RecPin {
        RecPin(Rc::new(RefCell::new(true)))
    }

    fn is_high(&self) -> bool {
        *self.0.borrow()
    }
}

impl CePin for RecPin {
    fn set_high(&mut self) {
        *self.0.borrow_mut() = true;
    }

    fn set_low(&mut self) {
        *self.0.borrow_mut() = false;
    }
}

/// The three exchanges every successful construction performs.
fn boot_responses() -> Vec<Vec<u8>> {
    vec![vec![0x0e, 0x03], vec![0x0e, 0x00], vec![0x0e, 0x00]]
}

fn boot(
    extra: Vec<Vec<u8>>,
) -> (StandbyMode<NRF24L01<RecPin, ScriptBus>>, ScriptBus, RecPin) {
    let mut responses = boot_responses();
    responses.extend(extra);
    let bus = ScriptBus::new(responses);
    let pin = RecPin::new();
    let standby = NRF24L01::new(pin.clone(), bus.clone()).unwrap();
    (standby, bus, pin)
}

#[test]
fn new_probes_validates_and_powers_up() {
    let (_standby, bus, pin) = boot(vec![]);
    assert_eq!(
        bus.sent(),
        vec![
            vec![0x03, 0x00], // read SETUP_AW
            vec![0x3d, 0x05], // write FEATURE: dynamic payloads + dynamic ack
            vec![0x20, 0x0a], // write CONFIG: EN_CRC | PWR_UP
        ]
    );
    assert!(!pin.is_high());
}

#[test]
fn new_rejects_absent_chip() {
    // a floating bus reads the width field out of range
    let bus = ScriptBus::new(vec![vec![0x0e, 0x07]]);
    let r = NRF24L01::new(RecPin::new(), bus);
    assert!(matches!(r, Err(Error::NotConnected)));
}

#[test]
fn new_surfaces_bus_failure() {
    let bus = ScriptBus::failing_at(vec![], 0);
    let r = NRF24L01::new(RecPin::new(), bus);
    assert!(matches!(r, Err(Error::Bus)));
}

#[test]
fn transitions_drive_chip_enable_as_documented() {
    let (standby, bus, pin) = boot(vec![
        vec![0x0e, 0x00], // config write entering RX
        vec![0x0e, 0x00], // config write entering TX
        vec![0x00, 0x10], // FIFO_STATUS read during drain: TX empty
    ]);
    assert!(!pin.is_high());

    // Standby -> Receive raises chip-enable
    let rx = standby.rx().map_err(|_| ()).unwrap();
    assert!(pin.is_high());
    assert_eq!(bus.sent()[3], vec![0x20, 0x0b]);

    // Receive -> Standby lowers it, without any bus traffic
    let standby = rx.standby();
    assert!(!pin.is_high());
    assert_eq!(bus.sent().len(), 4);

    // Standby -> Transmit keeps it low until a send is issued
    let tx = standby.tx().map_err(|_| ()).unwrap();
    assert!(!pin.is_high());
    assert_eq!(bus.sent()[4], vec![0x20, 0x0a]);

    // Transmit -> Standby drains the FIFO first, then stays low
    let _standby = tx.standby().map_err(|_| ()).unwrap();
    assert!(!pin.is_high());
    assert_eq!(bus.sent()[5], vec![0x17, 0x00]);
    assert_eq!(bus.sent().len(), 6);
}

#[test]
fn send_then_one_poll_reports_success_and_lowers_ce() {
    let (standby, bus, pin) = boot(vec![
        vec![0x0e, 0x00],       // SETUP_RETR write (auto-retransmit off)
        vec![0x0e, 0x00],       // EN_AA write (auto-ack off)
        vec![0x0e, 0, 0, 0],    // payload write
        vec![0x00, 0x10],       // FIFO_STATUS read: TX empty, no MAX_RT
        vec![0x0e, 0x00],       // STATUS interrupt clear
    ]);
    // entering TX changes no configuration bit, so no frame goes out
    let mut tx = standby.tx().map_err(|_| ()).unwrap();
    tx.set_auto_retransmit(0, 0).unwrap();
    tx.set_auto_ack(&[false; 6]).unwrap();
    assert_eq!(bus.sent()[3], vec![0x24, 0x00]);
    assert_eq!(bus.sent()[4], vec![0x21, 0x00]);

    tx.send(&[1, 2, 3]).unwrap();
    assert!(pin.is_high());
    assert_eq!(bus.sent()[5], vec![0xa0, 1, 2, 3]);

    assert_eq!(tx.poll_send(), Ok(true));
    assert!(!pin.is_high());
    assert_eq!(bus.sent()[6], vec![0x17, 0x00]);
    assert_eq!(bus.sent()[7], vec![0x27, 0x30]);
    assert_eq!(bus.sent().len(), 8);
}

#[test]
fn poll_send_flushes_exactly_once_on_retransmit_limit() {
    let (standby, bus, pin) = boot(vec![
        vec![0x10, 0x00], // status: MAX_RT set, FIFO not empty
        vec![0x10],       // flush TX
        vec![0x10, 0x00], // interrupt clear
        vec![0x00, 0x10], // second poll: clean, empty FIFO
        vec![0x0e, 0x00], // interrupt clear
    ]);
    let mut tx = standby.tx().map_err(|_| ()).unwrap();

    assert_eq!(tx.poll_send(), Ok(false));
    assert!(!pin.is_high());
    assert_eq!(bus.sent()[3], vec![0x17, 0x00]);
    assert_eq!(bus.sent()[4], vec![0xe1]);
    assert_eq!(bus.sent()[5], vec![0x27, 0x30]);

    assert_eq!(tx.poll_send(), Ok(true));
    assert!(!pin.is_high());
    let flushes = bus.sent().iter().filter(|f| f[0] == 0xe1).count();
    assert_eq!(flushes, 1);
    assert_eq!(bus.sent().len(), 8);
}

#[test]
fn poll_send_pending_reraises_chip_enable() {
    let (standby, bus, pin) = boot(vec![
        vec![0x00, 0x00], // neither MAX_RT nor empty: still draining
    ]);
    let mut tx = standby.tx().map_err(|_| ()).unwrap();
    assert_eq!(tx.poll_send(), Err(PollError::WouldBlock));
    assert!(pin.is_high());
    assert_eq!(bus.sent().len(), 4);
}

#[test]
fn wait_empty_polls_until_the_fifo_drains() {
    let (standby, bus, pin) = boot(vec![
        vec![0x00, 0x00],
        vec![0x00, 0x00],
        vec![0x00, 0x10], // drained on the third poll
    ]);
    let mut tx = standby.tx().map_err(|_| ()).unwrap();
    tx.wait_empty().unwrap();
    assert!(!pin.is_high());
    assert_eq!(
        bus.sent()[3..].to_vec(),
        vec![vec![0x17, 0x00], vec![0x17, 0x00], vec![0x17, 0x00]]
    );
}

#[test]
fn wait_empty_flushes_on_retransmit_limit_and_keeps_draining() {
    let (standby, bus, pin) = boot(vec![
        vec![0x10, 0x00], // MAX_RT with packets still queued
        vec![0x10],       // flush TX
        vec![0x10, 0x00], // interrupt clear
        vec![0x00, 0x10], // now drained
    ]);
    let mut tx = standby.tx().map_err(|_| ()).unwrap();
    tx.wait_empty().unwrap();
    assert!(!pin.is_high());
    assert_eq!(
        bus.sent()[3..].to_vec(),
        vec![
            vec![0x17, 0x00],
            vec![0xe1],
            vec![0x27, 0x30],
            vec![0x17, 0x00],
        ]
    );
}

#[test]
fn configuration_operations_frame_exactly() {
    let (mut standby, bus, _pin) = boot(vec![vec![0x0e; 6]; 16]);
    standby.set_frequency(42).unwrap();
    standby.set_rf(&DataRate::R2Mbps, 3).unwrap();
    standby.set_rf(&DataRate::R250Kbps, 1).unwrap();
    standby.set_rf(&DataRate::R1Mbps, 0).unwrap();
    standby.set_address_width(5).unwrap();
    standby.set_auto_retransmit(5, 3).unwrap();
    standby
        .set_pipes_rx_enable(&[true, false, true, false, false, false])
        .unwrap();
    standby.set_rx_addr(1, &[1, 2, 3, 4, 5]).unwrap();
    standby.set_tx_addr(&[7, 8]).unwrap();
    standby.clear_interrupts().unwrap();
    standby.flush_rx().unwrap();
    standby.flush_tx().unwrap();
    assert_eq!(
        bus.sent()[3..].to_vec(),
        vec![
            vec![0x25, 42],
            vec![0x26, 0x0e],
            vec![0x26, 0x22],
            vec![0x26, 0x00],
            vec![0x23, 0x03],
            vec![0x24, 0x53],
            vec![0x22, 0b101],
            vec![0x2b, 1, 2, 3, 4, 5],
            vec![0x30, 7, 8],
            vec![0x27, 0x70],
            vec![0xe2],
            vec![0xe1],
        ]
    );
}

#[test]
fn read_operations_decode_responses() {
    let (mut standby, bus, _pin) = boot(vec![
        vec![0x00, 42],   // RF_CH
        vec![0x00, 0x03], // SETUP_AW
        vec![0x00, 0b10_1010], // EN_AA
        vec![0x70],       // status via no-op
    ]);
    assert_eq!(standby.get_frequency(), Ok(42));
    assert_eq!(standby.get_address_width(), Ok(5));
    assert_eq!(
        standby.get_auto_ack(),
        Ok([false, true, false, true, false, true])
    );
    assert_eq!(standby.get_interrupts(), Ok((true, true, true)));
    assert_eq!(
        bus.sent()[3..].to_vec(),
        vec![
            vec![0x05, 0x00],
            vec![0x03, 0x00],
            vec![0x01, 0x00],
            vec![0xff],
        ]
    );
}

#[test]
fn set_crc_writes_the_config_register_only_on_change() {
    let (mut standby, bus, _pin) = boot(vec![vec![0x0e, 0x00]; 4]);
    // cache after power-up is 0x0a: EN_CRC | PWR_UP
    standby.set_crc(CrcMode::TwoBytes).unwrap();
    assert_eq!(bus.sent()[3], vec![0x20, 0x0e]);
    // unchanged bit pattern: no write goes out
    standby.set_crc(CrcMode::TwoBytes).unwrap();
    assert_eq!(bus.sent().len(), 4);
    standby.set_crc(CrcMode::OneByte).unwrap();
    assert_eq!(bus.sent()[4], vec![0x20, 0x0a]);
    standby.set_interrupt_mask(true, false, false).unwrap();
    assert_eq!(bus.sent()[5], vec![0x20, 0x4a]);
    assert_eq!(bus.sent().len(), 6);
}

#[test]
fn set_pipes_rx_lengths_enables_the_feature_only_when_needed() {
    let (mut standby, bus, _pin) = boot(vec![
        vec![0x00, 0x01], // FEATURE read
    ]);
    standby
        .set_pipes_rx_lengths(&[Some(4), None, Some(32), None, None, None])
        .unwrap();
    assert_eq!(
        bus.sent()[3..].to_vec(),
        vec![
            vec![0x1d, 0x00],
            vec![0x3d, 0x05],
            vec![0x3c, 0b11_1010],
            vec![0x31, 4],
            vec![0x32, 0],
            vec![0x33, 32],
            vec![0x34, 0],
            vec![0x35, 0],
            vec![0x36, 0],
        ]
    );
}

#[test]
fn set_pipes_rx_lengths_all_static_skips_the_feature_write() {
    let (mut standby, bus, _pin) = boot(vec![]);
    standby
        .set_pipes_rx_lengths(&[Some(1), Some(2), Some(3), Some(4), Some(5), Some(6)])
        .unwrap();
    assert_eq!(
        bus.sent()[3..].to_vec(),
        vec![
            vec![0x3c, 0x00],
            vec![0x31, 1],
            vec![0x32, 2],
            vec![0x33, 3],
            vec![0x34, 4],
            vec![0x35, 5],
            vec![0x36, 6],
        ]
    );
}

#[test]
fn bus_failures_propagate_immediately() {
    let (mut standby, _bus, _pin) = {
        let mut responses = boot_responses();
        responses.push(vec![]);
        let bus = ScriptBus::failing_at(responses, 3);
        let pin = RecPin::new();
        let standby = NRF24L01::new(pin.clone(), bus.clone()).unwrap();
        (standby, bus, pin)
    };
    assert_eq!(standby.set_frequency(42), Err(Error::Bus));
}

#[test]
fn rx_mode_reports_the_receiving_pipe() {
    let (standby, _bus, _pin) = boot(vec![
        vec![0x0e, 0x00], // config write entering RX
        vec![0x04],       // no-op status: pipe 2
        vec![0x0e],       // no-op status: pipe 7 = none
    ]);
    let mut rx = standby.rx().map_err(|_| ()).unwrap();
    assert_eq!(rx.can_read(), Ok(Some(2)));
    assert_eq!(rx.can_read(), Ok(None));
}
