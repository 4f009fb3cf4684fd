//! **Standby** mode: chip-enable low, lowest power, configuration freely
//! writable.  Transitions consume the standby value and produce the
//! destination mode, or give the standby value back beside the error.

use vstd::prelude::*;
use crate::bits::with_bit;
use crate::config::Configuration;
use crate::device::{Device, config_write_logged};
use crate::rx::RxMode;
use crate::tx::TxMode;
use crate::Error;

verus! {

/// The Standby state; owns the device exclusively.
pub struct StandbyMode<D: Device> {
    device: D,
}

impl<D: Device> StandbyMode<D> {
    /// Chip-enable is low whenever a Standby value exists.
    pub open spec fn wf(&self) -> bool {
        !self.device_spec().ce_high()
    }

    /// Power the chip up into Standby by setting the power-up configuration
    /// bit; chip-enable must already be low.
    pub fn power_up(device: D) -> (r: Result<Self, (D, Error)>)
        requires
            !device.ce_high(),
        ensures
            with_bit(device.config_cache(), 1, true) == device.config_cache() ==> r is Ok,
            match r {
                Ok(s) => {
                    &&& s.wf()
                    &&& s.device_spec().config_cache() == with_bit(device.config_cache(), 1, true)
                    &&& config_write_logged(
                        device.log(),
                        s.device_spec().log(),
                        device.config_cache(),
                        with_bit(device.config_cache(), 1, true),
                    )
                },
                Err((d, e)) => {
                    &&& d.ce_high() == device.ce_high()
                    &&& d.config_cache() == device.config_cache()
                    &&& d.log() == device.log()
                },
            },
    {
        let mut device = device;
        let mut cfg = device.config();
        cfg.set_pwr_up(true);
        match device.update_config(cfg) {
            Ok(()) => Ok(StandbyMode { device }),
            Err(e) => Err((device, e)),
        }
    }

    /// Wrap a device whose radio activity is being stopped: lower
    /// chip-enable and enter Standby.
    pub fn from_rx_tx(device: D) -> (r: Self)
        ensures
            r.wf(),
            r.device_spec().log() == device.log(),
            r.device_spec().config_cache() == device.config_cache(),
    {
        let mut device = device;
        device.ce_disable();
        StandbyMode { device }
    }

    /// Standby → Receive: set the primary-receiver configuration bit, then
    /// raise chip-enable.  On a device failure the standby value comes back
    /// unchanged beside the error.
    pub fn rx(self) -> (r: Result<RxMode<D>, (Self, Error)>)
        requires
            self.wf(),
        ensures
            with_bit(self.device_spec().config_cache(), 0, true) == self.device_spec().config_cache()
                ==> r is Ok,
            match r {
                Ok(rx) => {
                    &&& rx.wf()
                    &&& rx.device_spec().config_cache() == with_bit(
                        self.device_spec().config_cache(),
                        0,
                        true,
                    )
                    &&& config_write_logged(
                        self.device_spec().log(),
                        rx.device_spec().log(),
                        self.device_spec().config_cache(),
                        with_bit(self.device_spec().config_cache(), 0, true),
                    )
                },
                Err((s, e)) => {
                    &&& s.wf()
                    &&& s.device_spec().config_cache() == self.device_spec().config_cache()
                    &&& s.device_spec().log() == self.device_spec().log()
                },
            },
    {
        let mut device = self.device;
        let mut cfg = device.config();
        cfg.set_prim_rx(true);
        match device.update_config(cfg) {
            Ok(()) => {
                device.ce_enable();
                Ok(RxMode::new(device))
            },
            Err(e) => Err((StandbyMode { device }, e)),
        }
    }

    /// Standby → Transmit: clear the primary-receiver configuration bit;
    /// chip-enable stays low until a send is issued.  On a device failure
    /// the standby value comes back unchanged beside the error.
    pub fn tx(self) -> (r: Result<TxMode<D>, (Self, Error)>)
        requires
            self.wf(),
        ensures
            with_bit(self.device_spec().config_cache(), 0, false) == self.device_spec().config_cache()
                ==> r is Ok,
            match r {
                Ok(tx) => {
                    &&& !tx.device_spec().ce_high()
                    &&& tx.device_spec().config_cache() == with_bit(
                        self.device_spec().config_cache(),
                        0,
                        false,
                    )
                    &&& config_write_logged(
                        self.device_spec().log(),
                        tx.device_spec().log(),
                        self.device_spec().config_cache(),
                        with_bit(self.device_spec().config_cache(), 0, false),
                    )
                },
                Err((s, e)) => {
                    &&& s.wf()
                    &&& s.device_spec().config_cache() == self.device_spec().config_cache()
                    &&& s.device_spec().log() == self.device_spec().log()
                },
            },
    {
        let mut device = self.device;
        let mut cfg = device.config();
        cfg.set_prim_rx(false);
        match device.update_config(cfg) {
            Ok(()) => Ok(TxMode::new(device)),
            Err(e) => Err((StandbyMode { device }, e)),
        }
    }
}

impl<D: Device> Configuration for StandbyMode<D> {
    type Inner = D;

    closed spec fn device_spec(&self) -> D {
        self.device
    }

    fn device(&mut self) -> (r: &mut D) {
        &mut self.device
    }
}

} // verus!
