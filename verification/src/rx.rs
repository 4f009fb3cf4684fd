//! **Receive** mode: chip-enable high, the chip is listening.
//!
//! Payload extraction is a collaborator of the transmit path and mirrors
//! it; this module exposes entering and leaving the mode and the readiness
//! probe.

use vstd::prelude::*;
use crate::config::Configuration;
use crate::device::Device;
use crate::command::Command;
use crate::standby::StandbyMode;
use crate::device::appended;
use crate::Error;

verus! {

/// The Receive state; owns the device exclusively.
pub struct RxMode<D: Device> {
    device: D,
}

impl<D: Device> RxMode<D> {
    /// Chip-enable is high whenever a Receive value exists.
    pub open spec fn wf(&self) -> bool {
        self.device_spec().ce_high()
    }

    /// Relies on everything being set up by the Standby → Receive
    /// transition, from which it is called.
    pub(crate) fn new(device: D) -> (r: Self)
        ensures
            r.device_spec() == device,
    {
        RxMode { device }
    }

    /// Receive → Standby: lower chip-enable.  Unread receive-FIFO contents
    /// are preserved, not flushed.
    pub fn standby(self) -> (r: StandbyMode<D>)
        ensures
            r.wf(),
            r.device_spec().log() == self.device_spec().log(),
            r.device_spec().config_cache() == self.device_spec().config_cache(),
    {
        StandbyMode::from_rx_tx(self.device)
    }

    /// Which pipe has a packet waiting at the head of the receive FIFO, if
    /// any, read from the status byte of a no-op exchange.
    pub fn can_read(&mut self) -> (r: Result<Option<u8>, Error>)
        ensures
            final(self).device_spec().ce_high() == old(self).device_spec().ce_high(),
            final(self).device_spec().config_cache() == old(self).device_spec().config_cache(),
            match r {
                Ok(p) => {
                    &&& appended(
                        old(self).device_spec().log(),
                        final(self).device_spec().log(),
                        seq![seq![0b1111_1111u8]],
                    )
                    &&& p == ({
                        let pipe = (final(self).device_spec().log().last().1[0] >> 1) & 7;
                        if pipe == 7 {
                            Option::<u8>::None
                        } else {
                            Option::<u8>::Some(pipe)
                        }
                    })
                },
                Err(_) => final(self).device_spec().log() == old(self).device_spec().log(),
            },
    {
        let cmd = Command::Nop;
        proof {
            assert(cmd.frame() =~= seq![0b1111_1111u8]);
        }
        match self.device.send_command(&cmd) {
            Ok((status, _)) => {
                let pipe = status.rx_p_no();
                if pipe == 7 {
                    Ok(None)
                } else {
                    Ok(Some(pipe))
                }
            },
            Err(e) => Err(e),
        }
    }
}

impl<D: Device> Configuration for RxMode<D> {
    type Inner = D;

    closed spec fn device_spec(&self) -> D {
        self.device
    }

    fn device(&mut self) -> (r: &mut D) {
        &mut self.device
    }
}

} // verus!
