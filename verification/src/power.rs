//! The battery component: the latest fuel-gauge reading, fed in by the
//! polling loop from the gauge driver, and the component's broker
//! participation. The gauge itself is an external collaborator; capacity is
//! carried in hundredths of a percent so the snapshot stays in plain
//! integer values.

use crate::server::{ServableDataReq, ServerData};
use vstd::prelude::*;

verus! {

/// The battery component's state: the last readings handed in from the
/// fuel gauge and the charge-indicating input pin.
#[derive(Clone, Copy, Debug)]
pub struct Power {
    /// Battery capacity in hundredths of a percent, once a reading arrived.
    pub capacity: Option<u32>,
    /// Whether the charge pin reports charging, once a reading arrived.
    pub charging: Option<bool>,
}

/// What the battery component answers to a read: its last readings, and
/// that a battery is attached.
pub open spec fn power_contribution(p: Power) -> ServerData {
    ServerData {
        brightness: None,
        on: None,
        ap_ssid_stored: None,
        ap_psk_stored: None,
        dexcom_user_stored: None,
        dexcom_pass_stored: None,
        bat_attached: Some(true),
        bat_charging: p.charging,
        bat_capacity: p.capacity,
        uptime: None,
        temp: None,
    }
}

impl Power {
    /// A component that has not seen a reading yet.
    pub fn new() -> (p: Self)
        ensures
            p.capacity is None,
            p.charging is None,
    {
        Power { capacity: None, charging: None }
    }

    /// Stores the latest gauge and charge-pin readings.
    pub fn set_readings(&mut self, capacity: u32, charging: bool)
        ensures
            *final(self) == (Power { capacity: Some(capacity), charging: Some(charging) }),
    {
        self.capacity = Some(capacity);
        self.charging = Some(charging);
    }

    /// A battery is attached; there is no way to sense otherwise.
    pub fn batt_connected(&self) -> (r: bool)
        ensures
            r,
    {
        true
    }

    /// A supply is connected; there is no way to sense otherwise.
    pub fn usb_connected(&self) -> (r: bool)
        ensures
            r,
    {
        true
    }

    /// Handles one broker request: a read is answered with the last
    /// readings; the component holds nothing a write, or a reset, could
    /// touch.
    pub fn handle_request(&mut self, req: &ServableDataReq) -> (rsp: Option<ServerData>)
        ensures
            *final(self) == *old(self),
            match req@ {
                crate::server::ServableDataReqV::Get => rsp == Some(
                    power_contribution(*old(self)),
                ),
                crate::server::ServableDataReqV::Write(_) => rsp is None,
                crate::server::ServableDataReqV::Reset => rsp is None,
            },
    {
        match req {
            ServableDataReq::Get => {
                let mut rsp = ServerData::new();
                rsp.bat_capacity = self.capacity;
                rsp.bat_charging = self.charging;
                rsp.bat_attached = Some(true);
                Some(rsp)
            },
            ServableDataReq::Write(_) => None,
            ServableDataReq::Reset => None,
        }
    }
}

} // verus!
