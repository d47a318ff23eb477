//! The system component: the boot indicator flag, the latest uptime and
//! temperature readings fed in by the polling loop, and the component's
//! broker participation. The indicator pin and the temperature sensor are
//! external collaborators; temperature is carried in hundredths of a degree
//! so the snapshot stays in plain integer values.

use crate::server::{ServableDataReq, ServerData};
use vstd::prelude::*;

verus! {

/// The system component's state: the boot indicator and the last readings.
#[derive(Clone, Copy, Debug)]
pub struct Sys {
    /// Whether the boot indicator pin should be driven high.
    pub indicator: bool,
    /// Seconds since boot, once a reading arrived.
    pub uptime: Option<u64>,
    /// Temperature in hundredths of a degree, once a reading arrived.
    pub temp: Option<i32>,
}

/// What the system component answers to a read: uptime and temperature.
pub open spec fn sys_contribution(s: Sys) -> ServerData {
    ServerData {
        brightness: None,
        on: None,
        ap_ssid_stored: None,
        ap_psk_stored: None,
        dexcom_user_stored: None,
        dexcom_pass_stored: None,
        bat_attached: None,
        bat_charging: None,
        bat_capacity: None,
        uptime: s.uptime,
        temp: s.temp,
    }
}

impl Sys {
    /// A component with the indicator off and no readings yet.
    pub fn new() -> (s: Self)
        ensures
            !s.indicator,
            s.uptime is None,
            s.temp is None,
    {
        Sys { indicator: false, uptime: None, temp: None }
    }

    /// Asks for the boot indicator to be driven high.
    pub fn ind_on(&mut self)
        ensures
            *final(self) == (Sys { indicator: true, ..*old(self) }),
    {
        self.indicator = true;
    }

    /// Asks for the boot indicator to be driven low.
    pub fn ind_off(&mut self)
        ensures
            *final(self) == (Sys { indicator: false, ..*old(self) }),
    {
        self.indicator = false;
    }

    /// Stores the latest uptime and temperature readings.
    pub fn set_readings(&mut self, uptime: u64, temp: i32)
        ensures
            *final(self) == (Sys {
                uptime: Some(uptime),
                temp: Some(temp),
                ..*old(self)
            }),
    {
        self.uptime = Some(uptime);
        self.temp = Some(temp);
    }

    /// Handles one broker request: a read is answered with the last
    /// readings; the component holds nothing a write, or a reset, could
    /// touch.
    pub fn handle_request(&mut self, req: &ServableDataReq) -> (rsp: Option<ServerData>)
        ensures
            *final(self) == *old(self),
            match req@ {
                crate::server::ServableDataReqV::Get => rsp == Some(sys_contribution(*old(self))),
                crate::server::ServableDataReqV::Write(_) => rsp is None,
                crate::server::ServableDataReqV::Reset => rsp is None,
            },
    {
        match req {
            ServableDataReq::Get => {
                let mut rsp = ServerData::new();
                rsp.uptime = self.uptime;
                rsp.temp = self.temp;
                Some(rsp)
            },
            ServableDataReq::Write(_) => None,
            ServableDataReq::Reset => None,
        }
    }
}

} // verus!
