//! The network credentials component: it owns the station-mode SSID and
//! passphrase, answers broker requests about them, and persists them under
//! its own tag. The radio itself is an external collaborator; association
//! and access-point bring-up are actions the coordinator requests.

use crate::server::{ServableDataReq, ServerData, ServerUpdateV};
use crate::storage::{decode_str_pair, lemma_str_pair_round_trip, opt_str_storable, spec_enc_str_pair, write_opt_str, Storable};
use vstd::prelude::*;

verus! {

/// Mathematical model of the wifi component.
#[verifier::ext_equal]
pub struct WifiV {
    pub ap_ssid: Option<Seq<char>>,
    pub ap_psk: Option<Seq<char>>,
    /// Whether a credential change awaits its persistence write.
    pub save_data: bool,
}

/// The wifi component's state: the stored network credentials and the
/// dirty flag that schedules their persistence.
#[derive(Debug)]
pub struct Wifi {
    ap_ssid: Option<String>,
    ap_psk: Option<String>,
    save_data: bool,
}

impl View for Wifi {
    type V = WifiV;

    closed spec fn view(&self) -> WifiV {
        WifiV {
            ap_ssid: self.ap_ssid.deep_view(),
            ap_psk: self.ap_psk.deep_view(),
            save_data: self.save_data,
        }
    }
}

/// What the wifi component answers to a read: whether each credential is
/// stored, and nothing else.
pub open spec fn wifi_contribution(w: WifiV) -> ServerData {
    ServerData {
        brightness: None,
        on: None,
        ap_ssid_stored: Some(w.ap_ssid is Some),
        ap_psk_stored: Some(w.ap_psk is Some),
        dexcom_user_stored: None,
        dexcom_pass_stored: None,
        bat_attached: None,
        bat_charging: None,
        bat_capacity: None,
        uptime: None,
        temp: None,
    }
}

/// The component state after an inbound write: the fields it recognises are
/// overwritten and schedule persistence, the rest are ignored.
pub open spec fn wifi_after_write(w: WifiV, u: ServerUpdateV) -> WifiV {
    WifiV {
        ap_ssid: if u.ap_ssid is Some { u.ap_ssid } else { w.ap_ssid },
        ap_psk: if u.ap_psk is Some { u.ap_psk } else { w.ap_psk },
        save_data: w.save_data || u.ap_ssid is Some || u.ap_psk is Some,
    }
}

impl Wifi {
    /// A component with no credentials and nothing to persist.
    pub fn new() -> (w: Self)
        ensures
            w@.ap_ssid is None,
            w@.ap_psk is None,
            !w@.save_data,
    {
        Wifi { ap_ssid: None, ap_psk: None, save_data: false }
    }

    /// Both network credentials are present.
    pub fn has_creds(&self) -> (r: bool)
        ensures
            r == (self@.ap_ssid is Some && self@.ap_psk is Some),
    {
        self.ap_ssid.is_some() && self.ap_psk.is_some()
    }

    /// Forgets the stored credentials and schedules a persistence write, as
    /// after repeated failed association attempts.
    pub fn reset_creds(&mut self)
        ensures
            final(self)@ == (WifiV { ap_ssid: None, ap_psk: None, save_data: true }),
    {
        self.ap_ssid = None;
        self.ap_psk = None;
        self.save_data = true;
    }

    /// The stored network name, for the radio configuration.
    pub fn ap_ssid(&self) -> (r: &Option<String>)
        ensures
            r.deep_view() == self@.ap_ssid,
    {
        &self.ap_ssid
    }

    /// The stored passphrase, for the radio configuration.
    pub fn ap_psk(&self) -> (r: &Option<String>)
        ensures
            r.deep_view() == self@.ap_psk,
    {
        &self.ap_psk
    }

    /// Whether a credential change awaits its persistence write.
    pub fn need_to_save(&self) -> (r: bool)
        ensures
            r == self@.save_data,
    {
        self.save_data
    }

    /// Marks the pending change as persisted.
    pub fn saved(&mut self)
        ensures
            final(self)@ == (WifiV { save_data: false, ..old(self)@ }),
    {
        self.save_data = false;
        proof {
            assert(self@ =~= (WifiV { save_data: false, ..old(self)@ }));
        }
    }

    /// Handles one broker request: a read is answered with this component's
    /// contribution, a write overwrites the fields it recognises, a reset
    /// reverts the credentials to their default (absent) and schedules
    /// persistence.
    pub fn handle_request(&mut self, req: &ServableDataReq) -> (rsp: Option<ServerData>)
        ensures
            match req@ {
                crate::server::ServableDataReqV::Get => rsp == Some(wifi_contribution(old(self)@))
                    && final(self)@ == old(self)@,
                crate::server::ServableDataReqV::Write(u) => rsp is None && final(self)@
                    == wifi_after_write(old(self)@, u),
                crate::server::ServableDataReqV::Reset => rsp is None && final(self)@ == (WifiV {
                    ap_ssid: None,
                    ap_psk: None,
                    save_data: true,
                }),
            },
    {
        match req {
            ServableDataReq::Get => {
                let mut rsp = ServerData::new();
                rsp.ap_ssid_stored = Some(self.ap_ssid.is_some());
                rsp.ap_psk_stored = Some(self.ap_psk.is_some());
                Some(rsp)
            },
            ServableDataReq::Write(update) => {
                if let Some(ap_ssid) = &update.ap_ssid {
                    self.ap_ssid = Some(ap_ssid.clone());
                    self.save_data = true;
                }
                if let Some(ap_psk) = &update.ap_psk {
                    self.ap_psk = Some(ap_psk.clone());
                    self.save_data = true;
                }
                proof {
                    assert(self@ =~= wifi_after_write(old(self)@, req@->0));
                }
                None
            },
            ServableDataReq::Reset => {
                self.reset_creds();
                None
            },
        }
    }
}

impl Storable for Wifi {
    /// The durable part is the credential pair.
    open spec fn spec_store_data(&self) -> Seq<u8> {
        spec_enc_str_pair(self@.ap_ssid, self@.ap_psk)
    }

    open spec fn spec_storable(&self) -> bool {
        opt_str_storable(self@.ap_ssid) && opt_str_storable(self@.ap_psk)
    }

    open spec fn same_durable(&self, other: &Self) -> bool {
        self@.ap_ssid == other@.ap_ssid && self@.ap_psk == other@.ap_psk
    }

    open spec fn spec_store_tag(&self) -> Seq<char> {
        "wifi_credentials"@
    }

    fn store_tag(&self) -> (t: &'static str) {
        "wifi_credentials"
    }

    fn store_data(&self) -> (d: Vec<u8>) {
        let mut out: Vec<u8> = Vec::new();
        write_opt_str(&mut out, &self.ap_ssid);
        write_opt_str(&mut out, &self.ap_psk);
        proof {
            assert(out@ =~= spec_enc_str_pair(self@.ap_ssid, self@.ap_psk));
        }
        out
    }

    fn recall_data(&mut self, data: &[u8]) -> (ok: bool) {
        match decode_str_pair(data) {
            Some((ap_ssid, ap_psk)) => {
                self.ap_ssid = ap_ssid;
                self.ap_psk = ap_psk;
                self.save_data = false;
                proof {
                    assert forall|x: Wifi|
                        x.spec_storable() && data@ == #[trigger] x.spec_store_data()
                            implies self.same_durable(&x) by {
                        lemma_str_pair_round_trip(x@.ap_ssid, x@.ap_psk);
                    }
                }
                true
            },
            None => {
                proof {
                    assert forall|x: Wifi|
                        x.spec_storable() && data@ == #[trigger] x.spec_store_data()
                            implies self.same_durable(&x) by {
                        lemma_str_pair_round_trip(x@.ap_ssid, x@.ap_psk);
                    }
                }
                false
            },
        }
    }
}

} // verus!
