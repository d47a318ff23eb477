//! The assembled device: the settings store, the broker registry and the
//! five components, with the per-tick duties of the coordinator loop —
//! drain the store's update queue, let every component answer its mailbox,
//! and turn dirty flags into persistence jobs — and the synchronous read
//! fan-in that merges exactly one answer from every component.

use crate::dexcom::{dexcom_contribution, Dexcom, DexcomV};
use crate::lamp::{lamp_after_write, Lamp, LedState, Rgb};
use crate::power::{power_contribution, Power};
use crate::server::{empty_data, merged_all, merged_data, rsp_data, Broker, BrokerV, ServableDataReqV, ServableDataRsp, ServerData, ServerUpdate};
use crate::settings::{applied_action, default_settings, spec_enc_settings, AppSettings, AppSettingsDiff, SettingsAction, Store, StoreV, DEFAULT_BRIGHTNESS};
use crate::storage::{spec_enc_str_pair, Storable};
use crate::sys::{sys_contribution, Sys};
use crate::wifi::{wifi_after_write, wifi_contribution, Wifi, WifiV};
use crate::lamp::{lamp_contribution, spec_enc_lamp};
use vstd::prelude::*;

verus! {

/// Mailbox index of each component, in registration order.
pub const LAMP_ID: usize = 0;

pub const WIFI_ID: usize = 1;

pub const DEXCOM_ID: usize = 2;

pub const POWER_ID: usize = 3;

pub const SYS_ID: usize = 4;

/// How many components register with the broker.
pub const NUM_COMPONENTS: usize = 5;

/// One pending persistence write: a component's tag and its serialized
/// durable fields, to be handed to the storage engine.
#[derive(Debug)]
pub struct PersistJob {
    pub tag: &'static str,
    pub data: Vec<u8>,
}

/// Mathematical model of a persistence job.
#[verifier::ext_equal]
pub struct PersistJobV {
    pub tag: Seq<char>,
    pub data: Seq<u8>,
}

impl View for PersistJob {
    type V = PersistJobV;

    open spec fn view(&self) -> PersistJobV {
        PersistJobV { tag: self.tag@, data: self.data@ }
    }
}

impl DeepView for PersistJob {
    type V = PersistJobV;

    open spec fn deep_view(&self) -> PersistJobV {
        self.view()
    }
}

/// Mathematical model of the assembled device.
#[verifier::ext_equal]
pub struct DeviceV {
    pub store: StoreV,
    pub lamp: Lamp,
    pub wifi: WifiV,
    pub dexcom: DexcomV,
    pub power: Power,
    pub sys: Sys,
    pub broker: BrokerV,
}

/// The assembled device.
pub struct Device {
    store: Store,
    lamp: Lamp,
    wifi: Wifi,
    dexcom: Dexcom,
    power: Power,
    sys: Sys,
    broker: Broker,
}

impl View for Device {
    type V = DeviceV;

    closed spec fn view(&self) -> DeviceV {
        DeviceV {
            store: self.store@,
            lamp: self.lamp,
            wifi: self.wifi@,
            dexcom: self.dexcom@,
            power: self.power,
            sys: self.sys,
            broker: self.broker@,
        }
    }
}

/// The lamp after one mailbox request.
pub open spec fn lamp_after_req(l: Lamp, req: ServableDataReqV) -> Lamp {
    match req {
        ServableDataReqV::Get => l,
        ServableDataReqV::Write(u) => lamp_after_write(l, u),
        ServableDataReqV::Reset => Lamp {
            state: l.state,
            brightness: DEFAULT_BRIGHTNESS,
            on: true,
            save_data: true,
        },
    }
}

/// The wifi component after one mailbox request.
pub open spec fn wifi_after_req(w: WifiV, req: ServableDataReqV) -> WifiV {
    match req {
        ServableDataReqV::Get => w,
        ServableDataReqV::Write(u) => wifi_after_write(w, u),
        ServableDataReqV::Reset => WifiV { ap_ssid: None, ap_psk: None, save_data: true },
    }
}

/// The remote-service component after one mailbox request.
pub open spec fn dexcom_after_req(d: DexcomV, req: ServableDataReqV) -> DexcomV {
    match req {
        ServableDataReqV::Get => d,
        ServableDataReqV::Write(u) => crate::dexcom::dexcom_after_write(d, u),
        ServableDataReqV::Reset => DexcomV { user_name: None, user_pass: None, save_data: true },
    }
}

/// One non-blocking mailbox check per component: each component that has a
/// pending request takes the oldest one and applies it; the rest are
/// untouched.
pub open spec fn spec_components_ticked(d: DeviceV) -> DeviceV {
    DeviceV {
        store: d.store,
        lamp: if d.broker.inboxes[LAMP_ID as int].len() == 0 {
            d.lamp
        } else {
            lamp_after_req(d.lamp, d.broker.inboxes[LAMP_ID as int].first())
        },
        wifi: if d.broker.inboxes[WIFI_ID as int].len() == 0 {
            d.wifi
        } else {
            wifi_after_req(d.wifi, d.broker.inboxes[WIFI_ID as int].first())
        },
        dexcom: if d.broker.inboxes[DEXCOM_ID as int].len() == 0 {
            d.dexcom
        } else {
            dexcom_after_req(d.dexcom, d.broker.inboxes[DEXCOM_ID as int].first())
        },
        power: d.power,
        sys: d.sys,
        broker: BrokerV {
            inboxes: d.broker.inboxes.map_values(
                |ib: Seq<ServableDataReqV>|
                    if ib.len() == 0 {
                        ib
                    } else {
                        ib.drop_first()
                    },
            ),
            ..d.broker
        },
    }
}

/// The store after draining one queued update.
pub open spec fn spec_store_drained(s: StoreV) -> StoreV {
    if s.inbox.len() == 0 {
        s
    } else {
        let (settings, dirty) = applied_action(s.settings, s.dirty, s.inbox.first());
        StoreV { settings, dirty, inbox: s.inbox.drop_first() }
    }
}

/// The device with every dirty flag cleared, as after the persistence
/// drain.
pub open spec fn spec_cleared(d: DeviceV) -> DeviceV {
    DeviceV {
        store: StoreV { dirty: false, ..d.store },
        lamp: Lamp { save_data: false, ..d.lamp },
        wifi: WifiV { save_data: false, ..d.wifi },
        dexcom: DexcomV { save_data: false, ..d.dexcom },
        ..d
    }
}

/// The persistence writes one dirty-flag drain schedules: one job per dirty
/// durable component, and none for a clean one.
pub open spec fn spec_persist_jobs(d: DeviceV) -> Seq<PersistJobV> {
    let store_jobs: Seq<PersistJobV> = if d.store.dirty {
        seq![PersistJobV { tag: "settings"@, data: spec_enc_settings(d.store.settings) }]
    } else {
        Seq::empty()
    };
    let wifi_jobs: Seq<PersistJobV> = if d.wifi.save_data {
        seq![
            PersistJobV {
                tag: "wifi_credentials"@,
                data: spec_enc_str_pair(d.wifi.ap_ssid, d.wifi.ap_psk),
            },
        ]
    } else {
        Seq::empty()
    };
    let dexcom_jobs: Seq<PersistJobV> = if d.dexcom.save_data {
        seq![
            PersistJobV {
                tag: "dexcom_creds"@,
                data: spec_enc_str_pair(d.dexcom.user_name, d.dexcom.user_pass),
            },
        ]
    } else {
        Seq::empty()
    };
    let lamp_jobs: Seq<PersistJobV> = if d.lamp.save_data {
        seq![PersistJobV { tag: "lamp_state"@, data: spec_enc_lamp(d.lamp.brightness, d.lamp.on) }]
    } else {
        Seq::empty()
    };
    store_jobs + wifi_jobs + dexcom_jobs + lamp_jobs
}

/// The answers one complete read fan-in merges: the contribution of every
/// component, in registration order.
pub open spec fn spec_read_answers(d: DeviceV) -> Seq<ServerData> {
    seq![
        lamp_contribution(d.lamp),
        wifi_contribution(d.wifi),
        dexcom_contribution(d.dexcom),
        power_contribution(d.power),
        sys_contribution(d.sys),
    ]
}

/// The four storage tags are pairwise distinct: every durable component
/// writes under its own key of the shared namespace.
pub proof fn lemma_store_tags_unique()
    ensures
        "settings"@ != "wifi_credentials"@,
        "settings"@ != "dexcom_creds"@,
        "settings"@ != "lamp_state"@,
        "wifi_credentials"@ != "dexcom_creds"@,
        "wifi_credentials"@ != "lamp_state"@,
        "dexcom_creds"@ != "lamp_state"@,
{
    reveal_strlit("settings");
    reveal_strlit("wifi_credentials");
    reveal_strlit("dexcom_creds");
    reveal_strlit("lamp_state");
    assert("settings"@.len() == 8);
    assert("wifi_credentials"@.len() == 16);
    assert("dexcom_creds"@.len() == 12);
    assert("lamp_state"@.len() == 10);
}

/// Fan-in completeness: the merge of one answer from every component
/// carries every field some component supplied — each field of the
/// snapshot is exactly what its owning component answered, and a field is
/// absent only when no component supplied it.
pub proof fn lemma_read_snapshot_complete(d: DeviceV)
    ensures
        ({
            let m = merged_all(spec_read_answers(d));
            &&& m.brightness == Some(d.lamp.brightness)
            &&& m.on == Some(d.lamp.on)
            &&& m.ap_ssid_stored == Some(d.wifi.ap_ssid is Some)
            &&& m.ap_psk_stored == Some(d.wifi.ap_psk is Some)
            &&& m.dexcom_user_stored == Some(d.dexcom.user_name is Some)
            &&& m.dexcom_pass_stored == Some(d.dexcom.user_pass is Some)
            &&& m.bat_attached == Some(true)
            &&& m.bat_charging == d.power.charging
            &&& m.bat_capacity == d.power.capacity
            &&& m.uptime == d.sys.uptime
            &&& m.temp == d.sys.temp
        }),
{
    let rs = spec_read_answers(d);
    let r1 = seq![
        wifi_contribution(d.wifi),
        dexcom_contribution(d.dexcom),
        power_contribution(d.power),
        sys_contribution(d.sys),
    ];
    let r2 = seq![
        dexcom_contribution(d.dexcom),
        power_contribution(d.power),
        sys_contribution(d.sys),
    ];
    let r3 = seq![power_contribution(d.power), sys_contribution(d.sys)];
    let r4 = seq![sys_contribution(d.sys)];
    assert(rs.drop_first() =~= r1);
    assert(r1.drop_first() =~= r2);
    assert(r2.drop_first() =~= r3);
    assert(r3.drop_first() =~= r4);
    assert(r4.drop_first() =~= Seq::<ServerData>::empty());
    assert(merged_all(Seq::<ServerData>::empty()) == empty_data());
    assert(merged_all(r4) == merged_data(sys_contribution(d.sys), empty_data()));
    assert(merged_all(r3) == merged_data(power_contribution(d.power), merged_all(r4)));
    assert(merged_all(r2) == merged_data(dexcom_contribution(d.dexcom), merged_all(r3)));
    assert(merged_all(r1) == merged_data(wifi_contribution(d.wifi), merged_all(r2)));
    assert(merged_all(rs) == merged_data(lamp_contribution(d.lamp), merged_all(r1)));
}

impl Device {
    /// The device's structural invariant: every component keeps the mailbox
    /// it registered at startup, and no read fan-in is left open between
    /// calls.
    pub open spec fn wf(&self) -> bool {
        &&& self@.broker.inboxes.len() == NUM_COMPONENTS
        &&& !self@.broker.read_open
    }

    /// Builds the device: default store and components, each registered
    /// with the broker in the fixed order.
    pub fn new() -> (d: Self)
        ensures
            d.wf(),
            d@.store.settings == default_settings(),
            d@.store.inbox.len() == 0,
            !d@.store.dirty,
            d@.lamp == (Lamp {
                state: LedState::Off,
                brightness: DEFAULT_BRIGHTNESS,
                on: true,
                save_data: false,
            }),
            d@.wifi.ap_ssid is None && d@.wifi.ap_psk is None && !d@.wifi.save_data,
            d@.dexcom.user_name is None && d@.dexcom.user_pass is None && !d@.dexcom.save_data,
            d@.power.capacity is None && d@.power.charging is None,
            !d@.sys.indicator && d@.sys.uptime is None && d@.sys.temp is None,
            forall|i: int| 0 <= i < NUM_COMPONENTS ==> d@.broker.inboxes[i].len() == 0,
    {
        let mut broker = Broker::new();
        let _lamp_id = broker.register();
        let _wifi_id = broker.register();
        let _dexcom_id = broker.register();
        let _power_id = broker.register();
        let _sys_id = broker.register();
        Device {
            store: Store::new(),
            lamp: Lamp::new(),
            wifi: Wifi::new(),
            dexcom: Dexcom::new(),
            power: Power::new(),
            sys: Sys::new(),
            broker,
        }
    }

    /// A copy of the canonical configuration record.
    pub fn snapshot(&self) -> (s: AppSettings)
        ensures
            s@ == self@.store.settings,
    {
        self.store.snapshot()
    }

    /// Queues a store update from another execution context.
    pub fn push_update(&mut self, action: SettingsAction)
        ensures
            final(self)@ == (DeviceV {
                store: StoreV {
                    inbox: old(self)@.store.inbox.push(action@),
                    ..old(self)@.store
                },
                ..old(self)@
            }),
            final(self).wf() == old(self).wf(),
    {
        self.store.push_update(action);
        proof {
            assert(self@ =~= (DeviceV {
                store: StoreV { inbox: old(self)@.store.inbox.push(action@), ..old(self)@.store },
                ..old(self)@
            }));
        }
    }

    /// Applies a numeric diff to the store.
    pub fn modify_settings(&mut self, delta: &AppSettingsDiff)
        ensures
            final(self)@ == (DeviceV {
                store: StoreV {
                    settings: crate::settings::modified(old(self)@.store.settings, *delta),
                    dirty: old(self)@.store.dirty || crate::settings::modified(
                        old(self)@.store.settings,
                        *delta,
                    ) != old(self)@.store.settings,
                    ..old(self)@.store
                },
                ..old(self)@
            }),
            final(self).wf() == old(self).wf(),
    {
        self.store.modify(delta);
        proof {
            assert(self@ =~= (DeviceV {
                store: StoreV {
                    settings: crate::settings::modified(old(self)@.store.settings, *delta),
                    dirty: old(self)@.store.dirty || crate::settings::modified(
                        old(self)@.store.settings,
                        *delta,
                    ) != old(self)@.store.settings,
                    ..old(self)@.store
                },
                ..old(self)@
            }));
        }
    }

    /// Both network credentials are stored.
    pub fn has_wifi_creds(&self) -> (r: bool)
        ensures
            r == (self@.wifi.ap_ssid is Some && self@.wifi.ap_psk is Some),
    {
        self.wifi.has_creds()
    }

    /// The stored network name, for the radio configuration.
    pub fn wifi_ssid(&self) -> (r: &Option<String>)
        ensures
            r.deep_view() == self@.wifi.ap_ssid,
    {
        self.wifi.ap_ssid()
    }

    /// The stored passphrase, for the radio configuration.
    pub fn wifi_psk(&self) -> (r: &Option<String>)
        ensures
            r.deep_view() == self@.wifi.ap_psk,
    {
        self.wifi.ap_psk()
    }

    /// The stored remote-service account name, for the login calls.
    pub fn dexcom_user(&self) -> (r: &Option<String>)
        ensures
            r.deep_view() == self@.dexcom.user_name,
    {
        self.dexcom.user_name()
    }

    /// The stored remote-service password, for the login calls.
    pub fn dexcom_pass(&self) -> (r: &Option<String>)
        ensures
            r.deep_view() == self@.dexcom.user_pass,
    {
        self.dexcom.user_pass()
    }

    /// Both remote-service credentials are stored.
    pub fn has_dexcom_creds(&self) -> (r: bool)
        ensures
            r == (self@.dexcom.user_name is Some && self@.dexcom.user_pass is Some),
    {
        self.dexcom.has_creds()
    }

    /// Forgets the network credentials, as the coordinator asks after
    /// repeated failed association attempts.
    pub fn clear_wifi_creds(&mut self)
        ensures
            final(self)@ == (DeviceV {
                wifi: WifiV { ap_ssid: None, ap_psk: None, save_data: true },
                ..old(self)@
            }),
            final(self).wf() == old(self).wf(),
    {
        self.wifi.reset_creds();
        proof {
            assert(self@ =~= (DeviceV {
                wifi: WifiV { ap_ssid: None, ap_psk: None, save_data: true },
                ..old(self)@
            }));
        }
    }

    /// Forgets the remote-service credentials, as the coordinator asks
    /// after repeated failed session acquisitions.
    pub fn clear_dexcom_creds(&mut self)
        ensures
            final(self)@ == (DeviceV {
                dexcom: DexcomV { user_name: None, user_pass: None, save_data: true },
                ..old(self)@
            }),
            final(self).wf() == old(self).wf(),
    {
        self.dexcom.reset_creds();
        proof {
            assert(self@ =~= (DeviceV {
                dexcom: DexcomV { user_name: None, user_pass: None, save_data: true },
                ..old(self)@
            }));
        }
    }

    /// Renders an indication on the lamp.
    pub fn set_indication(&mut self, color: LedState)
        ensures
            final(self)@ == (DeviceV {
                lamp: Lamp { state: color, ..old(self)@.lamp },
                ..old(self)@
            }),
            final(self).wf() == old(self).wf(),
    {
        self.lamp.set_color(color);
        proof {
            assert(self@ =~= (DeviceV {
                lamp: Lamp { state: color, ..old(self)@.lamp },
                ..old(self)@
            }));
        }
    }

    /// The pixel the LED hardware should show now.
    pub fn current_pixel(&self) -> (c: Rgb)
        ensures
            c == crate::lamp::spec_pixel(self@.lamp),
    {
        self.lamp.current_pixel()
    }

    /// Adjusts the lamp's brightness by a signed delta, as the rotary
    /// encoder asks.
    pub fn change_brightness(&mut self, delta: i32)
        ensures
            final(self)@ == (DeviceV {
                lamp: Lamp {
                    brightness: crate::settings::clamped_brightness(
                        old(self)@.lamp.brightness,
                        delta,
                    ),
                    save_data: old(self)@.lamp.save_data || crate::settings::clamped_brightness(
                        old(self)@.lamp.brightness,
                        delta,
                    ) != old(self)@.lamp.brightness,
                    ..old(self)@.lamp
                },
                ..old(self)@
            }),
            final(self).wf() == old(self).wf(),
    {
        self.lamp.change_brightness(delta);
        proof {
            assert(self@ =~= (DeviceV {
                lamp: Lamp {
                    brightness: crate::settings::clamped_brightness(
                        old(self)@.lamp.brightness,
                        delta,
                    ),
                    save_data: old(self)@.lamp.save_data || crate::settings::clamped_brightness(
                        old(self)@.lamp.brightness,
                        delta,
                    ) != old(self)@.lamp.brightness,
                    ..old(self)@.lamp
                },
                ..old(self)@
            }));
        }
    }

    /// Flips the lamp on or off, as the encoder's push button asks.
    pub fn toggle_lamp(&mut self)
        ensures
            final(self)@ == (DeviceV {
                lamp: Lamp {
                    on: !old(self)@.lamp.on,
                    save_data: true,
                    ..old(self)@.lamp
                },
                ..old(self)@
            }),
            final(self).wf() == old(self).wf(),
    {
        self.lamp.toggle();
        proof {
            assert(self@ =~= (DeviceV {
                lamp: Lamp { on: !old(self)@.lamp.on, save_data: true, ..old(self)@.lamp },
                ..old(self)@
            }));
        }
    }

    /// Stores the latest battery readings.
    pub fn set_power_readings(&mut self, capacity: u32, charging: bool)
        ensures
            final(self)@ == (DeviceV {
                power: Power { capacity: Some(capacity), charging: Some(charging) },
                ..old(self)@
            }),
            final(self).wf() == old(self).wf(),
    {
        self.power.set_readings(capacity, charging);
        proof {
            assert(self@ =~= (DeviceV {
                power: Power { capacity: Some(capacity), charging: Some(charging) },
                ..old(self)@
            }));
        }
    }

    /// Stores the latest uptime and temperature readings.
    pub fn set_sys_readings(&mut self, uptime: u64, temp: i32)
        ensures
            final(self)@ == (DeviceV {
                sys: Sys { uptime: Some(uptime), temp: Some(temp), ..old(self)@.sys },
                ..old(self)@
            }),
            final(self).wf() == old(self).wf(),
    {
        self.sys.set_readings(uptime, temp);
        proof {
            assert(self@ =~= (DeviceV {
                sys: Sys { uptime: Some(uptime), temp: Some(temp), ..old(self)@.sys },
                ..old(self)@
            }));
        }
    }

    /// Fans an inbound sparse update out to every component's mailbox.
    pub fn broadcast_write(&mut self, update: &ServerUpdate)
        requires
            old(self).wf(),
        ensures
            final(self).wf(),
            final(self)@ == (DeviceV {
                broker: BrokerV {
                    inboxes: Seq::new(
                        old(self)@.broker.inboxes.len(),
                        |i: int|
                            old(self)@.broker.inboxes[i].push(
                                ServableDataReqV::Write(update@),
                            ),
                    ),
                    ..old(self)@.broker
                },
                ..old(self)@
            }),
    {
        self.broker.broadcast_write(update);
        proof {
            assert(self@ =~= (DeviceV {
                broker: BrokerV {
                    inboxes: Seq::new(
                        old(self)@.broker.inboxes.len(),
                        |i: int|
                            old(self)@.broker.inboxes[i].push(ServableDataReqV::Write(update@)),
                    ),
                    ..old(self)@.broker
                },
                ..old(self)@
            }));
        }
    }

    /// Fans the distinguished reset request out to every component's
    /// mailbox.
    pub fn broadcast_reset(&mut self)
        requires
            old(self).wf(),
        ensures
            final(self).wf(),
            final(self)@ == (DeviceV {
                broker: BrokerV {
                    inboxes: Seq::new(
                        old(self)@.broker.inboxes.len(),
                        |i: int| old(self)@.broker.inboxes[i].push(ServableDataReqV::Reset),
                    ),
                    ..old(self)@.broker
                },
                ..old(self)@
            }),
    {
        self.broker.broadcast_reset();
        proof {
            assert(self@ =~= (DeviceV {
                broker: BrokerV {
                    inboxes: Seq::new(
                        old(self)@.broker.inboxes.len(),
                        |i: int| old(self)@.broker.inboxes[i].push(ServableDataReqV::Reset),
                    ),
                    ..old(self)@.broker
                },
                ..old(self)@
            }));
        }
    }

    /// One non-blocking mailbox check per component, as each coordinator
    /// tick performs: a component with a pending request takes the oldest
    /// one and applies it; answers to stray read requests are discarded
    /// because no read is open.
    pub fn tick_components(&mut self)
        requires
            old(self).wf(),
        ensures
            final(self).wf(),
            final(self)@ == spec_components_ticked(old(self)@),
    {
        let _lamp_rsp = match self.broker.take_request(LAMP_ID) {
            Some(req) => self.lamp.handle_request(&req),
            None => None,
        };
        let _wifi_rsp = match self.broker.take_request(WIFI_ID) {
            Some(req) => self.wifi.handle_request(&req),
            None => None,
        };
        let _dexcom_rsp = match self.broker.take_request(DEXCOM_ID) {
            Some(req) => self.dexcom.handle_request(&req),
            None => None,
        };
        let _power_rsp = match self.broker.take_request(POWER_ID) {
            Some(req) => self.power.handle_request(&req),
            None => None,
        };
        let _sys_rsp = match self.broker.take_request(SYS_ID) {
            Some(req) => self.sys.handle_request(&req),
            None => None,
        };
        proof {
            assert(self@.broker.inboxes =~= spec_components_ticked(old(self)@).broker.inboxes);
            assert(self@ =~= spec_components_ticked(old(self)@));
        }
    }

    /// Drains one queued store update into a merge or reset.
    pub fn check_updates(&mut self)
        ensures
            final(self)@ == (DeviceV {
                store: spec_store_drained(old(self)@.store),
                ..old(self)@
            }),
            final(self).wf() == old(self).wf(),
    {
        self.store.check_updates();
        proof {
            assert(self@ =~= (DeviceV { store: spec_store_drained(old(self)@.store), ..old(self)@ }));
        }
    }

    /// Turns every dirty flag into exactly one persistence job and clears
    /// it: the at-most-one-write-per-change side of the persistence
    /// contract.
    pub fn persist_dirty(&mut self) -> (jobs: Vec<PersistJob>)
        ensures
            final(self)@ == spec_cleared(old(self)@),
            jobs.deep_view() == spec_persist_jobs(old(self)@),
            final(self).wf() == old(self).wf(),
    {
        let mut jobs: Vec<PersistJob> = Vec::new();
        if self.store.need_to_save() {
            jobs.push(PersistJob { tag: self.store.store_tag(), data: self.store.store_data() });
            self.store.saved();
        }
        if self.wifi.need_to_save() {
            jobs.push(PersistJob { tag: self.wifi.store_tag(), data: self.wifi.store_data() });
            self.wifi.saved();
        }
        if self.dexcom.need_to_save() {
            jobs.push(
                PersistJob { tag: self.dexcom.store_tag(), data: self.dexcom.store_data() },
            );
            self.dexcom.saved();
        }
        if self.lamp.need_to_save() {
            jobs.push(PersistJob { tag: self.lamp.store_tag(), data: self.lamp.store_data() });
            self.lamp.saved();
        }
        proof {
            assert(jobs.deep_view() =~~= spec_persist_jobs(old(self)@));
            assert(self@ =~= spec_cleared(old(self)@));
        }
        jobs
    }

    /// One full coordinator-loop tick, run in every state: drain one queued
    /// store update, let every component answer its mailbox, and turn the
    /// dirty flags into persistence writes.
    pub fn tick(&mut self) -> (jobs: Vec<PersistJob>)
        requires
            old(self).wf(),
        ensures
            final(self).wf(),
            final(self)@ == spec_cleared(
                spec_components_ticked(
                    DeviceV { store: spec_store_drained(old(self)@.store), ..old(self)@ },
                ),
            ),
            jobs.deep_view() == spec_persist_jobs(
                spec_components_ticked(
                    DeviceV { store: spec_store_drained(old(self)@.store), ..old(self)@ },
                ),
            ),
    {
        self.check_updates();
        self.tick_components();
        self.persist_dirty()
    }

    /// A complete read fan-in: one read request goes to every component,
    /// every component answers exactly once, and the answers merge, first
    /// writer wins, into one snapshot. Pending older requests are drained
    /// first, so the read is answered from every component's settled state;
    /// the fan-in closes after exactly one answer per component, never
    /// waiting on anything else.
    pub fn broadcast_read(&mut self) -> (snapshot: ServerData)
        requires
            old(self).wf(),
        ensures
            final(self).wf(),
            snapshot == merged_all(spec_read_answers(final(self)@)),
            final(self)@.store == old(self)@.store,
            final(self)@.power == old(self)@.power,
            final(self)@.sys == old(self)@.sys,
            forall|i: int|
                0 <= i < NUM_COMPONENTS ==> final(self)@.broker.inboxes[i].len() == 0,
    {
        loop
            invariant
                self.wf(),
                self@.store == old(self)@.store,
                self@.power == old(self)@.power,
                self@.sys == old(self)@.sys,
            ensures
                self.wf(),
                self@.store == old(self)@.store,
                self@.power == old(self)@.power,
                self@.sys == old(self)@.sys,
                forall|i: int|
                    0 <= i < NUM_COMPONENTS ==> self@.broker.inboxes[i].len() == 0,
            decreases
                    self@.broker.inboxes[LAMP_ID as int].len()
                        + self@.broker.inboxes[WIFI_ID as int].len() + self@.broker.inboxes[
                        DEXCOM_ID as int
                    ].len() + self@.broker.inboxes[POWER_ID as int].len() + self@.broker.inboxes[
                        SYS_ID as int
                    ].len(),
        {
            if self.broker.all_inboxes_empty() {
                break;
            }
            proof {
                if self@.broker.inboxes[0].len() == 0 && self@.broker.inboxes[1].len() == 0
                    && self@.broker.inboxes[2].len() == 0 && self@.broker.inboxes[3].len() == 0
                    && self@.broker.inboxes[4].len() == 0 {
                    assert forall|i: int|
                        0 <= i < self@.broker.inboxes.len()
                            implies self@.broker.inboxes[i].len() == 0 by {
                        assert(i == 0 || i == 1 || i == 2 || i == 3 || i == 4);
                    }
                    assert(false);
                }
            }
            self.tick_components();
        }
        self.broker.begin_read();
        let lamp_req = self.broker.take_request(LAMP_ID);
        let lamp_data = self.lamp.handle_request(&lamp_req.unwrap());
        self.broker.submit(ServableDataRsp::Data(lamp_data.unwrap()));
        let wifi_req = self.broker.take_request(WIFI_ID);
        let wifi_data = self.wifi.handle_request(&wifi_req.unwrap());
        self.broker.submit(ServableDataRsp::Data(wifi_data.unwrap()));
        let dexcom_req = self.broker.take_request(DEXCOM_ID);
        let dexcom_data = self.dexcom.handle_request(&dexcom_req.unwrap());
        self.broker.submit(ServableDataRsp::Data(dexcom_data.unwrap()));
        let power_req = self.broker.take_request(POWER_ID);
        let power_data = self.power.handle_request(&power_req.unwrap());
        self.broker.submit(ServableDataRsp::Data(power_data.unwrap()));
        let sys_req = self.broker.take_request(SYS_ID);
        let sys_data = self.sys.handle_request(&sys_req.unwrap());
        self.broker.submit(ServableDataRsp::Data(sys_data.unwrap()));
        proof {
            assert(self@.broker.replies =~= seq![
                ServableDataRsp::Data(lamp_contribution(self@.lamp)),
                ServableDataRsp::Data(wifi_contribution(self@.wifi)),
                ServableDataRsp::Data(dexcom_contribution(self@.dexcom)),
                ServableDataRsp::Data(power_contribution(self@.power)),
                ServableDataRsp::Data(sys_contribution(self@.sys)),
            ]);
        }
        let ghost answers = self@.broker.replies;
        let snapshot = self.broker.finish_read();
        proof {
            assert(answers.map_values(|r: ServableDataRsp| rsp_data(r)) =~= spec_read_answers(
                self@,
            ));
        }
        snapshot
    }

    /// Restores the store's durable record from a stored blob.
    pub fn recall_store(&mut self, data: &[u8]) -> (ok: bool)
        ensures
            forall|x: Store|
                x.spec_storable() && data@ == #[trigger] x.spec_store_data()
                    ==> final(self)@.store.settings == x@.settings,
            !ok ==> final(self)@ == old(self)@,
            final(self).wf() == old(self).wf(),
    {
        self.store.recall_data(data)
    }

    /// Restores the wifi component's credentials from a stored blob.
    pub fn recall_wifi(&mut self, data: &[u8]) -> (ok: bool)
        ensures
            forall|x: Wifi|
                x.spec_storable() && data@ == #[trigger] x.spec_store_data()
                    ==> final(self)@.wifi.ap_ssid == x@.ap_ssid && final(self)@.wifi.ap_psk
                    == x@.ap_psk,
            !ok ==> final(self)@ == old(self)@,
            final(self).wf() == old(self).wf(),
    {
        self.wifi.recall_data(data)
    }

    /// Restores the remote-service component's credentials from a stored
    /// blob.
    pub fn recall_dexcom(&mut self, data: &[u8]) -> (ok: bool)
        ensures
            forall|x: Dexcom|
                x.spec_storable() && data@ == #[trigger] x.spec_store_data()
                    ==> final(self)@.dexcom.user_name == x@.user_name
                    && final(self)@.dexcom.user_pass == x@.user_pass,
            !ok ==> final(self)@ == old(self)@,
            final(self).wf() == old(self).wf(),
    {
        self.dexcom.recall_data(data)
    }

    /// Restores the lamp's durable fields from a stored blob.
    pub fn recall_lamp(&mut self, data: &[u8]) -> (ok: bool)
        ensures
            forall|x: Lamp|
                x.spec_storable() && data@ == #[trigger] x.spec_store_data()
                    ==> final(self)@.lamp.brightness == x.brightness && final(self)@.lamp.on
                    == x.on,
            !ok ==> final(self)@ == old(self)@,
            final(self).wf() == old(self).wf(),
    {
        self.lamp.recall_data(data)
    }
}

} // verus!
