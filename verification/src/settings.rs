//! The settings store: the canonical configuration record, delta-merge and
//! diff-apply semantics, snapshots, narrow resets, and the change-triggered
//! persistence flag.

use crate::storage::{lemma_dec_enc_opt_str, lemma_dec_enc_opt_u8, opt_str_storable, read_opt_str, read_opt_u8, spec_dec_opt_str, spec_dec_opt_u8, spec_enc_opt_str, spec_enc_opt_u8, write_opt_str, write_opt_u8, Storable};
use vstd::prelude::*;

verus! {

/// Compiled-in default brightness level.
pub const DEFAULT_BRIGHTNESS: u8 = 64;

/// The capability of watching the store for configuration changes. Nothing
/// registers one in the assembled device: components learn of changes
/// through the broker instead.
pub trait Observer {
    /// Consumes one changed record; reports whether the observer acted on
    /// it.
    fn update(&mut self, state: &AppSettings) -> bool;
}

/// The configuration record. Every field is independently optional; a value
/// is present only once it has been configured or recalled from storage.
#[derive(Debug)]
pub struct AppSettings {
    pub ap_ssid: Option<String>,
    pub ap_psk: Option<String>,
    pub dexcom_user: Option<String>,
    pub dexcom_pass: Option<String>,
    pub brightness: Option<u8>,
}

/// Mathematical model of an [`AppSettings`] record: strings are sequences of
/// characters.
#[verifier::ext_equal]
pub struct AppSettingsV {
    pub ap_ssid: Option<Seq<char>>,
    pub ap_psk: Option<Seq<char>>,
    pub dexcom_user: Option<Seq<char>>,
    pub dexcom_pass: Option<Seq<char>>,
    pub brightness: Option<u8>,
}

impl View for AppSettings {
    type V = AppSettingsV;

    open spec fn view(&self) -> AppSettingsV {
        AppSettingsV {
            ap_ssid: self.ap_ssid.deep_view(),
            ap_psk: self.ap_psk.deep_view(),
            dexcom_user: self.dexcom_user.deep_view(),
            dexcom_pass: self.dexcom_pass.deep_view(),
            brightness: self.brightness,
        }
    }
}

/// The record a store starts from: nothing configured, default brightness.
pub open spec fn default_settings() -> AppSettingsV {
    AppSettingsV {
        ap_ssid: None,
        ap_psk: None,
        dexcom_user: None,
        dexcom_pass: None,
        brightness: Some(DEFAULT_BRIGHTNESS),
    }
}

/// Full-value merge: each field present in `delta` replaces the base field;
/// absent fields leave the base untouched.
pub open spec fn merged(base: AppSettingsV, delta: AppSettingsV) -> AppSettingsV {
    AppSettingsV {
        ap_ssid: if delta.ap_ssid is Some { delta.ap_ssid } else { base.ap_ssid },
        ap_psk: if delta.ap_psk is Some { delta.ap_psk } else { base.ap_psk },
        dexcom_user: if delta.dexcom_user is Some { delta.dexcom_user } else { base.dexcom_user },
        dexcom_pass: if delta.dexcom_pass is Some { delta.dexcom_pass } else { base.dexcom_pass },
        brightness: if delta.brightness is Some { delta.brightness } else { base.brightness },
    }
}

/// A merge reports a change exactly when the delta carries at least one field.
pub open spec fn merge_changes(delta: AppSettingsV) -> bool {
    ||| delta.ap_ssid is Some
    ||| delta.ap_psk is Some
    ||| delta.dexcom_user is Some
    ||| delta.dexcom_pass is Some
    ||| delta.brightness is Some
}

/// Merging the same delta twice leaves the record exactly as one merge does.
pub proof fn lemma_merge_idempotent(x: AppSettingsV, d: AppSettingsV)
    ensures
        merged(merged(x, d), d) == merged(x, d),
{
    assert(merged(merged(x, d), d) =~= merged(x, d));
}

/// A signed brightness delta added to `cur` and clamped to the valid range.
pub open spec fn clamped_brightness(cur: u8, d: i32) -> u8 {
    if cur + d > 255 {
        255u8
    } else if cur + d < 0 {
        0u8
    } else {
        (cur + d) as u8
    }
}

/// The result of a clamped diff always lies in the brightness range, whatever
/// the starting level and however large the delta.
pub proof fn lemma_diff_clamped(cur: u8, d: i32)
    ensures
        0 <= clamped_brightness(cur, d) <= 255,
        cur + d > 255 ==> clamped_brightness(cur, d) == 255,
        cur + d < 0 ==> clamped_brightness(cur, d) == 0,
{
}

/// The level a whole sequence of diffs leaves behind, applied oldest
/// first, each one clamped.
pub open spec fn applied_diffs(b: u8, ds: Seq<i32>) -> u8
    decreases ds.len(),
{
    if ds.len() == 0 {
        b
    } else {
        applied_diffs(clamped_brightness(b, ds.first()), ds.drop_first())
    }
}

/// Over any sequence of diffs the brightness level never leaves the valid
/// range, and a step that would overshoot lands exactly on the bound it
/// crossed before the remaining diffs apply.
pub proof fn lemma_diff_sequence_clamped(b: u8, ds: Seq<i32>)
    ensures
        0 <= applied_diffs(b, ds) <= 255,
        ds.len() > 0 && b + ds.first() > 255 ==> applied_diffs(b, ds) == applied_diffs(
            255u8,
            ds.drop_first(),
        ),
        ds.len() > 0 && b + ds.first() < 0 ==> applied_diffs(b, ds) == applied_diffs(
            0u8,
            ds.drop_first(),
        ),
{
}

/// Diff application: a present brightness delta is added to a present
/// brightness level and clamped; otherwise nothing changes.
pub open spec fn modified(base: AppSettingsV, delta: AppSettingsDiff) -> AppSettingsV {
    if delta.brightness is Some && base.brightness is Some {
        AppSettingsV {
            brightness: Some(clamped_brightness(base.brightness->0, delta.brightness->0)),
            ..base
        }
    } else {
        base
    }
}

impl Clone for AppSettings {
    fn clone(&self) -> (r: Self)
        ensures
            r@ == self@,
    {
        AppSettings {
            ap_ssid: self.ap_ssid.clone(),
            ap_psk: self.ap_psk.clone(),
            dexcom_user: self.dexcom_user.clone(),
            dexcom_pass: self.dexcom_pass.clone(),
            brightness: self.brightness,
        }
    }
}

impl AppSettings {
    /// An empty record with the compiled-in default brightness.
    pub fn new() -> (s: Self)
        ensures
            s@ == default_settings(),
    {
        AppSettings {
            ap_ssid: None,
            ap_psk: None,
            dexcom_user: None,
            dexcom_pass: None,
            brightness: Some(DEFAULT_BRIGHTNESS),
        }
    }

    /// Overwrites every field that is present in `delta`; reports whether the
    /// delta carried any field at all.
    pub fn merge(&mut self, delta: &AppSettings) -> (changed: bool)
        ensures
            final(self)@ == merged(old(self)@, delta@),
            changed == merge_changes(delta@),
    {
        let mut changed = false;

        if let Some(ap_ssid) = &delta.ap_ssid {
            self.ap_ssid = Some(ap_ssid.clone());
            changed = true;
        }
        if let Some(ap_psk) = &delta.ap_psk {
            self.ap_psk = Some(ap_psk.clone());
            changed = true;
        }
        if let Some(dexcom_user) = &delta.dexcom_user {
            self.dexcom_user = Some(dexcom_user.clone());
            changed = true;
        }
        if let Some(dexcom_pass) = &delta.dexcom_pass {
            self.dexcom_pass = Some(dexcom_pass.clone());
            changed = true;
        }
        if let Some(brightness) = &delta.brightness {
            self.brightness = Some(*brightness);
            changed = true;
        }

        proof {
            assert(self@ =~= merged(old(self)@, delta@));
        }
        changed
    }

    /// Applies a signed brightness delta, clamped to [0, 255]; reports whether
    /// the stored level actually changed.
    pub fn modify(&mut self, delta: &AppSettingsDiff) -> (changed: bool)
        ensures
            final(self)@ == modified(old(self)@, *delta),
            changed == (delta.brightness is Some && old(self).brightness is Some
                && clamped_brightness(old(self).brightness->0, delta.brightness->0)
                    != old(self).brightness->0),
    {
        let mut changed = false;
        if let Some(bright) = delta.brightness {
            if let Some(cur_bright) = self.brightness {
                let wide: i64 = cur_bright as i64 + bright as i64;
                let new_brightness: u8 = if wide > 255 {
                    255
                } else if wide < 0 {
                    0
                } else {
                    wide as u8
                };
                changed = new_brightness != cur_bright;
                self.brightness = Some(new_brightness);
            }
        }
        proof {
            assert(self@ =~= modified(old(self)@, *delta));
        }
        changed
    }

    /// Both network fields are present.
    pub fn has_wifi_creds(&self) -> (r: bool)
        ensures
            r == (self@.ap_ssid is Some && self@.ap_psk is Some),
    {
        self.ap_ssid.is_some() && self.ap_psk.is_some()
    }

    /// Both remote-service fields are present.
    pub fn has_dexcom_creds(&self) -> (r: bool)
        ensures
            r == (self@.dexcom_user is Some && self@.dexcom_pass is Some),
    {
        self.dexcom_user.is_some() && self.dexcom_pass.is_some()
    }
}

/// A sparse numeric diff: fields expressed as signed deltas.
#[derive(Clone, Copy, Debug)]
pub struct AppSettingsDiff {
    pub brightness: Option<i32>,
}

impl AppSettingsDiff {
    /// A diff that adjusts nothing.
    pub fn new() -> (d: Self)
        ensures
            d.brightness is None,
    {
        AppSettingsDiff { brightness: None }
    }

    /// Records a brightness adjustment in the diff.
    pub fn set_brightness_diff(&mut self, bright_change: i32)
        ensures
            final(self).brightness == Some(bright_change),
    {
        self.brightness = Some(bright_change);
    }
}

/// An update queued for the store from another execution context.
#[derive(Debug)]
pub enum SettingsAction {
    /// Merge a sparse record into the store.
    Merge(AppSettings),
    /// Revert the store to its compiled-in defaults.
    Reset,
}

/// Mathematical model of a queued update.
pub enum SettingsActionV {
    Merge(AppSettingsV),
    Reset,
}

impl View for SettingsAction {
    type V = SettingsActionV;

    open spec fn view(&self) -> SettingsActionV {
        match self {
            SettingsAction::Merge(s) => SettingsActionV::Merge(s@),
            SettingsAction::Reset => SettingsActionV::Reset,
        }
    }
}

impl DeepView for SettingsAction {
    type V = SettingsActionV;

    open spec fn deep_view(&self) -> SettingsActionV {
        self.view()
    }
}

/// The record and pending-persistence flag a queued action leaves behind.
pub open spec fn applied_action(
    s: AppSettingsV,
    dirty: bool,
    a: SettingsActionV,
) -> (AppSettingsV, bool) {
    match a {
        SettingsActionV::Merge(d) => (merged(s, d), dirty || merge_changes(d)),
        SettingsActionV::Reset => (default_settings(), true),
    }
}

/// Mathematical model of the settings store.
#[verifier::ext_equal]
pub struct StoreV {
    /// The canonical configuration record.
    pub settings: AppSettingsV,
    /// Updates queued from other execution contexts, oldest first.
    pub inbox: Seq<SettingsActionV>,
    /// Whether a mutation awaits its persistence write.
    pub dirty: bool,
}

/// The settings store: the single owner of the canonical configuration
/// record. Mutations go through merge and diff application; every mutation
/// that changed the record marks the store dirty, and the coordinator loop
/// drains the dirty flag into exactly one persistence write.
#[derive(Debug)]
pub struct Store {
    settings: AppSettings,
    inbox: Vec<SettingsAction>,
    dirty: bool,
}

impl View for Store {
    type V = StoreV;

    closed spec fn view(&self) -> StoreV {
        StoreV { settings: self.settings@, inbox: self.inbox.deep_view(), dirty: self.dirty }
    }
}

impl Store {
    /// A store holding the default record, with nothing queued and nothing
    /// to persist.
    pub fn new() -> (s: Self)
        ensures
            s@.settings == default_settings(),
            s@.inbox.len() == 0,
            !s@.dirty,
    {
        Store { settings: AppSettings::new(), inbox: Vec::new(), dirty: false }
    }

    /// Merges a sparse record into the store; a delta that carried any field
    /// leaves the store dirty until the next persistence write.
    pub fn set(&mut self, delta: &AppSettings)
        ensures
            final(self)@.settings == merged(old(self)@.settings, delta@),
            final(self)@.dirty == (old(self)@.dirty || merge_changes(delta@)),
            final(self)@.inbox == old(self)@.inbox,
    {
        let changed = self.settings.merge(delta);
        if changed {
            self.dirty = true;
        }
    }

    /// Applies a numeric diff to the record; the store becomes dirty only if
    /// the clamped result differs from the prior value.
    pub fn modify(&mut self, delta: &AppSettingsDiff)
        ensures
            final(self)@.settings == modified(old(self)@.settings, *delta),
            final(self)@.dirty == (old(self)@.dirty || final(self)@.settings
                != old(self)@.settings),
            final(self)@.inbox == old(self)@.inbox,
    {
        let changed = self.settings.modify(delta);
        if changed {
            self.dirty = true;
        }
        proof {
            if !changed {
                assert(self@.settings =~= old(self)@.settings);
            } else {
                assert(self@.settings.brightness != old(self)@.settings.brightness);
            }
        }
    }

    /// Reverts the record to the compiled-in defaults.
    pub fn reset(&mut self)
        ensures
            final(self)@.settings == default_settings(),
            final(self)@.dirty,
            final(self)@.inbox == old(self)@.inbox,
    {
        self.settings = AppSettings::new();
        self.dirty = true;
    }

    /// Forgets only the network credentials; every other field is kept.
    pub fn reset_wifi_creds(&mut self)
        ensures
            final(self)@.settings == (AppSettingsV {
                ap_ssid: None,
                ap_psk: None,
                ..old(self)@.settings
            }),
            final(self)@.dirty,
            final(self)@.inbox == old(self)@.inbox,
    {
        self.settings.ap_ssid = None;
        self.settings.ap_psk = None;
        self.dirty = true;
        proof {
            assert(self@.settings =~= (AppSettingsV {
                ap_ssid: None,
                ap_psk: None,
                ..old(self)@.settings
            }));
        }
    }

    /// Forgets only the remote-service credentials.
    pub fn reset_dexcom_creds(&mut self)
        ensures
            final(self)@.settings == (AppSettingsV {
                dexcom_user: None,
                dexcom_pass: None,
                ..old(self)@.settings
            }),
            final(self)@.dirty,
            final(self)@.inbox == old(self)@.inbox,
    {
        self.settings.dexcom_user = None;
        self.settings.dexcom_pass = None;
        self.dirty = true;
        proof {
            assert(self@.settings =~= (AppSettingsV {
                dexcom_user: None,
                dexcom_pass: None,
                ..old(self)@.settings
            }));
        }
    }

    /// An immutable copy of the record; readers never observe a partially
    /// merged state.
    pub fn snapshot(&self) -> (s: AppSettings)
        ensures
            s@ == self@.settings,
    {
        self.settings.clone()
    }

    /// Queues an update from another execution context; it is applied on the
    /// next drain.
    pub fn push_update(&mut self, action: SettingsAction)
        ensures
            final(self)@.inbox == old(self)@.inbox.push(action@),
            final(self)@.settings == old(self)@.settings,
            final(self)@.dirty == old(self)@.dirty,
    {
        self.inbox.push(action);
        proof {
            assert(self@.inbox =~= old(self)@.inbox.push(action@));
        }
    }

    /// Drains one queued update, oldest first, into a merge or reset; a
    /// no-op when nothing is queued.
    pub fn check_updates(&mut self)
        ensures
            old(self)@.inbox.len() == 0 ==> final(self)@ == old(self)@,
            old(self)@.inbox.len() > 0 ==> {
                let (s, d) = applied_action(
                    old(self)@.settings,
                    old(self)@.dirty,
                    old(self)@.inbox.first(),
                );
                final(self)@.settings == s && final(self)@.dirty == d && final(self)@.inbox
                    == old(self)@.inbox.drop_first()
            },
    {
        if self.inbox.len() == 0 {
            proof {
                assert(self@ =~= old(self)@);
            }
            return;
        }
        let action = self.inbox.remove(0);
        proof {
            assert(self@.inbox =~= old(self)@.inbox.drop_first());
            assert(action@ == old(self)@.inbox.first());
        }
        match action {
            SettingsAction::Merge(delta) => {
                self.set(&delta);
            },
            SettingsAction::Reset => {
                self.reset();
            },
        }
    }

    /// Whether a mutation still awaits its persistence write.
    pub fn need_to_save(&self) -> (r: bool)
        ensures
            r == self@.dirty,
    {
        self.dirty
    }

    /// Marks the pending mutation as persisted.
    pub fn saved(&mut self)
        ensures
            final(self)@ == (StoreV { dirty: false, ..old(self)@ }),
    {
        self.dirty = false;
        proof {
            assert(self@ =~= (StoreV { dirty: false, ..old(self)@ }));
        }
    }
}

/// The stored image of a configuration record: the four optional strings,
/// then the optional brightness byte.
pub open spec fn spec_enc_settings(r: AppSettingsV) -> Seq<u8> {
    spec_enc_opt_str(r.ap_ssid) + spec_enc_opt_str(r.ap_psk) + spec_enc_opt_str(r.dexcom_user)
        + spec_enc_opt_str(r.dexcom_pass) + spec_enc_opt_u8(r.brightness)
}

/// Whether a record fits the storage format.
pub open spec fn settings_storable(r: AppSettingsV) -> bool {
    &&& opt_str_storable(r.ap_ssid)
    &&& opt_str_storable(r.ap_psk)
    &&& opt_str_storable(r.dexcom_user)
    &&& opt_str_storable(r.dexcom_pass)
}

/// The record a blob decodes to, if it is a stored image.
pub open spec fn spec_dec_settings(data: Seq<u8>) -> Option<AppSettingsV> {
    match spec_dec_opt_str(data) {
        None => None,
        Some((ap_ssid, p1)) => match spec_dec_opt_str(data.skip(p1)) {
            None => None,
            Some((ap_psk, p2)) => match spec_dec_opt_str(data.skip(p1 + p2)) {
                None => None,
                Some((dexcom_user, p3)) => match spec_dec_opt_str(data.skip(p1 + p2 + p3)) {
                    None => None,
                    Some((dexcom_pass, p4)) => match spec_dec_opt_u8(
                        data.skip(p1 + p2 + p3 + p4),
                    ) {
                        None => None,
                        Some((brightness, p5)) => if p1 + p2 + p3 + p4 + p5 == data.len() {
                            Some(
                                AppSettingsV {
                                    ap_ssid,
                                    ap_psk,
                                    dexcom_user,
                                    dexcom_pass,
                                    brightness,
                                },
                            )
                        } else {
                            None
                        },
                    },
                },
            },
        },
    }
}

/// Decoding a stored image reproduces the record it was made from: the
/// round trip behind the persistence contract.
#[verifier::rlimit(60)]
pub proof fn lemma_settings_round_trip(r: AppSettingsV)
    requires
        settings_storable(r),
    ensures
        spec_dec_settings(spec_enc_settings(r)) == Some(r),
{
    let e1 = spec_enc_opt_str(r.ap_ssid);
    let e2 = spec_enc_opt_str(r.ap_psk);
    let e3 = spec_enc_opt_str(r.dexcom_user);
    let e4 = spec_enc_opt_str(r.dexcom_pass);
    let e5 = spec_enc_opt_u8(r.brightness);
    let full = spec_enc_settings(r);
    assert(full =~= e1 + (e2 + e3 + e4 + e5));
    lemma_dec_enc_opt_str(r.ap_ssid, e2 + e3 + e4 + e5);
    assert(full.skip(e1.len() as int) =~= e2 + (e3 + e4 + e5));
    lemma_dec_enc_opt_str(r.ap_psk, e3 + e4 + e5);
    assert(full.skip(e1.len() + e2.len() as int) =~= e3 + (e4 + e5));
    lemma_dec_enc_opt_str(r.dexcom_user, e4 + e5);
    assert(full.skip(e1.len() + e2.len() + e3.len() as int) =~= e4 + e5);
    lemma_dec_enc_opt_str(r.dexcom_pass, e5);
    assert(full.skip(e1.len() + e2.len() + e3.len() + e4.len() as int) =~= e5 + Seq::<u8>::empty());
    lemma_dec_enc_opt_u8(r.brightness, Seq::<u8>::empty());
    assert(spec_dec_settings(full) == Some(
        AppSettingsV {
            ap_ssid: r.ap_ssid,
            ap_psk: r.ap_psk,
            dexcom_user: r.dexcom_user,
            dexcom_pass: r.dexcom_pass,
            brightness: r.brightness,
        },
    ));
    assert(AppSettingsV {
        ap_ssid: r.ap_ssid,
        ap_psk: r.ap_psk,
        dexcom_user: r.dexcom_user,
        dexcom_pass: r.dexcom_pass,
        brightness: r.brightness,
    } =~= r);
}

/// Parses a stored image of a configuration record.
fn decode_settings(data: &[u8]) -> (r: Option<AppSettings>)
    ensures
        match spec_dec_settings(data@) {
            Some(v) => r is Some && r->0@ == v,
            None => r is None,
        },
{
    proof {
        assert(data@.skip(0) =~= data@);
    }
    let Some((ap_ssid, p1)) = read_opt_str(data, 0) else { return None };
    let Some((ap_psk, p2)) = read_opt_str(data, p1) else { return None };
    let Some((dexcom_user, p3)) = read_opt_str(data, p2) else { return None };
    let Some((dexcom_pass, p4)) = read_opt_str(data, p3) else { return None };
    let Some((brightness, p5)) = read_opt_u8(data, p4) else { return None };
    if p5 != data.len() {
        return None;
    }
    Some(AppSettings { ap_ssid, ap_psk, dexcom_user, dexcom_pass, brightness })
}

impl Storable for Store {
    /// The durable part of the store is the whole configuration record.
    open spec fn spec_store_data(&self) -> Seq<u8> {
        spec_enc_settings(self@.settings)
    }

    open spec fn spec_storable(&self) -> bool {
        settings_storable(self@.settings)
    }

    open spec fn same_durable(&self, other: &Self) -> bool {
        self@.settings == other@.settings
    }

    open spec fn spec_store_tag(&self) -> Seq<char> {
        "settings"@
    }

    fn store_tag(&self) -> (t: &'static str) {
        "settings"
    }

    fn store_data(&self) -> (d: Vec<u8>) {
        let mut out: Vec<u8> = Vec::new();
        write_opt_str(&mut out, &self.settings.ap_ssid);
        write_opt_str(&mut out, &self.settings.ap_psk);
        write_opt_str(&mut out, &self.settings.dexcom_user);
        write_opt_str(&mut out, &self.settings.dexcom_pass);
        write_opt_u8(&mut out, &self.settings.brightness);
        proof {
            assert(out@ =~= spec_enc_settings(self@.settings));
        }
        out
    }

    fn recall_data(&mut self, data: &[u8]) -> (ok: bool) {
        match decode_settings(data) {
            Some(settings) => {
                self.settings = settings;
                proof {
                    assert forall|x: Store|
                        x.spec_storable() && data@ == #[trigger] x.spec_store_data()
                            implies self.same_durable(&x) by {
                        lemma_settings_round_trip(x@.settings);
                    }
                }
                true
            },
            None => {
                proof {
                    assert forall|x: Store|
                        x.spec_storable() && data@ == #[trigger] x.spec_store_data()
                            implies self.same_durable(&x) by {
                        lemma_settings_round_trip(x@.settings);
                    }
                }
                false
            },
        }
    }
}

} // verus!
