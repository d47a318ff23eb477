//! The indicator component: the colour a glucose value maps to, the lamp's
//! brightness/on state, its broker participation, and its durable record.
//! The LED hardware itself is an external collaborator: it is driven from
//! the pixel value this component computes.

use crate::server::{ServableDataReq, ServerData, ServerUpdateV};
use crate::settings::{clamped_brightness, DEFAULT_BRIGHTNESS};
use crate::storage::{lemma_dec_enc_bool, lemma_dec_enc_u8, read_bool, read_u8, spec_dec_bool, spec_dec_u8, spec_enc_bool, spec_enc_u8, write_bool, write_u8, Storable};
use vstd::arithmetic::div_mod::{lemma_basic_div, lemma_div_is_ordered, lemma_fundamental_div_mod_converse_div};
use vstd::arithmetic::mul::{lemma_mul_inequality, lemma_mul_upper_bound};
use vstd::prelude::*;

verus! {

/// The largest channel value of a colour.
pub const COLOR_MAX: u8 = 255;

/// A colour, one byte per channel.
#[derive(Clone, Copy, Debug, PartialEq, Eq, Structural)]
pub struct Rgb {
    pub r: u8,
    pub g: u8,
    pub b: u8,
}

impl Rgb {
    /// A colour from its three channels.
    pub fn new(r: u8, g: u8, b: u8) -> (c: Self)
        ensures
            c == (Rgb { r, g, b }),
    {
        Rgb { r, g, b }
    }
}

/// What the indicator renders: a steady colour, a breathing colour, or
/// nothing.
#[derive(Clone, Copy, Debug, PartialEq, Eq, Structural)]
pub enum LedState {
    Steady(Rgb),
    Breathe(Rgb),
    Off,
}

/// One channel of a point on the linear sweep from `s` to `e` in `total`
/// steps, at step `idx`: the exact integer interpolation, rounded towards
/// `s`.
pub open spec fn sweep_channel(s: u8, e: u8, total: int, idx: int) -> int {
    if e >= s {
        s + (idx * (e - s)) / total
    } else {
        s - ((idx * (s - e) + total - 1) / total)
    }
}

/// The interpolated channel stays between its two endpoints.
pub proof fn lemma_sweep_channel_in_range(s: u8, e: u8, total: int, idx: int)
    requires
        0 < total,
        0 <= idx < total,
    ensures
        0 <= sweep_channel(s, e, total, idx) <= 255,
        e >= s ==> s <= sweep_channel(s, e, total, idx) <= e,
        e < s ==> e <= sweep_channel(s, e, total, idx) <= s,
{
    if e >= s {
        let d = e - s;
        lemma_mul_inequality(idx, total - 1, d);
        assert(idx * d >= 0) by (nonlinear_arith)
            requires
                idx >= 0,
                d >= 0,
        ;
        assert((total - 1) * d == total * d - d) by (nonlinear_arith);
        lemma_div_is_ordered(0, idx * d, total);
        lemma_basic_div(0, total);
        lemma_div_is_ordered(idx * d, total * d, total);
        assert((total * d) / total == d) by {
            assert(total * d == d * total + 0) by (nonlinear_arith);
            lemma_fundamental_div_mod_converse_div(total * d, total, d, 0);
        }
    } else {
        let d = s - e;
        lemma_mul_inequality(idx, total - 1, d);
        assert(idx * d >= 0) by (nonlinear_arith)
            requires
                idx >= 0,
                d >= 0,
        ;
        assert((total - 1) * d == total * d - d) by (nonlinear_arith);
        lemma_div_is_ordered(0, idx * d + total - 1, total);
        lemma_basic_div(0, total);
        lemma_div_is_ordered(idx * d + total - 1, total * d + total - 1, total);
        assert((total * d + total - 1) / total == d) by {
            assert(total * d + total - 1 == d * total + (total - 1)) by (nonlinear_arith);
            lemma_fundamental_div_mod_converse_div(total * d + total - 1, total, d, total - 1);
        }
    }
}

/// One channel of the sweep, computed exactly.
fn sweep_channel_exec(s: u8, e: u8, total: usize, idx: isize) -> (r: u8)
    requires
        0 < total <= 65536,
        0 <= idx < total,
    ensures
        r as int == sweep_channel(s, e, total as int, idx as int),
{
    proof {
        lemma_sweep_channel_in_range(s, e, total as int, idx as int);
    }
    let t = total as u64;
    let i = idx as u64;
    if e >= s {
        let d = (e - s) as u64;
        proof {
            lemma_mul_upper_bound(i as int, 65536, d as int, 255);
        }
        let q = (i * d) / t;
        (s as u64 + q) as u8
    } else {
        let d = (s - e) as u64;
        proof {
            lemma_mul_upper_bound(i as int, 65536, d as int, 255);
        }
        let q = (i * d + t - 1) / t;
        (s as u64 - q) as u8
    }
}

/// A point on the linear colour sweep from `start_color` to `end_color` in
/// `total` steps, at step `idx`.
pub fn get_color_in_sweep(start_color: &Rgb, end_color: &Rgb, total: usize, idx: isize) -> (c: Rgb)
    requires
        0 < total <= 65536,
        0 <= idx < total,
    ensures
        c.r as int == sweep_channel(start_color.r, end_color.r, total as int, idx as int),
        c.g as int == sweep_channel(start_color.g, end_color.g, total as int, idx as int),
        c.b as int == sweep_channel(start_color.b, end_color.b, total as int, idx as int),
{
    Rgb {
        r: sweep_channel_exec(start_color.r, end_color.r, total, idx),
        g: sweep_channel_exec(start_color.g, end_color.g, total, idx),
        b: sweep_channel_exec(start_color.b, end_color.b, total, idx),
    }
}

/// The colour point `idx` of the way along the sweep, as a spec value.
pub open spec fn spec_sweep(start: Rgb, end: Rgb, total: int, idx: int) -> Rgb {
    Rgb {
        r: sweep_channel(start.r, end.r, total, idx) as u8,
        g: sweep_channel(start.g, end.g, total, idx) as u8,
        b: sweep_channel(start.b, end.b, total, idx) as u8,
    }
}

/// The deterministic value-to-indication mapping: breathing red below the
/// low band, a linear red-green-blue-purple sweep across the middle bands,
/// breathing purple in the high band, and breathing white beyond (and for
/// values below zero, which no reading produces).
pub open spec fn spec_from_glucose(value: int) -> LedState {
    let red = Rgb { r: 255u8, g: 0u8, b: 0u8 };
    let green = Rgb { r: 0u8, g: 255u8, b: 0u8 };
    let blue = Rgb { r: 0u8, g: 0u8, b: 255u8 };
    let purple = Rgb { r: 255u8, g: 0u8, b: 255u8 };
    let white = Rgb { r: 255u8, g: 255u8, b: 255u8 };
    if 0 <= value < 55 {
        LedState::Breathe(red)
    } else if 55 <= value < 152 {
        LedState::Steady(spec_sweep(red, green, 152 - 55, value - 55))
    } else if 152 <= value < 250 {
        LedState::Steady(spec_sweep(green, blue, 250 - 152, value - 152))
    } else if 250 <= value < 300 {
        LedState::Steady(spec_sweep(blue, purple, 300 - 250, value - 250))
    } else if 300 <= value < 500 {
        LedState::Breathe(purple)
    } else {
        LedState::Breathe(white)
    }
}

impl LedState {
    /// The indication a glucose value maps to.
    pub fn from_glucose(value: isize) -> (r: LedState)
        ensures
            r == spec_from_glucose(value as int),
    {
        let red = Rgb { r: 255, g: 0, b: 0 };
        let green = Rgb { r: 0, g: 255, b: 0 };
        let blue = Rgb { r: 0, g: 0, b: 255 };
        let purple = Rgb { r: 255, g: 0, b: 255 };
        let white = Rgb { r: 255, g: 255, b: 255 };
        if 0 <= value && value < 55 {
            LedState::Breathe(red)
        } else if 55 <= value && value < 152 {
            LedState::Steady(get_color_in_sweep(&red, &green, 152 - 55, value - 55))
        } else if 152 <= value && value < 250 {
            LedState::Steady(get_color_in_sweep(&green, &blue, 250 - 152, value - 152))
        } else if 250 <= value && value < 300 {
            LedState::Steady(get_color_in_sweep(&blue, &purple, 300 - 250, value - 250))
        } else if 300 <= value && value < 500 {
            LedState::Breathe(purple)
        } else {
            LedState::Breathe(white)
        }
    }
}

/// One channel of a colour scaled by the lamp's brightness level: the exact
/// proportion, rounded down; an off lamp shows nothing.
pub open spec fn scaled_channel(c: u8, brightness: u8, on: bool) -> int {
    if on {
        (c * brightness) / 255
    } else {
        0
    }
}

/// A scaled channel still fits a channel byte.
pub proof fn lemma_scaled_channel_in_range(c: u8, brightness: u8, on: bool)
    ensures
        0 <= scaled_channel(c, brightness, on) <= 255,
{
    if on {
        lemma_mul_inequality(c as int, 255, brightness as int);
        assert(c * brightness >= 0) by (nonlinear_arith)
            requires
                c >= 0,
                brightness >= 0,
        ;
        lemma_div_is_ordered(0, c * brightness, 255);
        lemma_basic_div(0, 255);
        lemma_div_is_ordered(c * brightness, 255 * (brightness as int), 255);
        lemma_div_is_ordered(255 * (brightness as int), 255int * 255int, 255);
        lemma_mul_inequality(brightness as int, 255, 255);
        assert(brightness * 255 == 255 * (brightness as int)) by (nonlinear_arith);
    }
}

/// A colour dimmed to the lamp's brightness; black when the lamp is off.
pub fn set_bright(color: &Rgb, brightness: u8, on: bool) -> (c: Rgb)
    ensures
        c.r as int == scaled_channel(color.r, brightness, on),
        c.g as int == scaled_channel(color.g, brightness, on),
        c.b as int == scaled_channel(color.b, brightness, on),
{
    if !on {
        return Rgb { r: 0, g: 0, b: 0 };
    }
    proof {
        lemma_scaled_channel_in_range(color.r, brightness, on);
        lemma_scaled_channel_in_range(color.g, brightness, on);
        lemma_scaled_channel_in_range(color.b, brightness, on);
    }
    Rgb {
        r: ((color.r as u32 * brightness as u32) / 255) as u8,
        g: ((color.g as u32 * brightness as u32) / 255) as u8,
        b: ((color.b as u32 * brightness as u32) / 255) as u8,
    }
}

/// The pixel a lamp state renders to.
pub open spec fn spec_pixel(l: Lamp) -> Rgb {
    match l.state {
        LedState::Steady(c) => Rgb {
            r: scaled_channel(c.r, l.brightness, l.on) as u8,
            g: scaled_channel(c.g, l.brightness, l.on) as u8,
            b: scaled_channel(c.b, l.brightness, l.on) as u8,
        },
        LedState::Breathe(c) => Rgb {
            r: scaled_channel(c.r, l.brightness, l.on) as u8,
            g: scaled_channel(c.g, l.brightness, l.on) as u8,
            b: scaled_channel(c.b, l.brightness, l.on) as u8,
        },
        LedState::Off => Rgb { r: 0u8, g: 0u8, b: 0u8 },
    }
}

/// What the lamp answers to a read: its brightness level and on flag.
pub open spec fn lamp_contribution(l: Lamp) -> ServerData {
    ServerData {
        brightness: Some(l.brightness),
        on: Some(l.on),
        ap_ssid_stored: None,
        ap_psk_stored: None,
        dexcom_user_stored: None,
        dexcom_pass_stored: None,
        bat_attached: None,
        bat_charging: None,
        bat_capacity: None,
        uptime: None,
        temp: None,
    }
}

/// The lamp component: the indication being rendered, the brightness level
/// and on flag (its durable fields), and the dirty flag that schedules
/// their persistence.
#[derive(Clone, Copy, Debug)]
pub struct Lamp {
    /// The indication being rendered; transient.
    pub state: LedState,
    /// Brightness level, durable.
    pub brightness: u8,
    /// Whether the lamp is on, durable.
    pub on: bool,
    /// Whether a change to the durable fields awaits its persistence write.
    pub save_data: bool,
}

/// The lamp state after an inbound write: the fields it recognises are
/// overwritten; a change to either schedules persistence.
pub open spec fn lamp_after_write(l: Lamp, u: ServerUpdateV) -> Lamp {
    let brightness = if u.brightness is Some { u.brightness->0 } else { l.brightness };
    let on = if u.on is Some { u.on->0 } else { l.on };
    Lamp {
        state: l.state,
        brightness,
        on,
        save_data: l.save_data || brightness != l.brightness || on != l.on,
    }
}

impl Lamp {
    /// A lamp that renders nothing, at the default brightness, switched on,
    /// with nothing to persist.
    pub fn new() -> (l: Self)
        ensures
            l == (Lamp {
                state: LedState::Off,
                brightness: DEFAULT_BRIGHTNESS,
                on: true,
                save_data: false,
            }),
    {
        Lamp { state: LedState::Off, brightness: DEFAULT_BRIGHTNESS, on: true, save_data: false }
    }

    /// Changes the rendered indication.
    pub fn set_color(&mut self, color: LedState)
        ensures
            *final(self) == (Lamp { state: color, ..*old(self) }),
    {
        self.state = color;
    }

    /// Sets the brightness level; a change schedules persistence.
    pub fn set_brightness(&mut self, brightness: u8)
        ensures
            *final(self) == (Lamp {
                brightness,
                save_data: old(self).save_data || brightness != old(self).brightness,
                ..*old(self)
            }),
    {
        if brightness != self.brightness {
            self.save_data = true;
        }
        self.brightness = brightness;
    }

    /// Adjusts the brightness level by a signed delta, clamped to the valid
    /// range; a change schedules persistence.
    pub fn change_brightness(&mut self, delta: i32)
        ensures
            *final(self) == (Lamp {
                brightness: clamped_brightness(old(self).brightness, delta),
                save_data: old(self).save_data || clamped_brightness(old(self).brightness, delta)
                    != old(self).brightness,
                ..*old(self)
            }),
    {
        let wide: i64 = self.brightness as i64 + delta as i64;
        let clamped: u8 = if wide > 255 {
            255
        } else if wide < 0 {
            0
        } else {
            wide as u8
        };
        self.set_brightness(clamped);
    }

    /// Switches the lamp on; a change schedules persistence.
    pub fn on(&mut self)
        ensures
            *final(self) == (Lamp {
                on: true,
                save_data: old(self).save_data || !old(self).on,
                ..*old(self)
            }),
    {
        if !self.on {
            self.save_data = true;
        }
        self.on = true;
    }

    /// Switches the lamp off; a change schedules persistence.
    pub fn off(&mut self)
        ensures
            *final(self) == (Lamp {
                on: false,
                save_data: old(self).save_data || old(self).on,
                ..*old(self)
            }),
    {
        if self.on {
            self.save_data = true;
        }
        self.on = false;
    }

    /// Flips the on flag and schedules persistence.
    pub fn toggle(&mut self)
        ensures
            *final(self) == (Lamp { on: !old(self).on, save_data: true, ..*old(self) }),
    {
        self.on = !self.on;
        self.save_data = true;
    }

    /// The pixel the hardware should show for the current state.
    pub fn current_pixel(&self) -> (c: Rgb)
        ensures
            c == spec_pixel(*self),
    {
        match self.state {
            LedState::Steady(color) => set_bright(&color, self.brightness, self.on),
            LedState::Breathe(color) => set_bright(&color, self.brightness, self.on),
            LedState::Off => Rgb { r: 0, g: 0, b: 0 },
        }
    }

    /// Whether a change to the durable fields awaits its persistence write.
    pub fn need_to_save(&self) -> (r: bool)
        ensures
            r == self.save_data,
    {
        self.save_data
    }

    /// Marks the pending change as persisted.
    pub fn saved(&mut self)
        ensures
            *final(self) == (Lamp { save_data: false, ..*old(self) }),
    {
        self.save_data = false;
    }

    /// Handles one broker request: a read is answered with the lamp's
    /// contribution, a write overwrites the fields it recognises, a reset
    /// reverts the durable fields to their defaults and schedules
    /// persistence.
    pub fn handle_request(&mut self, req: &ServableDataReq) -> (rsp: Option<ServerData>)
        ensures
            match req@ {
                crate::server::ServableDataReqV::Get => rsp == Some(lamp_contribution(*old(self)))
                    && *final(self) == *old(self),
                crate::server::ServableDataReqV::Write(u) => rsp is None && *final(self)
                    == lamp_after_write(*old(self), u),
                crate::server::ServableDataReqV::Reset => rsp is None && *final(self) == (Lamp {
                    state: old(self).state,
                    brightness: DEFAULT_BRIGHTNESS,
                    on: true,
                    save_data: true,
                }),
            },
    {
        match req {
            ServableDataReq::Get => {
                let mut rsp = ServerData::new();
                rsp.brightness = Some(self.brightness);
                rsp.on = Some(self.on);
                Some(rsp)
            },
            ServableDataReq::Write(update) => {
                if let Some(brightness) = update.brightness {
                    self.set_brightness(brightness);
                }
                if let Some(on) = update.on {
                    if on {
                        self.on();
                    } else {
                        self.off();
                    }
                }
                None
            },
            ServableDataReq::Reset => {
                self.brightness = DEFAULT_BRIGHTNESS;
                self.on = true;
                self.save_data = true;
                None
            },
        }
    }
}

/// The stored image of the lamp: the brightness byte, then the on flag.
pub open spec fn spec_enc_lamp(brightness: u8, on: bool) -> Seq<u8> {
    spec_enc_u8(brightness) + spec_enc_bool(on)
}

/// The lamp fields a blob decodes to, if it is a stored image.
pub open spec fn spec_dec_lamp(data: Seq<u8>) -> Option<(u8, bool)> {
    match spec_dec_u8(data) {
        None => None,
        Some((brightness, p1)) => match spec_dec_bool(data.skip(p1)) {
            None => None,
            Some((on, p2)) => if p1 + p2 == data.len() {
                Some((brightness, on))
            } else {
                None
            },
        },
    }
}

/// Decoding a stored lamp image reproduces the fields it was made from.
pub proof fn lemma_lamp_round_trip(brightness: u8, on: bool)
    ensures
        spec_dec_lamp(spec_enc_lamp(brightness, on)) == Some((brightness, on)),
{
    let eb = spec_enc_bool(on);
    lemma_dec_enc_u8(brightness, eb);
    assert(spec_enc_lamp(brightness, on).skip(1) =~= eb + Seq::<u8>::empty());
    lemma_dec_enc_bool(on, Seq::<u8>::empty());
}

impl Storable for Lamp {
    /// The durable part is the brightness level and the on flag.
    open spec fn spec_store_data(&self) -> Seq<u8> {
        spec_enc_lamp(self.brightness, self.on)
    }

    open spec fn spec_storable(&self) -> bool {
        true
    }

    open spec fn same_durable(&self, other: &Self) -> bool {
        self.brightness == other.brightness && self.on == other.on
    }

    open spec fn spec_store_tag(&self) -> Seq<char> {
        "lamp_state"@
    }

    fn store_tag(&self) -> (t: &'static str) {
        "lamp_state"
    }

    fn store_data(&self) -> (d: Vec<u8>) {
        let mut out: Vec<u8> = Vec::new();
        write_u8(&mut out, self.brightness);
        write_bool(&mut out, self.on);
        proof {
            assert(out@ =~= spec_enc_lamp(self.brightness, self.on));
        }
        out
    }

    fn recall_data(&mut self, data: &[u8]) -> (ok: bool) {
        proof {
            assert(data@.skip(0) =~= data@);
        }
        let decoded = match read_u8(data, 0) {
            Some((brightness, p1)) => match read_bool(data, p1) {
                Some((on, p2)) => if p2 == data.len() {
                    Some((brightness, on))
                } else {
                    None
                },
                None => None,
            },
            None => None,
        };
        match decoded {
            Some((brightness, on)) => {
                self.brightness = brightness;
                self.on = on;
                self.save_data = false;
                proof {
                    assert forall|x: Lamp|
                        x.spec_storable() && data@ == #[trigger] x.spec_store_data()
                            implies self.same_durable(&x) by {
                        lemma_lamp_round_trip(x.brightness, x.on);
                    }
                }
                true
            },
            None => {
                proof {
                    assert forall|x: Lamp|
                        x.spec_storable() && data@ == #[trigger] x.spec_store_data()
                            implies self.same_durable(&x) by {
                        lemma_lamp_round_trip(x.brightness, x.on);
                    }
                }
                false
            },
        }
    }
}

} // verus!
