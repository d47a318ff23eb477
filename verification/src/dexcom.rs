//! The remote glucose service component: the stored account credentials,
//! the parsing of fetched readings (trend names and the timestamp embedded
//! in a reading's time field), and the component's broker participation.
//! The HTTP calls themselves are external collaborators driven by the
//! coordinator's actions.

use crate::server::{ServableDataReq, ServerData, ServerUpdateV};
use crate::storage::{decode_str_pair, lemma_str_pair_round_trip, opt_str_storable, spec_enc_str_pair, write_opt_str, Storable};
use vstd::prelude::*;
use vstd::string::StringSliceAdditionalSpecFns;

verus! {

/// Application identifier the remote service expects with every login call.
pub const APPLICATION_ID: &'static str = "d89443d2-327c-4a6f-89e5-496bbb0317db";

/// Base URL of the remote share service.
pub const BASE_URL: &'static str = "https://share1.dexcom.com/ShareWebServices/Services";

/// Endpoint that turns an account id into a session.
pub const LOGIN_ID_ENDPOINT: &'static str = "General/LoginPublisherAccountById";

/// Endpoint that turns account credentials into an account id.
pub const AUTHENTICATE_ENDPOINT: &'static str = "General/AuthenticatePublisherAccount";

/// Endpoint that returns the latest glucose readings.
pub const GLUCOSE_READINGS_ENDPOINT: &'static str = "Publisher/ReadPublisherLatestGlucoseValues";

/// The most readings one fetch may ask for.
pub const MAX_MAX_COUNT: isize = 288;

/// The trend arrow attached to a glucose reading.
#[derive(Clone, Copy, Debug, PartialEq, Eq, Structural)]
pub enum GlucoseTrend {
    NoTrend,
    DoubleUp,
    SingleUp,
    FortyFiveUp,
    Flat,
    FortyFiveDown,
    SingleDown,
    DoubleDown,
    NotComputable,
    RateOutOfRange,
}

/// The trend a textual trend name denotes; every unknown name denotes no
/// trend.
pub open spec fn spec_trend_from(s: Seq<char>) -> GlucoseTrend {
    if s == "DoubleUp"@ {
        GlucoseTrend::DoubleUp
    } else if s == "SingleUp"@ {
        GlucoseTrend::SingleUp
    } else if s == "FortyFiveUp"@ {
        GlucoseTrend::FortyFiveUp
    } else if s == "Flat"@ {
        GlucoseTrend::Flat
    } else if s == "FortyFiveDown"@ {
        GlucoseTrend::FortyFiveDown
    } else if s == "SingleDown"@ {
        GlucoseTrend::SingleDown
    } else if s == "DoubleDown"@ {
        GlucoseTrend::DoubleDown
    } else if s == "NotComputable"@ {
        GlucoseTrend::NotComputable
    } else if s == "RateOutOfRange"@ {
        GlucoseTrend::RateOutOfRange
    } else {
        GlucoseTrend::NoTrend
    }
}

/// Whether two strings hold the same characters, decided by comparing their
/// UTF-8 bytes.
fn str_eq(a: &str, b: &str) -> (r: bool)
    ensures
        r == (a@ == b@),
{
    let ab: &[u8] = a.as_bytes();
    let bb: &[u8] = b.as_bytes();
    if ab.len() != bb.len() {
        proof {
            if a@ == b@ {
                assert(a.spec_bytes() == b.spec_bytes());
            }
        }
        return false;
    }
    let n = ab.len();
    for i in 0..n
        invariant
            n == ab.len() == bb.len(),
            ab@ == a.spec_bytes(),
            bb@ == b.spec_bytes(),
            forall|j: int| 0 <= j < i ==> ab@[j] == bb@[j],
    {
        if ab[i] != bb[i] {
            proof {
                if a@ == b@ {
                    assert(a.spec_bytes() == b.spec_bytes());
                }
            }
            return false;
        }
    }
    proof {
        assert(a.spec_bytes() =~= b.spec_bytes());
        vstd::utf8::encode_utf8_decode_utf8(a@);
        vstd::utf8::encode_utf8_decode_utf8(b@);
    }
    true
}

impl GlucoseTrend {
    /// The trend a textual trend name denotes.
    pub fn from_str(trend: &str) -> (t: Self)
        ensures
            t == spec_trend_from(trend@),
    {
        if str_eq(trend, "DoubleUp") {
            Self::DoubleUp
        } else if str_eq(trend, "SingleUp") {
            Self::SingleUp
        } else if str_eq(trend, "FortyFiveUp") {
            Self::FortyFiveUp
        } else if str_eq(trend, "Flat") {
            Self::Flat
        } else if str_eq(trend, "FortyFiveDown") {
            Self::FortyFiveDown
        } else if str_eq(trend, "SingleDown") {
            Self::SingleDown
        } else if str_eq(trend, "DoubleDown") {
            Self::DoubleDown
        } else if str_eq(trend, "NotComputable") {
            Self::NotComputable
        } else if str_eq(trend, "RateOutOfRange") {
            Self::RateOutOfRange
        } else {
            Self::NoTrend
        }
    }
}

/// One fetched glucose measurement.
#[derive(Clone, Copy, Debug, PartialEq, Eq, Structural)]
pub struct GlucoseReading {
    /// Seconds-since-epoch timestamp carried in the reading's time field.
    pub time: i64,
    /// The measured value.
    pub value: isize,
    /// The trend arrow.
    pub trend: GlucoseTrend,
}

impl GlucoseReading {
    /// A zeroed reading with no trend.
    pub fn new() -> (r: Self)
        ensures
            r == (GlucoseReading { time: 0i64, value: 0isize, trend: GlucoseTrend::NoTrend }),
    {
        Self { time: 0, value: 0, trend: GlucoseTrend::NoTrend }
    }
}

/// Whether a character is a decimal digit.
pub open spec fn is_ascii_digit(c: char) -> bool {
    48 <= c as u32 <= 57
}

/// Whether every character of `s` is a decimal digit.
pub open spec fn all_digits(s: Seq<char>) -> bool {
    forall|i: int| 0 <= i < s.len() ==> is_ascii_digit(#[trigger] s[i])
}

/// The number a run of decimal digits denotes.
pub open spec fn digits_val(s: Seq<char>) -> int
    decreases s.len(),
{
    if s.len() == 0 {
        0
    } else {
        digits_val(s.drop_last()) * 10 + (s.last() as u32 - 48)
    }
}

/// Once a prefix of the digit run already denotes a number too large for a
/// 64-bit result, the whole run does as well.
pub proof fn lemma_digits_val_grows(s: Seq<char>, i: int)
    requires
        0 <= i <= s.len(),
        digits_val(s.take(i)) > i64::MAX,
    ensures
        digits_val(s) > i64::MAX,
    decreases s.len() - i,
{
    if i == s.len() {
        assert(s.take(i) =~= s);
    } else {
        assert(s.take(i + 1).drop_last() =~= s.take(i));
        assert(s.take(i + 1).last() == s[i]);
        assert(s[i] as u32 >= 0);
        assert(digits_val(s.take(i + 1)) == digits_val(s.take(i)) * 10 + (s[i] as u32 - 48));
        assert(digits_val(s.take(i + 1)) > i64::MAX);
        lemma_digits_val_grows(s, i + 1);
    }
}

/// The first position of `c` in `s`, if any.
pub open spec fn spec_find(s: Seq<char>, c: char) -> Option<int>
    decreases s.len(),
{
    if s.len() == 0 {
        None
    } else if s.first() == c {
        Some(0)
    } else {
        match spec_find(s.drop_first(), c) {
            Some(i) => Some(i + 1),
            None => None,
        }
    }
}

/// What the first position of `c` means: `c` is there, and nowhere earlier;
/// no position means `c` does not occur at all.
pub proof fn lemma_spec_find(s: Seq<char>, c: char)
    ensures
        match spec_find(s, c) {
            Some(i) => 0 <= i < s.len() && s[i] == c && forall|j: int| 0 <= j < i ==> s[j] != c,
            None => forall|j: int| 0 <= j < s.len() ==> s[j] != c,
        },
    decreases s.len(),
{
    if s.len() == 0 {
    } else if s.first() == c {
    } else {
        lemma_spec_find(s.drop_first(), c);
        match spec_find(s.drop_first(), c) {
            Some(i) => {
                assert(s[i + 1] == s.drop_first()[i]);
                assert forall|j: int| 0 <= j < i + 1 implies s[j] != c by {
                    if j > 0 {
                        assert(s[j] == s.drop_first()[j - 1]);
                    }
                }
            },
            None => {
                assert forall|j: int| 0 <= j < s.len() implies s[j] != c by {
                    if j > 0 {
                        assert(s[j] == s.drop_first()[j - 1]);
                    }
                }
            },
        }
    }
}

/// The timestamp a reading's time field carries: the digit run between the
/// first opening and the first closing parenthesis, read as a number. The
/// scan starts right after the first opening parenthesis, or at the second
/// character when there is none, and stops at the first closing parenthesis,
/// or at the end when there is none; anything but a plain digit run in that
/// range, or a number too large for 64 bits, carries no timestamp.
pub open spec fn spec_wt_timestamp(s: Seq<char>) -> Option<i64> {
    let start = 1 + match spec_find(s, '(') {
        Some(i) => i,
        None => 0,
    };
    let end = match spec_find(s, ')') {
        Some(i) => i,
        None => s.len() as int,
    };
    if start > end {
        None
    } else {
        let digits = s.subrange(start, end);
        if digits.len() > 0 && all_digits(digits) && digits_val(digits) <= i64::MAX {
            Some(digits_val(digits) as i64)
        } else {
            None
        }
    }
}

/// The first position of `c` in `wt`.
fn find_char(wt: &str, c: char) -> (r: Option<usize>)
    ensures
        match spec_find(wt@, c) {
            Some(i) => r is Some && r->0 == i,
            None => r is None,
        },
{
    proof {
        lemma_spec_find(wt@, c);
    }
    let n = wt.unicode_len();
    for i in 0..n
        invariant
            n == wt@.len(),
            forall|j: int| 0 <= j < i ==> wt@[j] != c,
    {
        if wt.get_char(i) == c {
            proof {
                lemma_spec_find(wt@, c);
                match spec_find(wt@, c) {
                    Some(k) => {
                        if k < i {
                            assert(wt@[k] != c);
                        } else if k > i {
                            assert(wt@[i as int] != c);
                        }
                    },
                    None => {
                        assert(wt@[i as int] != c);
                    },
                }
            }
            return Some(i);
        }
    }
    proof {
        lemma_spec_find(wt@, c);
        match spec_find(wt@, c) {
            Some(k) => {
                assert(wt@[k] != c);
            },
            None => {},
        }
    }
    None
}

/// Reads the timestamp out of a reading's time field, written there as the
/// digit run between parentheses.
#[verifier::loop_isolation(false)]
pub fn parse_wt_timestamp(wt: &str) -> (r: Option<i64>)
    ensures
        r == spec_wt_timestamp(wt@),
{
    let n = wt.unicode_len();
    let open_idx = find_char(wt, '(');
    let close_idx = find_char(wt, ')');
    proof {
        lemma_spec_find(wt@, '(');
        lemma_spec_find(wt@, ')');
    }
    let start: usize = match open_idx {
        Some(i) => i + 1,
        None => 1,
    };
    let end: usize = match close_idx {
        Some(i) => i,
        None => n,
    };
    if start > end {
        return None;
    }
    if start == end {
        return None;
    }
    let ghost digits = wt@.subrange(start as int, end as int);
    let mut acc: i64 = 0;
    let mut i = start;
    while i < end
        invariant
            start <= i <= end <= n,
            n == wt@.len(),
            digits == wt@.subrange(start as int, end as int),
            end > start,
            all_digits(digits.take(i - start)),
            acc == digits_val(digits.take(i - start)),
            0 <= acc <= i64::MAX,
        decreases end - i,
    {
        let c = wt.get_char(i);
        let u = c as u32;
        proof {
            assert(digits[i - start] == wt@[i as int]);
        }
        if u < 48 || u > 57 {
            proof {
                assert(!is_ascii_digit(digits[i - start]));
                assert(!all_digits(digits));
            }
            return None;
        }
        let d = (u - 48) as i64;
        let ghost prefix = digits.take(i - start);
        proof {
            assert(digits.take(i - start + 1).drop_last() =~= prefix);
            assert(digits.take(i - start + 1).last() == digits[i - start]);
            assert(digits_val(digits.take(i - start + 1)) == acc * 10 + d);
        }
        let next = match acc.checked_mul(10) {
            Some(x) => x.checked_add(d),
            None => None,
        };
        match next {
            Some(x) => {
                acc = x;
            },
            None => {
                proof {
                    assert(digits_val(digits.take(i - start + 1)) > i64::MAX);
                    lemma_digits_val_grows(digits, i - start + 1);
                }
                return None;
            },
        }
        proof {
            assert(all_digits(digits.take(i - start + 1))) by {
                assert(forall|j: int|
                    0 <= j < i - start ==> digits.take(i - start + 1)[j] == #[trigger] prefix[j]);
                assert(digits.take(i - start + 1)[i - start] == digits[i - start]);
            }
        }
        i += 1;
    }
    proof {
        assert(digits.take(end - start) =~= digits);
    }
    Some(acc)
}

/// Assembles a fetched reading from its raw parts: the textual time field,
/// the measured value and the textual trend name. There is no reading when
/// the time field carries no timestamp.
pub fn reading_from_parts(wt: &str, value: isize, trend: &str) -> (r: Option<GlucoseReading>)
    ensures
        match spec_wt_timestamp(wt@) {
            Some(t) => r == Some(
                GlucoseReading { time: t, value: value, trend: spec_trend_from(trend@) },
            ),
            None => r is None,
        },
{
    match parse_wt_timestamp(wt) {
        Some(time) => Some(
            GlucoseReading { time, value, trend: GlucoseTrend::from_str(trend) },
        ),
        None => None,
    }
}

/// The newest of a batch of fetched readings: the batch arrives newest
/// first, so it is the first one; an empty batch has none.
pub fn latest_reading(readings: &Vec<GlucoseReading>) -> (r: Option<GlucoseReading>)
    ensures
        readings@.len() > 0 ==> r == Some(readings@[0]),
        readings@.len() == 0 ==> r is None,
{
    if readings.len() > 0 {
        Some(readings[0])
    } else {
        None
    }
}

/// Mathematical model of the remote-service component.
#[verifier::ext_equal]
pub struct DexcomV {
    pub user_name: Option<Seq<char>>,
    pub user_pass: Option<Seq<char>>,
    /// Whether a credential change awaits its persistence write.
    pub save_data: bool,
}

/// The remote-service component's state: the stored account credentials and
/// the dirty flag that schedules their persistence.
#[derive(Debug)]
pub struct Dexcom {
    user_name: Option<String>,
    user_pass: Option<String>,
    save_data: bool,
}

impl View for Dexcom {
    type V = DexcomV;

    closed spec fn view(&self) -> DexcomV {
        DexcomV {
            user_name: self.user_name.deep_view(),
            user_pass: self.user_pass.deep_view(),
            save_data: self.save_data,
        }
    }
}

/// What the component answers to a read: whether each credential is stored.
pub open spec fn dexcom_contribution(d: DexcomV) -> ServerData {
    ServerData {
        brightness: None,
        on: None,
        ap_ssid_stored: None,
        ap_psk_stored: None,
        dexcom_user_stored: Some(d.user_name is Some),
        dexcom_pass_stored: Some(d.user_pass is Some),
        bat_attached: None,
        bat_charging: None,
        bat_capacity: None,
        uptime: None,
        temp: None,
    }
}

/// The component state after an inbound write.
pub open spec fn dexcom_after_write(d: DexcomV, u: ServerUpdateV) -> DexcomV {
    DexcomV {
        user_name: if u.dexcom_user is Some { u.dexcom_user } else { d.user_name },
        user_pass: if u.dexcom_pass is Some { u.dexcom_pass } else { d.user_pass },
        save_data: d.save_data || u.dexcom_user is Some || u.dexcom_pass is Some,
    }
}

impl Dexcom {
    /// A component with no credentials and nothing to persist.
    pub fn new() -> (d: Self)
        ensures
            d@.user_name is None,
            d@.user_pass is None,
            !d@.save_data,
    {
        Dexcom { user_name: None, user_pass: None, save_data: false }
    }

    /// Both account credentials are present.
    pub fn has_creds(&self) -> (r: bool)
        ensures
            r == (self@.user_name is Some && self@.user_pass is Some),
    {
        self.user_name.is_some() && self.user_pass.is_some()
    }

    /// The stored account name, for the login calls.
    pub fn user_name(&self) -> (r: &Option<String>)
        ensures
            r.deep_view() == self@.user_name,
    {
        &self.user_name
    }

    /// The stored account password, for the login calls.
    pub fn user_pass(&self) -> (r: &Option<String>)
        ensures
            r.deep_view() == self@.user_pass,
    {
        &self.user_pass
    }

    /// Forgets the stored credentials and schedules a persistence write, as
    /// after repeated failed session acquisitions.
    pub fn reset_creds(&mut self)
        ensures
            final(self)@ == (DexcomV { user_name: None, user_pass: None, save_data: true }),
    {
        self.user_name = None;
        self.user_pass = None;
        self.save_data = true;
    }

    /// Whether a credential change awaits its persistence write.
    pub fn need_to_save(&self) -> (r: bool)
        ensures
            r == self@.save_data,
    {
        self.save_data
    }

    /// Marks the pending change as persisted.
    pub fn saved(&mut self)
        ensures
            final(self)@ == (DexcomV { save_data: false, ..old(self)@ }),
    {
        self.save_data = false;
        proof {
            assert(self@ =~= (DexcomV { save_data: false, ..old(self)@ }));
        }
    }

    /// Handles one broker request: a read is answered with this component's
    /// contribution, a write overwrites the fields it recognises, a reset
    /// reverts the credentials to their default (absent) and schedules
    /// persistence.
    pub fn handle_request(&mut self, req: &ServableDataReq) -> (rsp: Option<ServerData>)
        ensures
            match req@ {
                crate::server::ServableDataReqV::Get => rsp == Some(
                    dexcom_contribution(old(self)@),
                ) && final(self)@ == old(self)@,
                crate::server::ServableDataReqV::Write(u) => rsp is None && final(self)@
                    == dexcom_after_write(old(self)@, u),
                crate::server::ServableDataReqV::Reset => rsp is None && final(self)@
                    == (DexcomV { user_name: None, user_pass: None, save_data: true }),
            },
    {
        match req {
            ServableDataReq::Get => {
                let mut rsp = ServerData::new();
                rsp.dexcom_user_stored = Some(self.user_name.is_some());
                rsp.dexcom_pass_stored = Some(self.user_pass.is_some());
                Some(rsp)
            },
            ServableDataReq::Write(update) => {
                if let Some(dexcom_user) = &update.dexcom_user {
                    self.user_name = Some(dexcom_user.clone());
                    self.save_data = true;
                }
                if let Some(dexcom_pass) = &update.dexcom_pass {
                    self.user_pass = Some(dexcom_pass.clone());
                    self.save_data = true;
                }
                proof {
                    assert(self@ =~= dexcom_after_write(old(self)@, req@->0));
                }
                None
            },
            ServableDataReq::Reset => {
                self.user_name = None;
                self.user_pass = None;
                self.save_data = true;
                None
            },
        }
    }
}

impl Storable for Dexcom {
    /// The durable part is the credential pair.
    open spec fn spec_store_data(&self) -> Seq<u8> {
        spec_enc_str_pair(self@.user_name, self@.user_pass)
    }

    open spec fn spec_storable(&self) -> bool {
        opt_str_storable(self@.user_name) && opt_str_storable(self@.user_pass)
    }

    open spec fn same_durable(&self, other: &Self) -> bool {
        self@.user_name == other@.user_name && self@.user_pass == other@.user_pass
    }

    open spec fn spec_store_tag(&self) -> Seq<char> {
        "dexcom_creds"@
    }

    fn store_tag(&self) -> (t: &'static str) {
        "dexcom_creds"
    }

    fn store_data(&self) -> (d: Vec<u8>) {
        let mut out: Vec<u8> = Vec::new();
        write_opt_str(&mut out, &self.user_name);
        write_opt_str(&mut out, &self.user_pass);
        proof {
            assert(out@ =~= spec_enc_str_pair(self@.user_name, self@.user_pass));
        }
        out
    }

    fn recall_data(&mut self, data: &[u8]) -> (ok: bool) {
        match decode_str_pair(data) {
            Some((user_name, user_pass)) => {
                self.user_name = user_name;
                self.user_pass = user_pass;
                self.save_data = false;
                proof {
                    assert forall|x: Dexcom|
                        x.spec_storable() && data@ == #[trigger] x.spec_store_data()
                            implies self.same_durable(&x) by {
                        lemma_str_pair_round_trip(x@.user_name, x@.user_pass);
                    }
                }
                true
            },
            None => {
                proof {
                    assert forall|x: Dexcom|
                        x.spec_storable() && data@ == #[trigger] x.spec_store_data()
                            implies self.same_durable(&x) by {
                        lemma_str_pair_round_trip(x@.user_name, x@.user_pass);
                    }
                }
                false
            },
        }
    }
}

} // verus!
