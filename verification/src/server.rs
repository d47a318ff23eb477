//! The data broker: a registry of per-component mailboxes, fan-out of
//! write/reset requests, and the read fan-in that merges one answer from
//! every addressed component into a single snapshot, first writer wins.

use vstd::prelude::*;

verus! {

/// Cap on an inbound request body; larger bodies are rejected at the
/// boundary and never reach the broker.
pub const MAX_PAYLOAD_LEN: usize = 1024;

/// Whether an inbound request body is small enough to be parsed.
pub fn payload_fits(len: usize) -> (r: bool)
    ensures
        r == (len <= MAX_PAYLOAD_LEN),
{
    len <= MAX_PAYLOAD_LEN
}

/// A sparse inbound update: only present fields are applied by the component
/// that recognises them; absent fields are no-ops.
#[derive(Debug)]
pub struct ServerUpdate {
    pub brightness: Option<u8>,
    pub on: Option<bool>,
    pub ap_ssid: Option<String>,
    pub ap_psk: Option<String>,
    pub dexcom_user: Option<String>,
    pub dexcom_pass: Option<String>,
}

/// Mathematical model of a [`ServerUpdate`].
#[verifier::ext_equal]
pub struct ServerUpdateV {
    pub brightness: Option<u8>,
    pub on: Option<bool>,
    pub ap_ssid: Option<Seq<char>>,
    pub ap_psk: Option<Seq<char>>,
    pub dexcom_user: Option<Seq<char>>,
    pub dexcom_pass: Option<Seq<char>>,
}

impl View for ServerUpdate {
    type V = ServerUpdateV;

    open spec fn view(&self) -> ServerUpdateV {
        ServerUpdateV {
            brightness: self.brightness,
            on: self.on,
            ap_ssid: self.ap_ssid.deep_view(),
            ap_psk: self.ap_psk.deep_view(),
            dexcom_user: self.dexcom_user.deep_view(),
            dexcom_pass: self.dexcom_pass.deep_view(),
        }
    }
}

/// One component's contribution to a device snapshot: the same sparse
/// optional shape for every field any component might own. Battery capacity
/// is carried in hundredths of a percent and temperature in hundredths of a
/// degree, so the snapshot stays in plain integer values.
#[derive(Clone, Copy, Debug)]
pub struct ServerData {
    pub brightness: Option<u8>,
    pub on: Option<bool>,
    pub ap_ssid_stored: Option<bool>,
    pub ap_psk_stored: Option<bool>,
    pub dexcom_user_stored: Option<bool>,
    pub dexcom_pass_stored: Option<bool>,
    pub bat_attached: Option<bool>,
    pub bat_charging: Option<bool>,
    pub bat_capacity: Option<u32>,
    pub uptime: Option<u64>,
    pub temp: Option<i32>,
}

/// The snapshot with every field absent.
pub open spec fn empty_data() -> ServerData {
    ServerData {
        brightness: None,
        on: None,
        ap_ssid_stored: None,
        ap_psk_stored: None,
        dexcom_user_stored: None,
        dexcom_pass_stored: None,
        bat_attached: None,
        bat_charging: None,
        bat_capacity: None,
        uptime: None,
        temp: None,
    }
}

/// First writer wins: a field already set in `acc` is kept, an absent one is
/// taken from the later answer `next`.
pub open spec fn merged_data(acc: ServerData, next: ServerData) -> ServerData {
    ServerData {
        brightness: if acc.brightness is Some { acc.brightness } else { next.brightness },
        on: if acc.on is Some { acc.on } else { next.on },
        ap_ssid_stored: if acc.ap_ssid_stored is Some { acc.ap_ssid_stored } else {
            next.ap_ssid_stored
        },
        ap_psk_stored: if acc.ap_psk_stored is Some { acc.ap_psk_stored } else {
            next.ap_psk_stored
        },
        dexcom_user_stored: if acc.dexcom_user_stored is Some { acc.dexcom_user_stored } else {
            next.dexcom_user_stored
        },
        dexcom_pass_stored: if acc.dexcom_pass_stored is Some { acc.dexcom_pass_stored } else {
            next.dexcom_pass_stored
        },
        bat_attached: if acc.bat_attached is Some { acc.bat_attached } else { next.bat_attached },
        bat_charging: if acc.bat_charging is Some { acc.bat_charging } else { next.bat_charging },
        bat_capacity: if acc.bat_capacity is Some { acc.bat_capacity } else { next.bat_capacity },
        uptime: if acc.uptime is Some { acc.uptime } else { next.uptime },
        temp: if acc.temp is Some { acc.temp } else { next.temp },
    }
}

/// The merge of a whole sequence of answers, earliest answer first.
pub open spec fn merged_all(rs: Seq<ServerData>) -> ServerData
    decreases rs.len(),
{
    if rs.len() == 0 {
        empty_data()
    } else {
        merged_data(rs.first(), merged_all(rs.drop_first()))
    }
}

/// The first present value in a sequence of optional answers.
pub open spec fn first_write<T>(s: Seq<Option<T>>) -> Option<T>
    decreases s.len(),
{
    if s.len() == 0 {
        None
    } else if s.first() is Some {
        s.first()
    } else {
        first_write(s.drop_first())
    }
}

/// An empty answer on either side leaves a snapshot unchanged.
pub proof fn lemma_merged_data_empty(d: ServerData)
    ensures
        merged_data(d, empty_data()) == d,
        merged_data(empty_data(), d) == d,
{
}

/// The first-writer-wins merge of snapshots is associative.
pub proof fn lemma_merged_data_assoc(a: ServerData, b: ServerData, c: ServerData)
    ensures
        merged_data(merged_data(a, b), c) == merged_data(a, merged_data(b, c)),
{
}

/// Merging answers one at a time, earliest first, is the same as the merge of
/// the whole sequence.
pub proof fn lemma_merged_all_push(rs: Seq<ServerData>, d: ServerData)
    ensures
        merged_all(rs.push(d)) == merged_data(merged_all(rs), d),
    decreases rs.len(),
{
    let s = rs.push(d);
    if rs.len() == 0 {
        assert(merged_all(rs) == empty_data());
        assert(s.first() == d);
        assert(s.drop_first() =~= Seq::<ServerData>::empty());
        assert(merged_all(s.drop_first()) == empty_data());
        assert(merged_all(s) == merged_data(d, empty_data()));
        lemma_merged_data_empty(d);
    } else {
        assert(s.first() == rs.first());
        assert(s.drop_first() =~= rs.drop_first().push(d));
        assert(merged_all(s) == merged_data(rs.first(), merged_all(rs.drop_first().push(d))));
        lemma_merged_all_push(rs.drop_first(), d);
        assert(merged_all(rs) == merged_data(rs.first(), merged_all(rs.drop_first())));
        lemma_merged_data_assoc(rs.first(), merged_all(rs.drop_first()), d);
    }
}

/// Every field of the merged snapshot is exactly the first value any answer
/// supplied for it; in particular a field is absent in the merge only if no
/// answer ever supplied it.
pub proof fn lemma_fan_in_first_writer(rs: Seq<ServerData>)
    ensures
        merged_all(rs).brightness == first_write(rs.map_values(|d: ServerData| d.brightness)),
        merged_all(rs).on == first_write(rs.map_values(|d: ServerData| d.on)),
        merged_all(rs).ap_ssid_stored == first_write(
            rs.map_values(|d: ServerData| d.ap_ssid_stored),
        ),
        merged_all(rs).ap_psk_stored == first_write(
            rs.map_values(|d: ServerData| d.ap_psk_stored),
        ),
        merged_all(rs).dexcom_user_stored == first_write(
            rs.map_values(|d: ServerData| d.dexcom_user_stored),
        ),
        merged_all(rs).dexcom_pass_stored == first_write(
            rs.map_values(|d: ServerData| d.dexcom_pass_stored),
        ),
        merged_all(rs).bat_attached == first_write(
            rs.map_values(|d: ServerData| d.bat_attached),
        ),
        merged_all(rs).bat_charging == first_write(
            rs.map_values(|d: ServerData| d.bat_charging),
        ),
        merged_all(rs).bat_capacity == first_write(
            rs.map_values(|d: ServerData| d.bat_capacity),
        ),
        merged_all(rs).uptime == first_write(rs.map_values(|d: ServerData| d.uptime)),
        merged_all(rs).temp == first_write(rs.map_values(|d: ServerData| d.temp)),
    decreases rs.len(),
{
    if rs.len() == 0 {
    } else {
        lemma_fan_in_first_writer(rs.drop_first());
        assert(rs.map_values(|d: ServerData| d.brightness).drop_first() =~= rs.drop_first()
            .map_values(|d: ServerData| d.brightness));
        assert(rs.map_values(|d: ServerData| d.on).drop_first() =~= rs.drop_first().map_values(
            |d: ServerData| d.on,
        ));
        assert(rs.map_values(|d: ServerData| d.ap_ssid_stored).drop_first() =~= rs.drop_first()
            .map_values(|d: ServerData| d.ap_ssid_stored));
        assert(rs.map_values(|d: ServerData| d.ap_psk_stored).drop_first() =~= rs.drop_first()
            .map_values(|d: ServerData| d.ap_psk_stored));
        assert(rs.map_values(|d: ServerData| d.dexcom_user_stored).drop_first() =~= rs.drop_first()
            .map_values(|d: ServerData| d.dexcom_user_stored));
        assert(rs.map_values(|d: ServerData| d.dexcom_pass_stored).drop_first() =~= rs.drop_first()
            .map_values(|d: ServerData| d.dexcom_pass_stored));
        assert(rs.map_values(|d: ServerData| d.bat_attached).drop_first() =~= rs.drop_first()
            .map_values(|d: ServerData| d.bat_attached));
        assert(rs.map_values(|d: ServerData| d.bat_charging).drop_first() =~= rs.drop_first()
            .map_values(|d: ServerData| d.bat_charging));
        assert(rs.map_values(|d: ServerData| d.bat_capacity).drop_first() =~= rs.drop_first()
            .map_values(|d: ServerData| d.bat_capacity));
        assert(rs.map_values(|d: ServerData| d.uptime).drop_first() =~= rs.drop_first().map_values(
            |d: ServerData| d.uptime,
        ));
        assert(rs.map_values(|d: ServerData| d.temp).drop_first() =~= rs.drop_first().map_values(
            |d: ServerData| d.temp,
        ));
    }
}

/// A sequence of optional answers has no first present value exactly when
/// none of its entries is present.
pub proof fn lemma_first_write_none<T>(s: Seq<Option<T>>)
    ensures
        (first_write(s) is None) <==> (forall|i: int| 0 <= i < s.len() ==> s[i] is None),
    decreases s.len(),
{
    if s.len() == 0 {
    } else {
        lemma_first_write_none(s.drop_first());
        if s.first() is None && first_write(s.drop_first()) is None {
            assert forall|i: int| 0 <= i < s.len() implies s[i] is None by {
                if i > 0 {
                    assert(s[i] == s.drop_first()[i - 1]);
                }
            }
        }
    }
}

/// The first present value comes from the earliest answer that supplied one.
pub proof fn lemma_first_write_index<T>(s: Seq<Option<T>>, j: int)
    requires
        0 <= j < s.len(),
        s[j] is Some,
        forall|i: int| 0 <= i < j ==> s[i] is None,
    ensures
        first_write(s) == s[j],
    decreases s.len(),
{
    if j == 0 {
    } else {
        assert forall|i: int| 0 <= i < j - 1 implies s.drop_first()[i] is None by {
            assert(s.drop_first()[i] == s[i + 1]);
        }
        lemma_first_write_index(s.drop_first(), j - 1);
    }
}

impl ServerData {
    /// A snapshot with every field absent.
    pub fn new() -> (d: Self)
        ensures
            d == empty_data(),
    {
        ServerData {
            brightness: None,
            on: None,
            ap_ssid_stored: None,
            ap_psk_stored: None,
            dexcom_user_stored: None,
            dexcom_pass_stored: None,
            bat_attached: None,
            bat_charging: None,
            bat_capacity: None,
            uptime: None,
            temp: None,
        }
    }

    /// Fills every still-absent field from a later answer; fields already set
    /// are kept.
    pub fn merge(&mut self, other: &ServerData)
        ensures
            *final(self) == merged_data(*old(self), *other),
    {
        if self.brightness.is_none() {
            self.brightness = other.brightness;
        }
        if self.on.is_none() {
            self.on = other.on;
        }
        if self.ap_ssid_stored.is_none() {
            self.ap_ssid_stored = other.ap_ssid_stored;
        }
        if self.ap_psk_stored.is_none() {
            self.ap_psk_stored = other.ap_psk_stored;
        }
        if self.dexcom_user_stored.is_none() {
            self.dexcom_user_stored = other.dexcom_user_stored;
        }
        if self.dexcom_pass_stored.is_none() {
            self.dexcom_pass_stored = other.dexcom_pass_stored;
        }
        if self.bat_attached.is_none() {
            self.bat_attached = other.bat_attached;
        }
        if self.bat_charging.is_none() {
            self.bat_charging = other.bat_charging;
        }
        if self.bat_capacity.is_none() {
            self.bat_capacity = other.bat_capacity;
        }
        if self.uptime.is_none() {
            self.uptime = other.uptime;
        }
        if self.temp.is_none() {
            self.temp = other.temp;
        }
    }
}

/// A request fanned out to the registered components. A read expects the
/// component to answer into the broker's reply mailbox; a write and a reset
/// are fire-and-forget.
#[derive(Debug)]
pub enum ServableDataReq {
    Get,
    Write(ServerUpdate),
    Reset,
}

/// Mathematical model of a request.
pub enum ServableDataReqV {
    Get,
    Write(ServerUpdateV),
    Reset,
}

impl View for ServableDataReq {
    type V = ServableDataReqV;

    open spec fn view(&self) -> ServableDataReqV {
        match self {
            ServableDataReq::Get => ServableDataReqV::Get,
            ServableDataReq::Write(u) => ServableDataReqV::Write(u@),
            ServableDataReq::Reset => ServableDataReqV::Reset,
        }
    }
}

impl Clone for ServerUpdate {
    fn clone(&self) -> (r: Self)
        ensures
            r@ == self@,
    {
        ServerUpdate {
            brightness: self.brightness,
            on: self.on,
            ap_ssid: self.ap_ssid.clone(),
            ap_psk: self.ap_psk.clone(),
            dexcom_user: self.dexcom_user.clone(),
            dexcom_pass: self.dexcom_pass.clone(),
        }
    }
}

impl Clone for ServableDataReq {
    fn clone(&self) -> (r: Self)
        ensures
            r@ == self@,
    {
        match self {
            ServableDataReq::Get => ServableDataReq::Get,
            ServableDataReq::Write(u) => ServableDataReq::Write(u.clone()),
            ServableDataReq::Reset => ServableDataReq::Reset,
        }
    }
}

impl DeepView for ServableDataReq {
    type V = ServableDataReqV;

    open spec fn deep_view(&self) -> ServableDataReqV {
        self.view()
    }
}

/// A component's answer to a read request.
#[derive(Clone, Copy, Debug)]
pub enum ServableDataRsp {
    Data(ServerData),
    Error,
}

/// What an answer contributes to the merged snapshot: an error contributes
/// nothing, but still counts as the component's one answer.
pub open spec fn rsp_data(r: ServableDataRsp) -> ServerData {
    match r {
        ServableDataRsp::Data(d) => d,
        ServableDataRsp::Error => empty_data(),
    }
}

/// Mathematical model of the broker.
#[verifier::ext_equal]
pub struct BrokerV {
    /// Pending requests of each registered component, oldest first.
    pub inboxes: Seq<Seq<ServableDataReqV>>,
    /// Answers collected for the open read, in arrival order.
    pub replies: Seq<ServableDataRsp>,
    /// How many components the open read addressed.
    pub expected: nat,
    /// Whether a read fan-in is open.
    pub read_open: bool,
}

/// The mailbox registry. Components register once at startup; thereafter a
/// broadcast appends one request to every inbox, and a read additionally
/// opens a reply mailbox that collects exactly one answer per component.
pub struct Broker {
    inboxes: Vec<Vec<ServableDataReq>>,
    replies: Vec<ServableDataRsp>,
    expected: usize,
    read_open: bool,
}

impl View for Broker {
    type V = BrokerV;

    closed spec fn view(&self) -> BrokerV {
        BrokerV {
            inboxes: self.inboxes.deep_view(),
            replies: self.replies@,
            expected: self.expected as nat,
            read_open: self.read_open,
        }
    }
}

impl Broker {
    /// An empty registry with no read in flight.
    pub fn new() -> (b: Self)
        ensures
            b@.inboxes.len() == 0,
            b@.replies.len() == 0,
            !b@.read_open,
    {
        Broker { inboxes: Vec::new(), replies: Vec::new(), expected: 0, read_open: false }
    }

    /// How many components are registered.
    pub fn num_components(&self) -> (n: usize)
        ensures
            n == self@.inboxes.len(),
    {
        self.inboxes.len()
    }

    /// Whether every registered component's mailbox is empty.
    pub fn all_inboxes_empty(&self) -> (r: bool)
        ensures
            r == (forall|i: int|
                0 <= i < self@.inboxes.len() ==> self@.inboxes[i].len() == 0),
    {
        let n = self.inboxes.len();
        for i in 0..n
            invariant
                n == self.inboxes@.len(),
                forall|j: int| 0 <= j < i ==> self@.inboxes[j].len() == 0,
        {
            if self.inboxes[i].len() > 0 {
                proof {
                    assert(self@.inboxes[i as int].len() > 0);
                }
                return false;
            }
        }
        true
    }

    /// Registers one more component and hands back its mailbox index.
    pub fn register(&mut self) -> (id: usize)
        ensures
            id == old(self)@.inboxes.len(),
            final(self)@.inboxes == old(self)@.inboxes.push(Seq::<ServableDataReqV>::empty()),
            final(self)@.replies == old(self)@.replies,
            final(self)@.expected == old(self)@.expected,
            final(self)@.read_open == old(self)@.read_open,
    {
        let id = self.inboxes.len();
        self.inboxes.push(Vec::new());
        proof {
            assert(self@.inboxes =~~= old(self)@.inboxes.push(Seq::<ServableDataReqV>::empty()));
        }
        id
    }

    /// Sends the same sparse update to every registered component,
    /// fire-and-forget.
    pub fn broadcast_write(&mut self, update: &ServerUpdate)
        ensures
            final(self)@.inboxes.len() == old(self)@.inboxes.len(),
            forall|i: int|
                0 <= i < old(self)@.inboxes.len() ==> final(self)@.inboxes[i]
                    == old(self)@.inboxes[i].push(ServableDataReqV::Write(update@)),
            final(self)@.replies == old(self)@.replies,
            final(self)@.expected == old(self)@.expected,
            final(self)@.read_open == old(self)@.read_open,
    {
        let n = self.inboxes.len();
        for i in 0..n
            invariant
                n == self.inboxes.len(),
                self.inboxes@.len() == old(self)@.inboxes.len(),
                forall|j: int|
                    0 <= j < i ==> #[trigger] self.inboxes@[j].deep_view()
                        == old(self).inboxes@[j].deep_view().push(ServableDataReqV::Write(update@)),
                forall|j: int| i <= j < n ==> self.inboxes@[j] == old(self).inboxes@[j],
                self.replies@ == old(self)@.replies,
                self.expected as nat == old(self)@.expected,
                self.read_open == old(self)@.read_open,
        {
            self.inboxes[i].push(ServableDataReq::Write(update.clone()));
            proof {
                assert(self.inboxes@[i as int].deep_view() =~= old(self).inboxes@[
                    i as int
                ].deep_view().push(ServableDataReqV::Write(update@)));
            }
        }
    }

    /// Sends the distinguished reset request to every registered component,
    /// fire-and-forget.
    pub fn broadcast_reset(&mut self)
        ensures
            final(self)@.inboxes.len() == old(self)@.inboxes.len(),
            forall|i: int|
                0 <= i < old(self)@.inboxes.len() ==> final(self)@.inboxes[i]
                    == old(self)@.inboxes[i].push(ServableDataReqV::Reset),
            final(self)@.replies == old(self)@.replies,
            final(self)@.expected == old(self)@.expected,
            final(self)@.read_open == old(self)@.read_open,
    {
        let n = self.inboxes.len();
        for i in 0..n
            invariant
                n == self.inboxes.len(),
                self.inboxes@.len() == old(self)@.inboxes.len(),
                forall|j: int|
                    0 <= j < i ==> #[trigger] self.inboxes@[j].deep_view()
                        == old(self).inboxes@[j].deep_view().push(ServableDataReqV::Reset),
                forall|j: int| i <= j < n ==> self.inboxes@[j] == old(self).inboxes@[j],
                self.replies@ == old(self)@.replies,
                self.expected as nat == old(self)@.expected,
                self.read_open == old(self)@.read_open,
        {
            self.inboxes[i].push(ServableDataReq::Reset);
            proof {
                assert(self.inboxes@[i as int].deep_view() =~= old(self).inboxes@[
                    i as int
                ].deep_view().push(ServableDataReqV::Reset));
            }
        }
    }

    /// Opens a read: a read request goes to every registered component and a
    /// fresh reply mailbox starts collecting their answers.
    pub fn begin_read(&mut self)
        requires
            !old(self)@.read_open,
        ensures
            final(self)@.inboxes.len() == old(self)@.inboxes.len(),
            forall|i: int|
                0 <= i < old(self)@.inboxes.len() ==> final(self)@.inboxes[i]
                    == old(self)@.inboxes[i].push(ServableDataReqV::Get),
            final(self)@.replies.len() == 0,
            final(self)@.expected == old(self)@.inboxes.len(),
            final(self)@.read_open,
    {
        let n = self.inboxes.len();
        self.replies = Vec::new();
        self.expected = n;
        self.read_open = true;
        for i in 0..n
            invariant
                n == self.inboxes.len(),
                self.inboxes@.len() == old(self)@.inboxes.len(),
                forall|j: int|
                    0 <= j < i ==> #[trigger] self.inboxes@[j].deep_view()
                        == old(self).inboxes@[j].deep_view().push(ServableDataReqV::Get),
                forall|j: int| i <= j < n ==> self.inboxes@[j] == old(self).inboxes@[j],
                self.replies@.len() == 0,
                self.expected == n,
                self.read_open,
        {
            self.inboxes[i].push(ServableDataReq::Get);
            proof {
                assert(self.inboxes@[i as int].deep_view() =~= old(self).inboxes@[
                    i as int
                ].deep_view().push(ServableDataReqV::Get));
            }
        }
    }

    /// Takes the oldest pending request out of one component's mailbox.
    pub fn take_request(&mut self, id: usize) -> (req: Option<ServableDataReq>)
        requires
            id < old(self)@.inboxes.len(),
        ensures
            final(self)@.inboxes.len() == old(self)@.inboxes.len(),
            forall|i: int|
                0 <= i < old(self)@.inboxes.len() && i != id ==> final(self)@.inboxes[i]
                    == old(self)@.inboxes[i],
            old(self)@.inboxes[id as int].len() == 0 ==> req is None && final(self)@.inboxes[
                id as int
            ] == old(self)@.inboxes[id as int],
            old(self)@.inboxes[id as int].len() > 0 ==> req is Some && req->0@
                == old(self)@.inboxes[id as int].first() && final(self)@.inboxes[id as int]
                == old(self)@.inboxes[id as int].drop_first(),
            final(self)@.replies == old(self)@.replies,
            final(self)@.expected == old(self)@.expected,
            final(self)@.read_open == old(self)@.read_open,
    {
        if self.inboxes[id].len() == 0 {
            proof {
                assert(self@.inboxes =~= old(self)@.inboxes);
            }
            None
        } else {
            let req = self.inboxes[id].remove(0);
            proof {
                assert(self@.inboxes[id as int] =~= old(self)@.inboxes[id as int].drop_first());
                assert(forall|i: int|
                    0 <= i < old(self)@.inboxes.len() && i != id ==> self@.inboxes[i] =~= old(
                        self,
                    )@.inboxes[i]);
            }
            Some(req)
        }
    }

    /// Whether a read fan-in is still waiting for answers.
    pub fn read_pending(&self) -> (p: bool)
        ensures
            p == (self@.read_open && self@.replies.len() < self@.expected),
    {
        self.read_open && self.replies.len() < self.expected
    }

    /// Delivers one component's answer into the open read's reply mailbox.
    pub fn submit(&mut self, rsp: ServableDataRsp)
        requires
            old(self)@.read_open,
            old(self)@.replies.len() < old(self)@.expected,
        ensures
            final(self)@.inboxes == old(self)@.inboxes,
            final(self)@.replies == old(self)@.replies.push(rsp),
            final(self)@.expected == old(self)@.expected,
            final(self)@.read_open,
    {
        self.replies.push(rsp);
    }

    /// Closes a complete read: every addressed component has answered exactly
    /// once, and the answers merge, first writer wins, into one snapshot.
    pub fn finish_read(&mut self) -> (snapshot: ServerData)
        requires
            old(self)@.read_open,
            old(self)@.replies.len() == old(self)@.expected,
        ensures
            snapshot == merged_all(
                old(self)@.replies.map_values(|r: ServableDataRsp| rsp_data(r)),
            ),
            final(self)@.inboxes == old(self)@.inboxes,
            final(self)@.replies.len() == 0,
            !final(self)@.read_open,
    {
        self.collect_merged()
    }

    /// Closes a read with whatever answers have arrived so far and merges
    /// them into a (possibly partial) snapshot. This is the bounded-wait
    /// fallback for a component that never drains its mailbox: the caller
    /// gives up waiting instead of hanging forever.
    pub fn finish_read_partial(&mut self) -> (snapshot: ServerData)
        requires
            old(self)@.read_open,
        ensures
            snapshot == merged_all(
                old(self)@.replies.map_values(|r: ServableDataRsp| rsp_data(r)),
            ),
            final(self)@.inboxes == old(self)@.inboxes,
            final(self)@.replies.len() == 0,
            !final(self)@.read_open,
    {
        self.collect_merged()
    }

    /// Merges the collected answers in arrival order and closes the read.
    fn collect_merged(&mut self) -> (snapshot: ServerData)
        ensures
            snapshot == merged_all(
                old(self)@.replies.map_values(|r: ServableDataRsp| rsp_data(r)),
            ),
            final(self)@.inboxes == old(self)@.inboxes,
            final(self)@.replies.len() == 0,
            !final(self)@.read_open,
    {
        let ghost all = self@.replies.map_values(|r: ServableDataRsp| rsp_data(r));
        let mut snapshot = ServerData::new();
        let n = self.replies.len();
        proof {
            assert(all.subrange(0, 0) =~= Seq::<ServerData>::empty());
        }
        for i in 0..n
            invariant
                n == self.replies.len(),
                all == self.replies@.map_values(|r: ServableDataRsp| rsp_data(r)),
                snapshot == merged_all(all.subrange(0, i as int)),
        {
            let ghost prefix_len: int = i as int;
            match self.replies[i] {
                ServableDataRsp::Data(d) => {
                    snapshot.merge(&d);
                    proof {
                        assert(all.subrange(0, prefix_len + 1) =~= all.subrange(
                            0,
                            prefix_len,
                        ).push(all[prefix_len]));
                        lemma_merged_all_push(all.subrange(0, prefix_len), all[prefix_len]);
                    }
                },
                ServableDataRsp::Error => {
                    proof {
                        assert(all.subrange(0, prefix_len + 1) =~= all.subrange(
                            0,
                            prefix_len,
                        ).push(all[prefix_len]));
                        lemma_merged_all_push(all.subrange(0, prefix_len), all[prefix_len]);
                        assert(merged_data(merged_all(all.subrange(0, prefix_len)), empty_data())
                            =~= merged_all(all.subrange(0, prefix_len)));
                    }
                },
            }
        }
        proof {
            assert(all.subrange(0, n as int) =~= all);
        }
        self.replies = Vec::new();
        self.read_open = false;
        self.expected = 0;
        snapshot
    }
}

} // verus!
