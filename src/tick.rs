use vstd::prelude::*;
use crate::detector::{find_open_window, first_opening, window_open};
use crate::history::{recent_by_device, recent_of};
use crate::model::{
    Device, FetchError, Measurement, NewMeasurement, NotifyError, StoreError, UpstreamEntry,
    UpstreamResponse,
};
use crate::request::{find_device, first_match, is_known, message_of, notification_message, request_body, request_body_of};

verus! {

/// How many recent readings of each device the open-window check looks at.
pub const HISTORY_LIMIT: usize = 3;

/// What a tick waits for.
#[derive(Clone, Copy, Debug, PartialEq, Eq, Structural)]
pub enum Phase {
    AwaitDevices,
    AwaitFetch,
    AwaitExists,
    AwaitInsert,
    AwaitHistory,
    AwaitNotify,
    Finished,
}

/// The outside work a tick asks for next. Each is answered by the matching
/// `on_*` method of [`Tick`].
#[derive(Debug)]
pub enum Action {
    /// Post `body` to the sensor service; answered by `on_fetched`.
    Fetch { body: String },
    /// Ask the store whether a reading exists; answered by `on_exists`.
    CheckExists { device_id: i32, time: i64 },
    /// Store a reading; answered by `on_inserted`.
    Insert { measurement: NewMeasurement },
    /// Load the newest readings of these devices; answered by `on_history`.
    LoadHistory { device_ids: Vec<i32>, limit: usize },
    /// Push `message` for the room `device_name`, whose readings `trigger`
    /// (index into its history) set off; answered by `on_notified`.
    Notify { device_name: String, message: String, trigger: usize },
    /// The tick is over.
    Finish,
}

/// One run of the poll, store, detect and notify pipeline, as a state machine
/// that is handed the outcome of each piece of outside work in turn.
#[derive(Debug)]
pub struct Tick {
    pub phase: Phase,
    /// The device registry, as listed at the start of the tick.
    pub devices: Vec<Device>,
    /// The entries of the sensor service's answer.
    pub entries: Vec<UpstreamEntry>,
    /// The entry in work.
    pub pos: usize,
    /// The registry index of the device of the entry in work.
    pub current: usize,
    /// Entries (by index) whose external id no device has.
    pub unmatched: Vec<usize>,
    /// Registry indices of alert-enabled devices that got a new reading.
    pub to_check: Vec<usize>,
    /// Recent history of each device of `to_check`, newest first.
    pub groups: Vec<Vec<Measurement>>,
    /// The history in work.
    pub next_group: usize,
}

/// The reading that an upstream entry gives for the device `d`.
pub open spec fn measurement_for(d: Device, e: UpstreamEntry) -> NewMeasurement {
    NewMeasurement {
        device_id: d.id,
        time: e.ts as i64,
        temperature: e.t1,
        humidity: e.h,
        temperature_outside: e.t2,
        humidity_outside: e.h2,
    }
}

/// The indices `from`, `from + 1`, ..., `to - 1`.
pub open spec fn index_range(from: int, to: int) -> Seq<usize> {
    Seq::new((to - from) as nat, |k: int| (from + k) as usize)
}

/// The store is told to insert after an existence check exactly when the
/// check reported the reading absent.
pub open spec fn insert_follows(check: Result<bool, StoreError>) -> bool {
    check matches Ok(false)
}

/// The keys `(device, time)` that the store holds after one delivery of the
/// reading with key `key`, where the existence check answers truthfully.
pub open spec fn rows_after_delivery(rows: Seq<(i32, i64)>, key: (i32, i64)) -> Seq<(i32, i64)> {
    if insert_follows(Ok(rows.contains(key))) {
        rows.push(key)
    } else {
        rows
    }
}

/// Delivering the same reading twice leaves exactly one stored row under its
/// key, provided the store held at most one to begin with.
pub proof fn lemma_duplicate_delivery_stores_once(rows: Seq<(i32, i64)>, key: (i32, i64))
    requires
        rows.to_multiset().count(key) <= 1,
    ensures
        rows_after_delivery(rows_after_delivery(rows, key), key).to_multiset().count(key) == 1,
{
    let once = rows_after_delivery(rows, key);
    if rows.contains(key) {
        rows.to_multiset_ensures();
        assert(rows.to_multiset().count(key) > 0);
    } else {
        rows.to_multiset_ensures();
        assert(once.to_multiset() =~= rows.to_multiset().insert(key));
        assert(once.contains(key)) by {
            assert(once[rows.len() as int] == key);
        }
    }
}

impl Tick {
    /// The invariant each phase relies on.
    pub open spec fn wf(&self) -> bool {
        &&& self.indices_wf()
        &&& (self.phase == Phase::AwaitExists || self.phase == Phase::AwaitInsert) ==> (
            self.pos < self.entries@.len()
            && first_match(self.devices@, self.entries@[self.pos as int].deviceid@, self.current as int))
        &&& (self.phase == Phase::AwaitDevices || self.phase == Phase::AwaitFetch) ==> (
            self.pos == 0 && self.entries@.len() == 0 && self.unmatched@.len() == 0
            && self.to_check@.len() == 0)
        &&& self.phase == Phase::AwaitNotify ==> (
            self.next_group < self.groups@.len()
            && self.groups@.len() == self.to_check@.len())
    }

    /// The bounds that hold between phases too.
    pub open spec fn indices_wf(&self) -> bool {
        &&& self.pos <= self.entries@.len()
        &&& forall|k: int| 0 <= k < self.to_check@.len() ==> self.to_check@[k] < self.devices@.len()
    }

    /// The end of the entries is reached: load the histories to check, or
    /// finish when there are none.
    pub open spec fn entries_done(&self, r: Action) -> bool {
        if self.to_check@.len() == 0 {
            self.phase == Phase::Finished && r is Finish
        } else {
            &&& self.phase == Phase::AwaitHistory
            &&& r matches Action::LoadHistory { device_ids, limit } && limit == HISTORY_LIMIT
                && device_ids@.len() == self.to_check@.len()
                && forall|k: int| 0 <= k < device_ids@.len()
                    ==> device_ids@[k] == self.devices@[self.to_check@[k] as int].id
        }
    }

    /// `after` continued the scan of the entries from index `from`, with
    /// `unmatched_before` noted so far: it passed over entries whose external id no device has,
    /// noting each, and stopped at the next known one, whose existence check
    /// it asks for, or at the end.
    pub open spec fn scanned(unmatched_before: Seq<usize>, from: int, after: Tick, r: Action) -> bool {
        &&& from <= after.pos <= after.entries@.len()
        &&& forall|k: int| from <= k < after.pos ==> !is_known(after.devices@, after.entries@[k].deviceid@)
        &&& after.unmatched@ == unmatched_before + index_range(from, after.pos as int)
        &&& after.pos < after.entries@.len() ==> {
            &&& after.phase == Phase::AwaitExists
            &&& first_match(after.devices@, after.entries@[after.pos as int].deviceid@, after.current as int)
            &&& r matches Action::CheckExists { device_id, time }
                && device_id == after.devices@[after.current as int].id
                && time == after.entries@[after.pos as int].ts as i64
        }
        &&& after.pos == after.entries@.len() ==> after.entries_done(r)
    }

    /// `after` continued the scan of the histories from index `from` and
    /// stopped at the next one that shows an open window, whose notification
    /// it asks for, or at the end.
    pub open spec fn notify_scanned(from: int, after: Tick, r: Action) -> bool {
        &&& from <= after.next_group <= after.groups@.len()
        &&& forall|k: int| from <= k < after.next_group ==> !window_open(after.groups@[k]@)
        &&& after.next_group < after.groups@.len() ==> {
            let d = after.devices@[after.to_check@[after.next_group as int] as int];
            &&& after.phase == Phase::AwaitNotify
            &&& r matches Action::Notify { device_name, message, trigger }
                && device_name@ == d.name@
                && message@ == message_of(d.name@)
                && first_opening(after.groups@[after.next_group as int]@, trigger as int)
        }
        &&& after.next_group == after.groups@.len() ==> after.phase == Phase::Finished && r is Finish
    }

    /// A tick that starts by listing the device registry.
    pub fn new() -> (r: Tick)
        ensures
            r.phase == Phase::AwaitDevices,
            r.wf(),
            r.devices@.len() == 0,
            r.entries@.len() == 0,
            r.unmatched@.len() == 0,
            r.to_check@.len() == 0,
            r.groups@.len() == 0,
    {
        Tick {
            phase: Phase::AwaitDevices,
            devices: Vec::new(),
            entries: Vec::new(),
            pos: 0,
            current: 0,
            unmatched: Vec::new(),
            to_check: Vec::new(),
            groups: Vec::new(),
            next_group: 0,
        }
    }

    /// Asks for the histories of the devices to check, or finishes.
    fn finish_entries(&mut self) -> (r: Action)
        requires
            old(self).indices_wf(),
        ensures
            final(self).wf(),
            final(self).entries_done(r),
            final(self).devices == old(self).devices,
            final(self).entries == old(self).entries,
            final(self).pos == old(self).pos,
            final(self).unmatched == old(self).unmatched,
            final(self).to_check == old(self).to_check,
    {
        if self.to_check.len() == 0 {
            self.phase = Phase::Finished;
            return Action::Finish;
        }
        let mut device_ids: Vec<i32> = Vec::new();
        let mut k: usize = 0;
        while k < self.to_check.len()
            invariant
                self.indices_wf(),
                k <= self.to_check@.len(),
                device_ids@.len() == k,
                forall|j: int| 0 <= j < k ==> device_ids@[j] == self.devices@[self.to_check@[j] as int].id,
            decreases self.to_check@.len() - k,
        {
            let d = self.to_check[k];
            device_ids.push(self.devices[d].id);
            k = k + 1;
        }
        self.phase = Phase::AwaitHistory;
        Action::LoadHistory { device_ids, limit: HISTORY_LIMIT }
    }

    /// Continues the scan of the entries at `pos`.
    fn advance(&mut self) -> (r: Action)
        requires
            old(self).indices_wf(),
        ensures
            final(self).wf(),
            Tick::scanned(old(self).unmatched@, old(self).pos as int, *final(self), r),
            final(self).devices == old(self).devices,
            final(self).entries == old(self).entries,
            final(self).to_check == old(self).to_check,
    {
        while self.pos < self.entries.len()
            invariant
                self.indices_wf(),
                self.devices == old(self).devices,
                self.entries == old(self).entries,
                self.to_check == old(self).to_check,
                old(self).pos <= self.pos <= self.entries@.len(),
                forall|k: int| old(self).pos <= k < self.pos ==> !is_known(self.devices@, self.entries@[k].deviceid@),
                self.unmatched@ == old(self).unmatched@ + index_range(old(self).pos as int, self.pos as int),
            decreases self.entries@.len() - self.pos,
        {
            let found = find_device(&self.devices, &self.entries[self.pos].deviceid);
            match found {
                Some(i) => {
                    self.current = i;
                    self.phase = Phase::AwaitExists;
                    return Action::CheckExists {
                        device_id: self.devices[i].id,
                        time: self.entries[self.pos].ts as i64,
                    };
                },
                None => {
                    self.unmatched.push(self.pos);
                    assert(self.unmatched@ =~= old(self).unmatched@ + index_range(old(self).pos as int, self.pos + 1));
                    self.pos = self.pos + 1;
                },
            }
        }
        self.finish_entries()
    }

    /// Continues the scan of the histories at `next_group`.
    fn advance_groups(&mut self) -> (r: Action)
        requires
            old(self).indices_wf(),
            old(self).next_group <= old(self).groups@.len(),
            old(self).groups@.len() == old(self).to_check@.len(),
        ensures
            final(self).wf(),
            Tick::notify_scanned(old(self).next_group as int, *final(self), r),
            final(self).devices == old(self).devices,
            final(self).entries == old(self).entries,
            final(self).pos == old(self).pos,
            final(self).unmatched == old(self).unmatched,
            final(self).to_check == old(self).to_check,
            final(self).groups == old(self).groups,
    {
        while self.next_group < self.groups.len()
            invariant
                self.indices_wf(),
                self.devices == old(self).devices,
                self.entries == old(self).entries,
                self.pos == old(self).pos,
                self.unmatched == old(self).unmatched,
                self.to_check == old(self).to_check,
                self.groups == old(self).groups,
                self.groups@.len() == self.to_check@.len(),
                old(self).next_group <= self.next_group <= self.groups@.len(),
                forall|k: int| old(self).next_group <= k < self.next_group ==> !window_open(self.groups@[k]@),
            decreases self.groups@.len() - self.next_group,
        {
            match find_open_window(&self.groups[self.next_group]) {
                Some(trigger) => {
                    let d = self.to_check[self.next_group];
                    let device_name = self.devices[d].name.clone();
                    let message = notification_message(self.devices[d].name.as_str());
                    self.phase = Phase::AwaitNotify;
                    return Action::Notify { device_name, message, trigger };
                },
                None => {
                    self.next_group = self.next_group + 1;
                },
            }
        }
        self.phase = Phase::Finished;
        Action::Finish
    }

    /// Takes the device registry: a store failure ends the tick, otherwise
    /// the latest readings of all devices are requested.
    pub fn on_devices(&mut self, listed: Result<Vec<Device>, StoreError>, phone_id: &str) -> (r: Action)
        requires
            old(self).wf(),
            old(self).phase == Phase::AwaitDevices,
        ensures
            final(self).wf(),
            listed is Err ==> final(self).phase == Phase::Finished && r is Finish,
            listed matches Ok(ds) ==> {
                &&& final(self).phase == Phase::AwaitFetch
                &&& final(self).devices@ == ds@
                &&& r matches Action::Fetch { body } && body@ == request_body_of(phone_id@, ds@)
            },
            final(self).entries == old(self).entries,
            final(self).unmatched == old(self).unmatched,
            final(self).to_check == old(self).to_check,
    {
        match listed {
            Err(_) => {
                self.phase = Phase::Finished;
                Action::Finish
            },
            Ok(ds) => {
                let body = request_body(phone_id, &ds);
                self.devices = ds;
                self.phase = Phase::AwaitFetch;
                Action::Fetch { body }
            },
        }
    }

    /// Takes the sensor service's answer. A failed request, or an answer that
    /// declares itself unsuccessful, ends the tick with nothing stored or
    /// checked; otherwise the entries are scanned from the first one.
    pub fn on_fetched(&mut self, fetched: Result<UpstreamResponse, FetchError>) -> (r: Action)
        requires
            old(self).wf(),
            old(self).phase == Phase::AwaitFetch,
        ensures
            final(self).wf(),
            final(self).devices == old(self).devices,
            final(self).to_check@.len() == 0,
            !(fetched matches Ok(resp) && resp.success) ==> {
                &&& final(self).phase == Phase::Finished
                &&& r is Finish
                &&& final(self).entries@.len() == 0
                &&& final(self).unmatched@.len() == 0
            },
            fetched matches Ok(resp) ==> (resp.success ==> {
                &&& final(self).entries@ == resp.devices@
                &&& Tick::scanned(Seq::empty(), 0, *final(self), r)
            }),
    {
        match fetched {
            Ok(resp) => {
                if !resp.success {
                    self.phase = Phase::Finished;
                    return Action::Finish;
                }
                self.entries = resp.devices;
                self.pos = 0;
                self.advance()
            },
            Err(_) => {
                self.phase = Phase::Finished;
                Action::Finish
            },
        }
    }

    /// Takes the answer of the existence check for the entry in work: a
    /// reading that is not stored yet is inserted; one that is, or a failed
    /// check, is passed over and the scan goes on with the next entry.
    pub fn on_exists(&mut self, check: Result<bool, StoreError>) -> (r: Action)
        requires
            old(self).wf(),
            old(self).phase == Phase::AwaitExists,
        ensures
            final(self).wf(),
            final(self).to_check == old(self).to_check,
            insert_follows(check) <==> r is Insert,
            insert_follows(check) ==> {
                &&& final(self).phase == Phase::AwaitInsert
                &&& final(self).pos == old(self).pos
                &&& final(self).current == old(self).current
                &&& final(self).devices == old(self).devices
                &&& final(self).entries == old(self).entries
                &&& final(self).unmatched == old(self).unmatched
                &&& r matches Action::Insert { measurement } && measurement == measurement_for(
                    old(self).devices@[old(self).current as int],
                    old(self).entries@[old(self).pos as int],
                )
            },
            !insert_follows(check) ==> Tick::scanned(old(self).unmatched@, old(self).pos + 1, *final(self), r),
            final(self).devices == old(self).devices,
            final(self).entries == old(self).entries,
    {
        match check {
            Ok(false) => {
                let e = &self.entries[self.pos];
                let measurement = NewMeasurement::new(
                    self.devices[self.current].id,
                    e.ts as i64,
                    e.t1,
                    e.h,
                    e.t2,
                    e.h2,
                );
                self.phase = Phase::AwaitInsert;
                Action::Insert { measurement }
            },
            _ => {
                let n = self.entries.len();
                assert(self.pos < n);
                self.pos = self.pos + 1;
                self.advance()
            },
        }
    }

    /// Takes the outcome of the insert of the entry in work. After a
    /// successful insert an alert-enabled device is marked for the
    /// open-window check; either way the scan goes on with the next entry.
    pub fn on_inserted(&mut self, inserted: Result<(), StoreError>) -> (r: Action)
        requires
            old(self).wf(),
            old(self).phase == Phase::AwaitInsert,
        ensures
            final(self).wf(),
            final(self).to_check@ == if inserted is Ok && old(self).devices@[old(self).current as int].alert {
                old(self).to_check@.push(old(self).current)
            } else {
                old(self).to_check@
            },
            Tick::scanned(old(self).unmatched@, old(self).pos + 1, *final(self), r),
            final(self).devices == old(self).devices,
            final(self).entries == old(self).entries,
    {
        if inserted.is_ok() && self.devices[self.current].alert {
            self.to_check.push(self.current);
        }
        let n = self.entries.len();
        assert(self.pos < n);
        self.pos = self.pos + 1;
        self.advance()
    }

    /// Takes the newest readings of the devices to check (newest first) and
    /// scans their histories for an open window, from the first device on. A
    /// store failure ends the tick.
    pub fn on_history(&mut self, loaded: Result<Vec<Measurement>, StoreError>) -> (r: Action)
        requires
            old(self).wf(),
            old(self).phase == Phase::AwaitHistory,
        ensures
            final(self).wf(),
            final(self).devices == old(self).devices,
            final(self).to_check == old(self).to_check,
            loaded is Err ==> final(self).phase == Phase::Finished && r is Finish,
            loaded matches Ok(rows) ==> {
                &&& final(self).groups@.len() == old(self).to_check@.len()
                &&& forall|k: int| 0 <= k < final(self).groups@.len()
                    ==> final(self).groups@[k]@ == recent_of(
                        rows@,
                        old(self).devices@[old(self).to_check@[k] as int].id,
                        HISTORY_LIMIT as nat,
                    )
                &&& Tick::notify_scanned(0, *final(self), r)
            },
    {
        match loaded {
            Err(_) => {
                self.phase = Phase::Finished;
                Action::Finish
            },
            Ok(rows) => {
                let mut device_ids: Vec<i32> = Vec::new();
                let mut k: usize = 0;
                while k < self.to_check.len()
                    invariant
                        self.wf(),
                        self.phase == Phase::AwaitHistory,
                        self.devices == old(self).devices,
                        self.to_check == old(self).to_check,
                        k <= self.to_check@.len(),
                        device_ids@.len() == k,
                        forall|j: int| 0 <= j < k ==> device_ids@[j] == self.devices@[self.to_check@[j] as int].id,
                    decreases self.to_check@.len() - k,
                {
                    let d = self.to_check[k];
                    device_ids.push(self.devices[d].id);
                    k = k + 1;
                }
                self.groups = recent_by_device(&device_ids, &rows, HISTORY_LIMIT);
                self.next_group = 0;
                self.advance_groups()
            },
        }
    }

    /// Takes the outcome of a notification; a failure is only reported, and
    /// the scan goes on with the next history.
    pub fn on_notified(&mut self, notified: Result<(), NotifyError>) -> (r: Action)
        requires
            old(self).wf(),
            old(self).phase == Phase::AwaitNotify,
        ensures
            final(self).wf(),
            final(self).groups == old(self).groups,
            final(self).to_check == old(self).to_check,
            Tick::notify_scanned(old(self).next_group + 1, *final(self), r),
    {
        let n = self.groups.len();
        assert(self.next_group < n);
        self.next_group = self.next_group + 1;
        self.advance_groups()
    }
}

} // verus!
