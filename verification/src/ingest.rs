//! Taking in reports: what is stored for each report, which device-hours a
//! set of reports touches, and what the summary of one device-hour holds.
//!
//! Storage is the caller's: it stores each record this module prepares,
//! fetches the records of each hour the session names, and upserts the
//! summary this module assembles.

use crate::ids::is_uuid_v4_text;
use crate::ids::uuid_v4_text;
use crate::models::HourlyTemperature;
use crate::models::Reading;
use crate::models::TemperatureRecord;
use crate::models::TemperatureReport;
use crate::time::chrono_utc_now;
use crate::time::floor_to_hour;
use crate::time::instant_le;
use crate::time::instant_lt;
use crate::time::law_floor_to_hour_is_start_of_containing_hour;
use crate::time::spec_floor_to_hour;
use crate::time::spec_one_hour_later;
use crate::time::Timestamp;
use vstd::prelude::*;

verus! {

/// One device during one UTC hour: the unit that is summarised.
#[derive(Debug)]
pub struct HourKey {
    pub device_id: String,
    pub hour_start: Timestamp,
}

impl View for HourKey {
    type V = (Seq<char>, Timestamp);

    open spec fn view(&self) -> (Seq<char>, Timestamp) {
        (self.device_id@, self.hour_start)
    }
}

impl HourKey {
    /// A copy of the key.
    pub fn duplicate(&self) -> (r: HourKey)
        ensures
            r@ == self@,
    {
        HourKey { device_id: self.device_id.clone(), hour_start: self.hour_start }
    }

    /// The two keys name the same device and the same hour.
    pub fn same_as(&self, other: &HourKey) -> (r: bool)
        ensures
            r == (self@ == other@),
    {
        self.hour_start.secs == other.hour_start.secs && self.hour_start.nanos
            == other.hour_start.nanos && self.device_id == other.device_id
    }
}

/// The device-hour a stored record belongs to.
pub open spec fn record_hour(r: TemperatureRecord) -> (Seq<char>, Timestamp) {
    (r.device_id@, spec_floor_to_hour(r.timestamp))
}

/// The device-hours of a run of records, one per record.
pub open spec fn record_hours(rs: Seq<TemperatureRecord>) -> Seq<(Seq<char>, Timestamp)> {
    rs.map_values(|r: TemperatureRecord| record_hour(r))
}

/// The views of a run of keys.
pub open spec fn key_views(ks: Seq<HourKey>) -> Seq<(Seq<char>, Timestamp)> {
    ks.map_values(|k: HourKey| k@)
}

/// The elements of `s`, each once, in the order of their first occurrence.
pub open spec fn distinct_in_order<A>(s: Seq<A>) -> Seq<A>
    decreases s.len(),
{
    if s.len() == 0 {
        Seq::empty()
    } else {
        let d = distinct_in_order(s.drop_last());
        if d.contains(s.last()) {
            d
        } else {
            d.push(s.last())
        }
    }
}

/// The record stored for `report` when it is received at `now` and filed
/// under `id`: `now` is both `timestamp` and `created_at` (the device's own
/// clock is kept only as `client_timestamp`), and the reading is unchanged.
pub fn new_temperature_record_at(report: &TemperatureReport, id: String, now: Timestamp) -> (r:
    TemperatureRecord)
    ensures
        r.id@ == id@,
        r.device_id@ == report.device_id@,
        r.temperature == report.temperature,
        r.humidity == report.humidity,
        r.client_timestamp == report.timestamp,
        r.timestamp == now,
        r.created_at == now,
{
    TemperatureRecord {
        id,
        device_id: report.device_id.clone(),
        temperature: report.temperature,
        humidity: report.humidity,
        timestamp: now,
        client_timestamp: report.timestamp,
        created_at: now,
    }
}

/// The record stored for `report`: a fresh random identifier and the
/// current time of the service's clock, as `new_temperature_record_at`
/// builds it from them.
pub fn new_temperature_record(report: &TemperatureReport) -> (r: TemperatureRecord)
    ensures
        is_uuid_v4_text(r.id@),
        r.device_id@ == report.device_id@,
        r.temperature == report.temperature,
        r.humidity == report.humidity,
        r.client_timestamp == report.timestamp,
        r.created_at == r.timestamp,
        r.timestamp.wf(),
        r.timestamp.is_regular(),
        r.timestamp.secs >= 0,
{
    let id = uuid_v4_text();
    let now = chrono_utc_now();
    new_temperature_record_at(report, id, now)
}

/// The device-hour a stored record belongs to.
pub fn hour_of_record(record: &TemperatureRecord) -> (r: HourKey)
    requires
        record.timestamp.wf(),
    ensures
        r@ == record_hour(*record),
        r.hour_start.wf(),
        r.device_id@ == record.device_id@,
        r.hour_start.nanos == 0,
        (r.hour_start.secs as int) % 3600 == 0,
        r.hour_start.secs <= record.timestamp.secs < r.hour_start.secs + 3600,
{
    HourKey { device_id: record.device_id.clone(), hour_start: floor_to_hour(record.timestamp) }
}

/// Adds `key` to `hours` unless it is there already.
pub fn note_hour(hours: &mut Vec<HourKey>, key: HourKey)
    ensures
        key_views(final(hours)@) == (if key_views(old(hours)@).contains(key@) {
            key_views(old(hours)@)
        } else {
            key_views(old(hours)@).push(key@)
        }),
{
    let ghost before = key_views(hours@);
    let mut i: usize = 0;
    let mut found = false;
    while i < hours.len()
        invariant
            0 <= i <= hours.len(),
            hours@ == old(hours)@,
            before == key_views(hours@),
            found <==> exists|j: int| 0 <= j < i && hours@[j]@ == key@,
        decreases hours.len() - i,
    {
        if hours[i].same_as(&key) {
            found = true;
        }
        i = i + 1;
    }
    proof {
        if found {
            let j = choose|j: int| 0 <= j < i && hours@[j]@ == key@;
            assert(before[j] == key@);
        } else {
            assert forall|j: int| 0 <= j < before.len() implies before[j] != key@ by {
                assert(before[j] == hours@[j]@);
            }
        }
    }
    if !found {
        hours.push(key);
        assert(key_views(hours@) =~= before.push(key@));
    }
}

/// The reports of one request on their way into storage.  First every
/// report is stored, in order (`record_inserted` after each); then every
/// device-hour those records fall in is summarised once, in the order the
/// hours first occur (`next_hour`, then `hour_aggregated` after each).
pub struct IngestSession {
    records: Vec<TemperatureRecord>,
    hours: Vec<HourKey>,
    aggregated: usize,
}

impl IngestSession {
    /// The records stored so far, in the order of their reports.
    pub closed spec fn recorded(&self) -> Seq<TemperatureRecord> {
        self.records@
    }

    /// The device-hours to summarise, in order.
    pub closed spec fn pending_hours(&self) -> Seq<(Seq<char>, Timestamp)> {
        key_views(self.hours@)
    }

    /// How many of `pending_hours` have been summarised.
    pub closed spec fn aggregated(&self) -> nat {
        self.aggregated as nat
    }

    /// The hours to summarise are those of the stored records, each once,
    /// and no more of them have been summarised than there are.
    pub open spec fn wf(&self) -> bool {
        &&& self.pending_hours() == distinct_in_order(record_hours(self.recorded()))
        &&& self.aggregated() <= self.pending_hours().len()
    }

    /// A session with nothing stored yet.
    pub fn new() -> (r: IngestSession)
        ensures
            r.wf(),
            r.recorded() == Seq::<TemperatureRecord>::empty(),
            r.aggregated() == 0,
    {
        let r = IngestSession { records: Vec::new(), hours: Vec::new(), aggregated: 0 };
        assert(record_hours(r.recorded()) =~= Seq::empty());
        assert(r.pending_hours() =~= Seq::empty());
        r
    }

    /// Notes that `record` has been stored.
    pub fn record_inserted(&mut self, record: TemperatureRecord)
        requires
            old(self).wf(),
            old(self).aggregated() == 0,
            record.timestamp.wf(),
        ensures
            final(self).wf(),
            final(self).recorded() == old(self).recorded().push(record),
            final(self).aggregated() == 0,
    {
        let ghost old_records = self.records@;
        let key = hour_of_record(&record);
        note_hour(&mut self.hours, key);
        self.records.push(record);
        assert(record_hours(self.records@).drop_last() =~= record_hours(old_records));
    }

    /// The next device-hour to summarise, or `None` when all are done.
    pub fn next_hour(&self) -> (r: Option<HourKey>)
        requires
            self.wf(),
        ensures
            r is None <==> self.aggregated() == self.pending_hours().len(),
            r matches Some(k) ==> k@ == self.pending_hours()[self.aggregated() as int],
    {
        if self.aggregated < self.hours.len() {
            Some(self.hours[self.aggregated].duplicate())
        } else {
            None
        }
    }

    /// Notes that the device-hour `next_hour` named has been summarised.
    pub fn hour_aggregated(&mut self)
        requires
            old(self).wf(),
            old(self).aggregated() < old(self).pending_hours().len(),
        ensures
            final(self).wf(),
            final(self).recorded() == old(self).recorded(),
            final(self).aggregated() == old(self).aggregated() + 1,
    {
        assert(key_views(self.hours@).len() == self.hours@.len());
        assert(self.aggregated < self.hours.len());
        self.aggregated = self.aggregated + 1;
    }

    /// The stored records, once every device-hour has been summarised.
    pub fn into_records(self) -> (r: Vec<TemperatureRecord>)
        requires
            self.wf(),
            self.aggregated() == self.pending_hours().len(),
        ensures
            r@ == self.recorded(),
    {
        self.records
    }
}

/// The statistics of an hour's readings that need floating-point arithmetic.
/// `avg_humidity` is only used when some reading of the hour has a humidity.
#[derive(Clone, Copy, Debug)]
pub struct HourStats {
    pub avg_temp: Reading,
    pub min_temp: Reading,
    pub max_temp: Reading,
    pub avg_humidity: Reading,
}

/// Some record of the run carries a humidity.
pub open spec fn any_humidity(records: Seq<TemperatureRecord>) -> bool {
    exists|i: int| 0 <= i < records.len() && (#[trigger] records[i]).humidity is Some
}

/// The summary of one device-hour from the records stored in it: none when
/// there are no records; otherwise a fresh identifier, the key, the given
/// statistics, the number of records, and an average humidity exactly when
/// some record has a humidity.
pub fn hourly_summary(key: &HourKey, records: &Vec<TemperatureRecord>, stats: HourStats) -> (r: Option<HourlyTemperature>)
    requires
        records@.len() <= i64::MAX,
    ensures
        r is None <==> records@.len() == 0,
        r matches Some(h) ==> {
            &&& is_uuid_v4_text(h.id@)
            &&& h.device_id@ == key.device_id@
            &&& h.hour_start == key.hour_start
            &&& h.avg_temp == stats.avg_temp
            &&& h.min_temp == stats.min_temp
            &&& h.max_temp == stats.max_temp
            &&& h.sample_count == records@.len()
            &&& h.avg_humidity == if any_humidity(records@) {
                Some(stats.avg_humidity)
            } else {
                None
            }
        },
{
    if records.len() == 0 {
        return None;
    }
    let mut has_humidity = false;
    let mut i: usize = 0;
    while i < records.len()
        invariant
            0 <= i <= records.len(),
            has_humidity <==> exists|j: int| 0 <= j < i && (#[trigger] records@[j]).humidity is Some,
        decreases records.len() - i,
    {
        if records[i].humidity.is_some() {
            has_humidity = true;
        }
        i = i + 1;
    }
    let id = uuid_v4_text();
    let avg_humidity = if has_humidity {
        Some(stats.avg_humidity)
    } else {
        None
    };
    Some(
        HourlyTemperature {
            id,
            device_id: key.device_id.clone(),
            hour_start: key.hour_start,
            avg_temp: stats.avg_temp,
            min_temp: stats.min_temp,
            max_temp: stats.max_temp,
            sample_count: records.len() as i64,
            avg_humidity,
        },
    )
}

/// Nothing occurs twice in `distinct_in_order(s)`.
pub proof fn lemma_distinct_in_order_no_duplicates<A>(s: Seq<A>)
    ensures
        distinct_in_order(s).no_duplicates(),
    decreases s.len(),
{
    if s.len() > 0 {
        lemma_distinct_in_order_no_duplicates(s.drop_last());
        let d = distinct_in_order(s.drop_last());
        if !d.contains(s.last()) {
            let e = d.push(s.last());
            assert forall|i: int, j: int| 0 <= i < e.len() && 0 <= j < e.len() && i != j implies e[i]
                != e[j] by {
                if i == e.len() - 1 {
                    assert(e[j] == d[j]);
                } else if j == e.len() - 1 {
                    assert(e[i] == d[i]);
                }
            }
        }
    }
}

/// `distinct_in_order(s)` holds exactly the elements of `s`.
pub proof fn lemma_distinct_in_order_same_elements<A>(s: Seq<A>, x: A)
    ensures
        distinct_in_order(s).contains(x) <==> s.contains(x),
    decreases s.len(),
{
    if s.len() > 0 {
        let t = s.drop_last();
        lemma_distinct_in_order_same_elements(t, x);
        lemma_distinct_in_order_same_elements(t, s.last());
        let d = distinct_in_order(t);
        if s.contains(x) {
            let k = choose|k: int| 0 <= k < s.len() && s[k] == x;
            if k < s.len() - 1 {
                assert(t[k] == x);
            }
            if !d.contains(s.last()) {
                assert(d.push(s.last())[d.len() as int] == s.last());
                if d.contains(x) {
                    let m = choose|m: int| 0 <= m < d.len() && d[m] == x;
                    assert(d.push(s.last())[m] == x);
                }
            }
        }
        if distinct_in_order(s).contains(x) {
            if !d.contains(s.last()) {
                let m = choose|m: int| 0 <= m < d.len() + 1 && d.push(s.last())[m] == x;
                if m < d.len() {
                    assert(d[m] == x);
                } else {
                    assert(s[s.len() - 1] == x);
                }
            }
            if d.contains(x) {
                let k = choose|k: int| 0 <= k < t.len() && t[k] == x;
                assert(s[k] == x);
            }
        }
    }
}

/// `a` occurs in `s` before the first occurrence of `b`.
pub open spec fn occurs_before<A>(s: Seq<A>, a: A, b: A) -> bool {
    exists|p: int|
        0 <= p < s.len() && #[trigger] s[p] == a && forall|q: int| 0 <= q <= p ==> #[trigger] s[q] != b
}

/// In `distinct_in_order(s)` the elements come in the order of their first
/// occurrence in `s`: an earlier element occurs in `s` before the first
/// occurrence of any later one.
pub proof fn lemma_distinct_in_order_first_occurrence_order<A>(s: Seq<A>)
    ensures
        forall|i: int, j: int|
            #![trigger distinct_in_order(s)[i], distinct_in_order(s)[j]]
            0 <= i < j < distinct_in_order(s).len() ==> occurs_before(
                s,
                distinct_in_order(s)[i],
                distinct_in_order(s)[j],
            ),
    decreases s.len(),
{
    if s.len() > 0 {
        let t = s.drop_last();
        lemma_distinct_in_order_first_occurrence_order(t);
        let d = distinct_in_order(t);
        let e = distinct_in_order(s);
        assert forall|i: int, j: int| 0 <= i < j < e.len() implies occurs_before(s, e[i], e[j]) by {
            if j < d.len() {
                assert(e[i] == d[i] && e[j] == d[j]);
                assert(occurs_before(t, d[i], d[j]));
                let p = choose|p: int|
                    0 <= p < t.len() && #[trigger] t[p] == d[i] && forall|q: int|
                        0 <= q <= p ==> #[trigger] t[q] != d[j];
                assert(s[p] == e[i]);
                assert forall|q: int| 0 <= q <= p implies #[trigger] s[q] != e[j] by {
                    assert(s[q] == t[q]);
                }
            } else {
                assert(!d.contains(s.last()));
                assert(e[j] == s.last());
                assert(e[i] == d[i]);
                assert(d.contains(d[i]));
                lemma_distinct_in_order_same_elements(t, d[i]);
                lemma_distinct_in_order_same_elements(t, s.last());
                let p = choose|p: int| 0 <= p < t.len() && t[p] == d[i];
                assert(s[p] == e[i]);
                assert forall|q: int| 0 <= q <= p implies #[trigger] s[q] != e[j] by {
                    assert(s[q] == t[q]);
                    if s[q] == e[j] {
                        assert(t.contains(s.last()));
                    }
                }
            }
        }
    }
}

/// A session names every device-hour of its stored records for
/// summarising, each exactly once, in the order the hours first occur.
pub proof fn law_session_hours_are_the_records_hours(session: &IngestSession)
    requires
        session.wf(),
    ensures
        session.pending_hours().no_duplicates(),
        forall|k: (Seq<char>, Timestamp)|
            session.pending_hours().contains(k) <==> record_hours(session.recorded()).contains(k),
        forall|i: int, j: int|
            #![trigger session.pending_hours()[i], session.pending_hours()[j]]
            0 <= i < j < session.pending_hours().len() ==> occurs_before(
                record_hours(session.recorded()),
                session.pending_hours()[i],
                session.pending_hours()[j],
            ),
{
    let hs = record_hours(session.recorded());
    lemma_distinct_in_order_no_duplicates(hs);
    assert forall|k: (Seq<char>, Timestamp)| session.pending_hours().contains(k) <==> hs.contains(k) by {
        lemma_distinct_in_order_same_elements(hs, k);
    }
    lemma_distinct_in_order_first_occurrence_order(hs);
}

/// A stored record lies in the device-hour it is filed under: same device,
/// an hour that starts on a whole UTC hour (seconds a multiple of 3600, no
/// fraction), received at or after the start of that hour and before its
/// end.  So the records query of that hour selects it, and all records of
/// one device received in one UTC hour share it.
pub proof fn law_record_lies_in_its_hour(record: TemperatureRecord)
    requires
        record.timestamp.wf(),
    ensures
        record_hour(record).0 == record.device_id@,
        record_hour(record).1.nanos == 0,
        (record_hour(record).1.secs as int) % 3600 == 0,
        record_hour(record).1.secs <= record.timestamp.secs < record_hour(record).1.secs + 3600,
        instant_le(record_hour(record).1, record.timestamp),
        instant_lt(record.timestamp, spec_one_hour_later(record_hour(record).1)),
{
    law_floor_to_hour_is_start_of_containing_hour(record.timestamp);
}

/// Records of one device received in the same UTC hour are filed under the
/// same device-hour; records of different hours are not.
pub proof fn law_records_share_an_hour_exactly_when_received_in_it(
    a: TemperatureRecord,
    b: TemperatureRecord,
)
    requires
        a.timestamp.wf(),
        b.timestamp.wf(),
        a.device_id@ == b.device_id@,
    ensures
        record_hour(a) == record_hour(b) <==> (a.timestamp.secs as int) / 3600 == (
        b.timestamp.secs as int) / 3600,
{
    law_record_lies_in_its_hour(a);
    law_record_lies_in_its_hour(b);
}

/// A single report is summarised exactly in the device-hour of its record.
pub proof fn law_single_report_summarises_its_own_hour(session: &IngestSession)
    requires
        session.wf(),
        session.recorded().len() == 1,
    ensures
        session.pending_hours() == seq![record_hour(session.recorded()[0])],
{
    let hs = record_hours(session.recorded());
    assert(hs.drop_last() =~= Seq::<(Seq<char>, Timestamp)>::empty());
    assert(distinct_in_order(hs.drop_last()) =~= Seq::<(Seq<char>, Timestamp)>::empty());
    assert(distinct_in_order(hs) =~= seq![hs[0]]);
}

} // verus!
