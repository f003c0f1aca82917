use vstd::prelude::*;

use crate::config::{has_scope, scope_granted};
use crate::keyed::KeyedList;
use crate::text::texts_view;

verus! {

/// A coordinate in degrees, carried as the bit pattern of its IEEE-754 double;
/// the library only passes it along.
#[derive(Clone, Copy, PartialEq, Eq, Debug, Structural)]
pub struct Coordinate {
    pub bits: u64,
}

/// What is known of one located device.
#[derive(Clone, Debug, PartialEq, Eq)]
pub struct DeviceInfo {
    pub country: String,
    pub locality: String,
    pub latitude: Coordinate,
    pub longitude: Coordinate,
    /// The time zone at the device's coordinates, when one was found.
    pub time_zone: Option<String>,
}

impl DeviceInfo {
    /// A copy equal to `self`.
    pub fn copy(&self) -> (r: DeviceInfo)
        ensures
            r == *self,
    {
        DeviceInfo {
            country: self.country.clone(),
            locality: self.locality.clone(),
            latitude: self.latitude,
            longitude: self.longitude,
            time_zone: match &self.time_zone {
                Some(t) => Some(t.clone()),
                None => None,
            },
        }
    }
}

/// The location of a device as shown to one caller.
#[derive(Clone, Debug, PartialEq, Eq)]
pub struct Location {
    pub country: String,
    pub locality: Option<String>,
    pub latitude: Option<Coordinate>,
    pub longitude: Option<Coordinate>,
    pub time_zone: Option<String>,
}

/// The scope that reveals a device's locality.
pub open spec fn city_scope() -> Seq<char> {
    "icloud.city"@
}

/// The scope that reveals a device's coordinates and time zone.
pub open spec fn latlong_scope() -> Seq<char> {
    "icloud.latlong"@
}

/// The fields of `d` that `scopes` reveal: the country always, the locality
/// with the city scope, the coordinates and time zone with the lat/long scope.
pub open spec fn redacted(d: DeviceInfo, scopes: Seq<Seq<char>>) -> Location {
    let city = scope_granted(scopes, city_scope());
    let latlong = scope_granted(scopes, latlong_scope());
    Location {
        country: d.country,
        locality: if city {
            Some(d.locality)
        } else {
            None
        },
        latitude: if latlong {
            Some(d.latitude)
        } else {
            None
        },
        longitude: if latlong {
            Some(d.longitude)
        } else {
            None
        },
        time_zone: if latlong {
            d.time_zone
        } else {
            None
        },
    }
}

/// The address part of a device record.
#[derive(Clone, Debug, PartialEq, Eq)]
pub struct DeviceAddress {
    pub country: String,
    pub locality: String,
}

/// The position part of a device record.
#[derive(Clone, Debug, PartialEq, Eq)]
pub struct DevicePosition {
    pub latitude: Coordinate,
    pub longitude: Coordinate,
    pub time_zone: Option<String>,
}

/// One device as the location service reported it.
#[derive(Clone, Debug, PartialEq, Eq)]
pub struct DeviceReport {
    pub id: String,
    pub address: Option<DeviceAddress>,
    pub position: Option<DevicePosition>,
}

/// The snapshot a report yields, if it carries both an address and a position.
pub open spec fn report_snapshot(r: DeviceReport) -> Option<DeviceInfo> {
    match (r.address, r.position) {
        (Some(a), Some(p)) => Some(
            DeviceInfo {
                country: a.country,
                locality: a.locality,
                latitude: p.latitude,
                longitude: p.longitude,
                time_zone: p.time_zone,
            },
        ),
        _ => None,
    }
}

/// The cache after one report: a located device is stored whole, a device that
/// lacks an address or a position is dropped.
pub open spec fn after_report(m: Map<Seq<char>, DeviceInfo>, r: DeviceReport) -> Map<
    Seq<char>,
    DeviceInfo,
> {
    match report_snapshot(r) {
        Some(d) => m.insert(r.id@, d),
        None => m.remove(r.id@),
    }
}

/// The cache after the reports of one cycle, taken in order.
pub open spec fn after_reports(m: Map<Seq<char>, DeviceInfo>, rs: Seq<DeviceReport>) -> Map<
    Seq<char>,
    DeviceInfo,
>
    decreases rs.len(),
{
    if rs.len() == 0 {
        m
    } else {
        after_report(after_reports(m, rs.drop_last()), rs.last())
    }
}

/// After a refresh cycle, each device's snapshot is either the one it had
/// before or the whole snapshot of one report of the cycle: fields of two
/// snapshots are never mixed.
pub proof fn lemma_device_snapshots_whole(
    m: Map<Seq<char>, DeviceInfo>,
    rs: Seq<DeviceReport>,
    k: Seq<char>,
)
    requires
        after_reports(m, rs).contains_key(k),
    ensures
        (m.contains_key(k) && after_reports(m, rs)[k] == m[k]) || exists|i: int|
            0 <= i < rs.len() && report_snapshot(#[trigger] rs[i]) == Some(after_reports(m, rs)[k]),
    decreases rs.len(),
{
    if rs.len() > 0 {
        let rest = rs.drop_last();
        let r = rs.last();
        if r.id@ == k {
            assert(report_snapshot(rs[rs.len() - 1]) == Some(after_reports(m, rs)[k]));
        } else {
            lemma_device_snapshots_whole(m, rest, k);
            if !(m.contains_key(k) && after_reports(m, rs)[k] == m[k]) {
                let i = choose|i: int|
                    0 <= i < rest.len() && report_snapshot(#[trigger] rest[i]) == Some(
                        after_reports(m, rest)[k],
                    );
                assert(rs[i] == rest[i]);
            }
        }
    }
}

/// A refresh cycle that reports a device decides its snapshot alone: whatever
/// the cache held before, the device ends with the same snapshot, or with none.
pub proof fn lemma_device_refresh_forgets_prior(
    m1: Map<Seq<char>, DeviceInfo>,
    m2: Map<Seq<char>, DeviceInfo>,
    rs: Seq<DeviceReport>,
    k: Seq<char>,
)
    requires
        exists|i: int| 0 <= i < rs.len() && (#[trigger] rs[i]).id@ == k,
    ensures
        after_reports(m1, rs).contains_key(k) == after_reports(m2, rs).contains_key(k),
        after_reports(m1, rs).contains_key(k) ==> after_reports(m1, rs)[k] == after_reports(
            m2,
            rs,
        )[k],
    decreases rs.len(),
{
    let rest = rs.drop_last();
    if rs.last().id@ != k {
        let i = choose|i: int| 0 <= i < rs.len() && (#[trigger] rs[i]).id@ == k;
        assert(i != rs.len() - 1);
        assert(rest[i] == rs[i]);
        lemma_device_refresh_forgets_prior(m1, m2, rest, k);
    }
}

/// The latest known state of each device, keyed by device id.
pub struct DeviceCache {
    devices: KeyedList<DeviceInfo>,
}

impl View for DeviceCache {
    type V = Map<Seq<char>, DeviceInfo>;

    closed spec fn view(&self) -> Map<Seq<char>, DeviceInfo> {
        self.devices@
    }
}

impl DeviceCache {
    pub closed spec fn wf(&self) -> bool {
        self.devices.wf()
    }

    /// A cache that knows no device.
    pub fn new() -> (r: DeviceCache)
        ensures
            r.wf(),
            r@ == Map::<Seq<char>, DeviceInfo>::empty(),
    {
        DeviceCache { devices: KeyedList::new() }
    }

    /// Applies the outcome of one refresh cycle: on success the reports in
    /// order, on failure (`None`) nothing at all.
    pub fn apply_devices(&mut self, fetched: Option<&Vec<DeviceReport>>)
        requires
            old(self).wf(),
        ensures
            final(self).wf(),
            match fetched {
                Some(rs) => final(self)@ == after_reports(old(self)@, rs@),
                None => final(self)@ == old(self)@,
            },
    {
        let reports = match fetched {
            Some(rs) => rs,
            None => {
                return ;
            },
        };
        let ghost m0 = self@;
        let mut i: usize = 0;
        while i < reports.len()
            invariant
                i <= reports@.len(),
                self.wf(),
                self@ == after_reports(m0, reports@.subrange(0, i as int)),
            decreases reports@.len() - i,
        {
            let r = &reports[i];
            proof {
                let pre = reports@.subrange(0, i as int + 1);
                assert(pre.drop_last() =~= reports@.subrange(0, i as int));
                assert(pre.last() == reports@[i as int]);
            }
            match (&r.address, &r.position) {
                (Some(a), Some(p)) => {
                    let d = DeviceInfo {
                        country: a.country.clone(),
                        locality: a.locality.clone(),
                        latitude: p.latitude,
                        longitude: p.longitude,
                        time_zone: match &p.time_zone {
                            Some(t) => Some(t.clone()),
                            None => None,
                        },
                    };
                    self.devices.insert(r.id.clone(), d);
                },
                _ => {
                    self.devices.remove(r.id.as_str());
                },
            }
            i = i + 1;
        }
        assert(reports@.subrange(0, reports@.len() as int) =~= reports@);
    }

    /// The location of device `device_id`, with the fields that
    /// `auth_scopes` do not reveal left out.
    pub fn get_user_info(&self, device_id: &str, auth_scopes: &Vec<String>) -> (r: Option<
        Location,
    >)
        requires
            self.wf(),
        ensures
            r == (if self@.contains_key(device_id@) {
                Some(redacted(self@[device_id@], texts_view(auth_scopes@)))
            } else {
                None
            }),
    {
        match self.devices.get(device_id) {
            Some(d) => {
                let city = has_scope(auth_scopes, "icloud.city");
                let latlong = has_scope(auth_scopes, "icloud.latlong");
                Some(
                    Location {
                        country: d.country.clone(),
                        locality: if city {
                            Some(d.locality.clone())
                        } else {
                            None
                        },
                        latitude: if latlong {
                            Some(d.latitude)
                        } else {
                            None
                        },
                        longitude: if latlong {
                            Some(d.longitude)
                        } else {
                            None
                        },
                        time_zone: if latlong {
                            match &d.time_zone {
                                Some(t) => Some(t.clone()),
                                None => None,
                            }
                        } else {
                            None
                        },
                    },
                )
            },
            None => None,
        }
    }
}

} // verus!
