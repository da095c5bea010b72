//! The cache of connected key-management devices.
//!
//! A device is kept under the identity of its backend, and each security
//! level that was asked for is kept with the identity that serves it. A
//! level is connected once; after that the cache answers.

use crate::error::{ConnectError, Error};
use crate::security_level::{lemma_identity_is_one_to_one, SecurityLevel, Uuid};
use std::collections::HashMap;
use vstd::prelude::*;

verus! {

/// What a cache of devices holds. `H` is a handle to a device, `I` its
/// hardware info.
pub struct DeviceCache<H, I> {
    /// The device and the hardware info of each backend.
    pub devices: Map<Uuid, (H, I)>,
    /// The backend that serves each level that was connected.
    pub uuids: Map<SecurityLevel, Uuid>,
}

impl<H, I> DeviceCache<H, I> {
    /// The cache that holds nothing.
    pub open spec fn empty() -> Self {
        DeviceCache { devices: Map::empty(), uuids: Map::empty() }
    }

    /// Every level leads to a device, and to the identity that is derived
    /// from the level.
    pub open spec fn wf(self) -> bool {
        forall|level: SecurityLevel| #[trigger]
            self.uuids.contains_key(level) ==> self.uuids[level] == Uuid::of_level(level)
                && self.devices.contains_key(self.uuids[level])
    }

    /// The cache after a device was recorded for `level`. The device goes
    /// under the identity derived from the level and replaces what was
    /// there.
    pub open spec fn insert(self, level: SecurityLevel, dev: H, info: I) -> Self {
        DeviceCache {
            devices: self.devices.insert(Uuid::of_level(level), (dev, info)),
            uuids: self.uuids.insert(level, Uuid::of_level(level)),
        }
    }

    /// The device of the backend `uuid`, its hardware info and `uuid`.
    pub open spec fn by_uuid(self, uuid: Uuid) -> Option<(H, I, Uuid)> {
        if self.devices.contains_key(uuid) {
            Some((self.devices[uuid].0, self.devices[uuid].1, uuid))
        } else {
            None
        }
    }

    /// The device that serves `level`, its hardware info and its identity.
    pub open spec fn by_level(self, level: SecurityLevel) -> Option<(H, I, Uuid)> {
        if self.uuids.contains_key(level) {
            self.by_uuid(self.uuids[level])
        } else {
            None
        }
    }
}

/// Whether `given` is what a lookup hands out for the record `kept`: a
/// clone of the device, a clone of the info, and the same identity.
pub open spec fn handed_out<H: Clone, I: Clone>(
    kept: Option<(H, I, Uuid)>,
    given: Option<(H, I, Uuid)>,
) -> bool {
    match (kept, given) {
        (Some(kept), Some(given)) => cloned(kept.0, given.0) && cloned(kept.1, given.1) && kept.2
            == given.2,
        (None, None) => true,
        _ => false,
    }
}

/// The devices that the process is connected to.
pub struct DevicesMap<H, I> {
    devices_by_uuid: HashMap<u128, (H, I)>,
    uuid_by_sec_level: HashMap<i32, u128>,
}

impl<H, I> View for DevicesMap<H, I> {
    type V = DeviceCache<H, I>;

    closed spec fn view(&self) -> DeviceCache<H, I> {
        DeviceCache {
            devices: Map::new(
                |uuid: Uuid| self.devices_by_uuid@.contains_key(uuid.0),
                |uuid: Uuid| self.devices_by_uuid@[uuid.0],
            ),
            uuids: Map::new(
                |level: SecurityLevel| self.uuid_by_sec_level@.contains_key(level.0),
                |level: SecurityLevel| Uuid(self.uuid_by_sec_level@[level.0]),
            ),
        }
    }
}

impl<H, I> DevicesMap<H, I> {
    #[verifier::type_invariant]
    spec fn valid(self) -> bool {
        self@.wf()
    }

    /// A cache that holds nothing.
    pub fn new() -> (devices: Self)
        ensures
            devices@ == DeviceCache::<H, I>::empty(),
            devices@.wf(),
    {
        let devices = DevicesMap { devices_by_uuid: HashMap::new(), uuid_by_sec_level: HashMap::new() };
        assert(devices@.devices =~= Map::empty());
        assert(devices@.uuids =~= Map::empty());
        devices
    }

    /// Records a device for `sec_level`.
    ///
    /// The level that was asked for and the level that the device reports
    /// may differ, so the level is kept with the identity of the device.
    /// That identity is derived from the level here and nowhere else.
    pub fn insert(&mut self, sec_level: SecurityLevel, dev: H, hw_info: I)
        ensures
            final(self)@ == old(self)@.insert(sec_level, dev, hw_info),
            old(self)@.wf(),
            final(self)@.wf(),
    {
        proof {
            use_type_invariant(&*self);
        }
        let uuid: Uuid = Uuid::from(sec_level);
        let mut taken = DevicesMap::new();
        core::mem::swap(self, &mut taken);
        let DevicesMap { devices_by_uuid: mut devices, uuid_by_sec_level: mut uuids } = taken;
        assert forall|code: i32| #[trigger] uuids@.contains_key(code) implies Uuid(uuids@[code])
            == Uuid::of_level(SecurityLevel(code)) && devices@.contains_key(uuids@[code]) by {
            assert(old(self)@.uuids.contains_key(SecurityLevel(code)));
        }
        devices.insert(uuid.0, (dev, hw_info));
        uuids.insert(sec_level.0, uuid.0);
        assert forall|code: i32| #[trigger] uuids@.contains_key(code) implies Uuid(uuids@[code])
            == Uuid::of_level(SecurityLevel(code)) && devices@.contains_key(uuids@[code]) by {}
        let filled = DevicesMap { devices_by_uuid: devices, uuid_by_sec_level: uuids };
        proof {
            let wanted = old(self)@.insert(sec_level, dev, hw_info);
            assert(filled@.devices =~= wanted.devices);
            assert(filled@.uuids =~= wanted.uuids);
        }
        *self = filled;
    }
}

impl<H: Clone, I: Clone> DevicesMap<H, I> {
    /// Looks up the device of the backend `uuid`.
    pub fn dev_by_uuid(&self, uuid: &Uuid) -> (found: Option<(H, I, Uuid)>)
        ensures
            handed_out(self@.by_uuid(*uuid), found),
            self@.wf(),
    {
        proof {
            use_type_invariant(self);
        }
        match self.devices_by_uuid.get(&uuid.0) {
            Some(record) => Some((record.0.clone(), record.1.clone(), *uuid)),
            None => None,
        }
    }

    /// Looks up the device that serves `sec_level`.
    pub fn dev_by_sec_level(&self, sec_level: &SecurityLevel) -> (found: Option<(H, I, Uuid)>)
        ensures
            handed_out(self@.by_level(*sec_level), found),
            self@.wf(),
    {
        proof {
            use_type_invariant(self);
        }
        match self.uuid_by_sec_level.get(&sec_level.0) {
            Some(uuid) => {
                assert(self@.uuids.contains_key(*sec_level));
                self.dev_by_uuid(&Uuid(*uuid))
            },
            None => None,
        }
    }
}

impl<H, I> Default for DevicesMap<H, I> {
    /// A cache that holds nothing.
    fn default() -> (devices: Self)
        ensures
            devices@ == DeviceCache::<H, I>::empty(),
            devices@.wf(),
    {
        DevicesMap::new()
    }
}

/// What a request for the device of a level comes to.
#[derive(Debug, PartialEq, Eq)]
pub enum DeviceStep<H, I> {
    /// The level is not in the cache. Negotiate a connection for it and come
    /// back with the outcome.
    Connect,
    /// The device that serves the level, its hardware info and the identity
    /// of its backend.
    Device(H, I, Uuid),
    /// The negotiation failed, and so does the request.
    Failed(ConnectError),
}

impl<H: Clone, I: Clone> DeviceStep<H, I> {
    /// Whether this step is what a caller is given where the cache decided
    /// on `decided`: the same case, with a clone of the device and of the
    /// info.
    pub open spec fn hands_out(self, decided: DeviceStep<H, I>) -> bool {
        match (decided, self) {
            (DeviceStep::Connect, DeviceStep::Connect) => true,
            (DeviceStep::Device(dev, info, uuid), DeviceStep::Device(d, i, u)) => handed_out(
                Some((dev, info, uuid)),
                Some((d, i, u)),
            ),
            (DeviceStep::Failed(error), DeviceStep::Failed(e)) => error == e,
            _ => false,
        }
    }
}

/// What the cache decides on a request for the device of `level`, and what
/// it holds afterwards.
///
/// Without the outcome of a negotiation, the cache answers if it holds the
/// level and asks for a negotiation if not. With a connection, it records
/// the connection for the level, in place of what it may hold for it, and
/// answers with it. With a failure, it fails and holds what it held.
pub open spec fn resolve<H, I>(
    cache: DeviceCache<H, I>,
    level: SecurityLevel,
    connected: Option<Result<(H, I), ConnectError>>,
) -> (DeviceCache<H, I>, DeviceStep<H, I>) {
    match connected {
        None => match cache.by_level(level) {
            Some((dev, info, uuid)) => (cache, DeviceStep::Device(dev, info, uuid)),
            None => (cache, DeviceStep::Connect),
        },
        Some(Ok((dev, info))) => (
            cache.insert(level, dev, info),
            DeviceStep::Device(dev, info, Uuid::of_level(level)),
        ),
        Some(Err(error)) => (cache, DeviceStep::Failed(error)),
    }
}

/// Takes one step of getting the key-management device of
/// `security_level`, from the cache or by a new connection.
///
/// Start without an outcome. On [`DeviceStep::Connect`] run the negotiation
/// of [`crate::connect::connect_keymint`] for the level and step again with
/// its outcome. A level that the cache holds is answered from the cache and
/// never connected again.
pub fn get_keymint_device<H: Clone, I: Clone>(
    devices: &mut DevicesMap<H, I>,
    security_level: &SecurityLevel,
    connected: Option<Result<(H, I), ConnectError>>,
) -> (step: DeviceStep<H, I>)
    ensures
        final(devices)@ == resolve(old(devices)@, *security_level, connected).0,
        step.hands_out(resolve(old(devices)@, *security_level, connected).1),
        old(devices)@.wf(),
        final(devices)@.wf(),
{
    match connected {
        None => match devices.dev_by_sec_level(security_level) {
            Some((dev, info, uuid)) => DeviceStep::Device(dev, info, uuid),
            None => DeviceStep::Connect,
        },
        Some(Ok((dev, info))) => {
            devices.insert(*security_level, dev, info);
            let (dev, info, uuid) = devices.dev_by_sec_level(security_level).unwrap();
            DeviceStep::Device(dev, info, uuid)
        },
        Some(Err(error)) => {
            proof {
                use_type_invariant(&*devices);
            }
            DeviceStep::Failed(error)
        },
    }
}

/// Looks up the key-management device of the backend `uuid` in the cache.
///
/// This only reads the cache and never asks for a connection: a backend is
/// found here once a level that it serves was connected, and fails with
/// [`Error::NotFound`] before.
pub fn get_keymint_dev_by_uuid<H: Clone, I: Clone>(devices: &DevicesMap<H, I>, uuid: &Uuid) -> (found:
    Result<(H, I), Error>)
    ensures
        match devices@.by_uuid(*uuid) {
            Some((dev, info, _)) => found matches Ok((d, i)) && cloned(dev, d) && cloned(info, i),
            None => found matches Err(error) && error == Error::NotFound,
        },
        devices@.wf(),
{
    match devices.dev_by_uuid(uuid) {
        Some((dev, info, _)) => Ok((dev, info)),
        None => Err(Error::NotFound),
    }
}

/// What the cache holds after the requests of `trace`, each the level that
/// was asked for and the outcome of a negotiation, if the step had one.
pub open spec fn resolve_all<H, I>(
    cache: DeviceCache<H, I>,
    trace: Seq<(SecurityLevel, Option<Result<(H, I), ConnectError>>)>,
) -> DeviceCache<H, I>
    decreases trace.len(),
{
    if trace.len() == 0 {
        cache
    } else {
        resolve(resolve_all(cache, trace.drop_last()), trace.last().0, trace.last().1).0
    }
}

/// Whether the step `at` of `trace` records a connection for a level that
/// the backend `uuid` serves.
pub open spec fn connects<H, I>(
    trace: Seq<(SecurityLevel, Option<Result<(H, I), ConnectError>>)>,
    at: int,
    uuid: Uuid,
) -> bool {
    &&& 0 <= at < trace.len()
    &&& trace[at].1 matches Some(Ok(_))
    &&& Uuid::of_level(trace[at].0) == uuid
}

/// Recording a device for a level twice is recording it once, and of two
/// devices recorded for one level the later one stays.
pub proof fn lemma_insert_overwrites<H, I>(
    cache: DeviceCache<H, I>,
    level: SecurityLevel,
    first: (H, I),
    second: (H, I),
)
    ensures
        cache.insert(level, first.0, first.1).insert(level, first.0, first.1) == cache.insert(
            level,
            first.0,
            first.1,
        ),
        cache.insert(level, first.0, first.1).insert(level, second.0, second.1) == cache.insert(
            level,
            second.0,
            second.1,
        ),
{
    let once = cache.insert(level, first.0, first.1);
    let twice = once.insert(level, first.0, first.1);
    let replaced = once.insert(level, second.0, second.1);
    let later = cache.insert(level, second.0, second.1);
    assert(twice.devices =~= once.devices);
    assert(twice.uuids =~= once.uuids);
    assert(replaced.devices =~= later.devices);
    assert(replaced.uuids =~= later.uuids);
}

/// A request keeps the cache well formed.
pub proof fn lemma_resolve_keeps_wf<H, I>(
    cache: DeviceCache<H, I>,
    level: SecurityLevel,
    connected: Option<Result<(H, I), ConnectError>>,
)
    requires
        cache.wf(),
    ensures
        resolve(cache, level, connected).0.wf(),
{
}

/// A connection that was recorded for a level is found under the level and
/// under the identity of its backend.
pub proof fn lemma_connection_is_cached<H, I>(
    cache: DeviceCache<H, I>,
    level: SecurityLevel,
    dev: H,
    info: I,
)
    requires
        cache.wf(),
    ensures
        ({
            let after = resolve(cache, level, Some(Ok((dev, info)))).0;
            &&& after.by_level(level) == Some((dev, info, Uuid::of_level(level)))
            &&& after.by_uuid(Uuid::of_level(level)) == Some((dev, info, Uuid::of_level(level)))
        }),
{
}

/// Once the cache holds a level, every later request for it is answered
/// with the record that the cache held first, and none asks for a
/// connection, whatever is asked and recorded for other levels meanwhile.
/// Only a connection that is recorded for the level itself replaces its
/// record, and no request for the level asks for one.
pub proof fn lemma_cached_level_is_not_connected_again<H, I>(
    cache: DeviceCache<H, I>,
    level: SecurityLevel,
    trace: Seq<(SecurityLevel, Option<Result<(H, I), ConnectError>>)>,
)
    requires
        cache.wf(),
        cache.by_level(level) is Some,
        forall|at: int| !connects(trace, at, Uuid::of_level(level)),
    ensures
        ({
            let end = resolve_all(cache, trace);
            let kept = cache.by_level(level).unwrap();
            &&& end.wf()
            &&& end.by_level(level) == Some(kept)
            &&& resolve(end, level, None) == (end, DeviceStep::Device(kept.0, kept.1, kept.2))
        }),
    decreases trace.len(),
{
    if trace.len() > 0 {
        let earlier = trace.drop_last();
        assert forall|at: int| !connects(earlier, at, Uuid::of_level(level)) by {
            if 0 <= at < earlier.len() {
                assert(earlier[at] == trace[at]);
                assert(!connects(trace, at, Uuid::of_level(level)));
            }
        }
        lemma_cached_level_is_not_connected_again(cache, level, earlier);
        assert(!connects(trace, trace.len() - 1, Uuid::of_level(level)));
        lemma_identity_is_one_to_one(trace.last().0, level);
    }
}

/// The lookup by identity finds a backend if and only if a connection was
/// recorded for a level that the backend serves.
pub proof fn lemma_identity_is_found_once_connected<H, I>(
    trace: Seq<(SecurityLevel, Option<Result<(H, I), ConnectError>>)>,
    uuid: Uuid,
)
    ensures
        resolve_all(DeviceCache::<H, I>::empty(), trace).wf(),
        resolve_all(DeviceCache::<H, I>::empty(), trace).by_uuid(uuid) is Some <==> exists|at: int|
            connects(trace, at, uuid),
    decreases trace.len(),
{
    if trace.len() > 0 {
        let earlier = trace.drop_last();
        lemma_identity_is_found_once_connected(earlier, uuid);
        let last = trace.len() - 1;
        assert forall|at: int| connects(earlier, at, uuid) implies connects(trace, at, uuid) by {
            assert(earlier[at] == trace[at]);
        }
        assert forall|at: int| connects(trace, at, uuid) && at != last implies connects(
            earlier,
            at,
            uuid,
        ) by {
            assert(earlier[at] == trace[at]);
        }
        if connects(trace, last, uuid) {
        } else if resolve_all(DeviceCache::<H, I>::empty(), trace).by_uuid(uuid) is Some {
            let at = choose|at: int| connects(earlier, at, uuid);
            assert(connects(trace, at, uuid));
        }
    }
}

} // verus!
