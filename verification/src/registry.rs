//! A whole request to the registry, from the cache to the platform and back.
//!
//! The steps of the other modules are put together here as a caller sees
//! them: a request is answered from the cache, or it runs one negotiation
//! and stores what that brought. What is stated here holds of every
//! platform, taken as the outcome that it has for each call.

use crate::connect::{
    clock_negotiation, clock_run, keymint_negotiation, lemma_absent_everywhere_is_unavailable,
    lemma_bridge_serves_absent_native, lemma_malfunction_is_not_absence, Call, Reply, Target,
    COMPAT_SERVICE_NAME, TIME_STAMP_SERVICE_NAME,
};
use crate::devices::{resolve, DeviceCache, DeviceStep};
use crate::error::{ConnectError, ConnectStage, Error};
use crate::security_level::{SecurityLevel, Uuid};
use crate::timestamp::{clock_request, TimestampStep};
use vstd::prelude::*;

verus! {

/// How a request for the device of a level went.
pub struct Resolution<H, I> {
    /// What the cache holds after the request.
    pub cache: DeviceCache<H, I>,
    /// The calls that were made to the platform, in order.
    pub calls: Seq<Call>,
    /// The device, its hardware info and its identity, or the failure;
    /// `None` if the platform did not answer a call in kind.
    pub outcome: Option<Result<(H, I, Uuid), ConnectError>>,
}

/// A request for the device of `level` against `platform`: the cache is
/// asked first, and only where it holds nothing for the level is a
/// connection negotiated and its outcome handed to the cache.
pub open spec fn resolve_by_level<H, C, I>(
    cache: DeviceCache<H, I>,
    level: SecurityLevel,
    platform: spec_fn(Call) -> Reply<H, C, I>,
) -> Resolution<H, I> {
    match resolve(cache, level, None).1 {
        DeviceStep::Device(dev, info, uuid) => Resolution {
            cache,
            calls: Seq::empty(),
            outcome: Some(Ok((dev, info, uuid))),
        },
        DeviceStep::Failed(error) => Resolution {
            cache,
            calls: Seq::empty(),
            outcome: Some(Err(error)),
        },
        DeviceStep::Connect => {
            let (calls, negotiated) = keymint_negotiation(level, platform);
            match negotiated {
                Some(connected) => {
                    let (after, step) = resolve(cache, level, Some(connected));
                    Resolution {
                        cache: after,
                        calls,
                        outcome: match step {
                            DeviceStep::Device(dev, info, uuid) => Some(Ok((dev, info, uuid))),
                            DeviceStep::Failed(error) => Some(Err(error)),
                            DeviceStep::Connect => None,
                        },
                    }
                },
                None => Resolution { cache, calls, outcome: None },
            }
        },
    }
}

/// How a request for the secure clock went.
pub struct ClockResolution<H> {
    /// The handle that is kept after the request.
    pub kept: Option<H>,
    /// The calls that were made to the platform, in order.
    pub calls: Seq<Call>,
    /// The handle of the clock, or the failure; `None` if the platform did
    /// not answer a call in kind.
    pub outcome: Option<Result<H, ConnectError>>,
}

/// A request for the secure clock against `platform`: the handle that is
/// kept answers it, and only where none is kept is a connection negotiated.
pub open spec fn timestamp_service<H, C>(
    kept: Option<H>,
    platform: spec_fn(Call) -> Reply<H, C, ()>,
) -> ClockResolution<H> {
    match clock_request(kept, None).1 {
        TimestampStep::Service(handle) => ClockResolution {
            kept,
            calls: Seq::empty(),
            outcome: Some(Ok(handle)),
        },
        TimestampStep::Failed(error) => ClockResolution {
            kept,
            calls: Seq::empty(),
            outcome: Some(Err(error)),
        },
        TimestampStep::Connect => {
            let (calls, negotiated) = clock_negotiation(platform);
            match negotiated {
                Some(connected) => {
                    let (after, step) = clock_request(kept, Some(connected));
                    ClockResolution {
                        kept: after,
                        calls,
                        outcome: match step {
                            TimestampStep::Service(handle) => Some(Ok(handle)),
                            TimestampStep::Failed(error) => Some(Err(error)),
                            TimestampStep::Connect => None,
                        },
                    }
                },
                None => ClockResolution { kept, calls, outcome: None },
            }
        },
    }
}

/// What the secure clock's place holds after `count` more requests against
/// `platform`.
pub open spec fn timestamp_services<H, C>(
    kept: Option<H>,
    platform: spec_fn(Call) -> Reply<H, C, ()>,
    count: nat,
) -> Option<H>
    decreases count,
{
    if count == 0 {
        kept
    } else {
        timestamp_service(timestamp_services(kept, platform, (count - 1) as nat), platform).kept
    }
}

/// A level that was resolved is resolved again to the same device, info and
/// identity, without a call to the platform and without a change to the
/// cache, whatever the platform would answer by then. Its backend is found
/// under the identity that the resolution gave.
pub proof fn lemma_resolution_is_repeatable<H, C, I>(
    cache: DeviceCache<H, I>,
    level: SecurityLevel,
    platform: spec_fn(Call) -> Reply<H, C, I>,
    later: spec_fn(Call) -> Reply<H, C, I>,
)
    requires
        cache.wf(),
        resolve_by_level(cache, level, platform).outcome matches Some(Ok(_)),
    ensures
        ({
            let first = resolve_by_level(cache, level, platform);
            let record = first.outcome.unwrap().unwrap();
            &&& first.cache.wf()
            &&& record.2 == Uuid::of_level(level)
            &&& first.cache.by_uuid(record.2) == Some(record)
            &&& resolve_by_level(first.cache, level, later) == (Resolution {
                cache: first.cache,
                calls: Seq::empty(),
                outcome: first.outcome,
            })
        }),
{
}

/// A request that fails leaves the cache as it was, so the identity of a
/// level that could not be resolved is not found afterwards either.
pub proof fn lemma_failed_resolution_changes_nothing<H, C, I>(
    cache: DeviceCache<H, I>,
    level: SecurityLevel,
    platform: spec_fn(Call) -> Reply<H, C, I>,
)
    requires
        !(resolve_by_level(cache, level, platform).outcome matches Some(Ok(_))),
    ensures
        resolve_by_level(cache, level, platform).cache == cache,
{
}

/// Where the locator does not know the native name of a level that the
/// cache does not hold, and the bridge serves the level, the request yields
/// the bridged device under the identity of the level.
pub proof fn lemma_resolution_through_the_bridge<H, C, I>(
    cache: DeviceCache<H, I>,
    level: SecurityLevel,
    platform: spec_fn(Call) -> Reply<H, C, I>,
    compat: C,
    device: H,
    info: I,
)
    requires
        cache.by_level(level) is None,
        Target::KeyMint(level).native_name() is Some,
        platform(Call::GetInterface { name: Target::KeyMint(level).native_name().unwrap() })
            == Reply::<H, C, I>::Interface(Err(Error::NameNotFound)),
        platform(Call::RegisterBridge) == Reply::<H, C, I>::BridgeRegistered,
        platform(Call::GetCompatService { name: COMPAT_SERVICE_NAME })
            == Reply::<H, C, I>::CompatService(Ok(compat)),
        platform(Call::GetKeyMintDevice { level }) == Reply::<H, C, I>::Wrapper(Ok(device)),
        platform(Call::GetHardwareInfo) == Reply::<H, C, I>::HardwareInfo(Ok(info)),
    ensures
        resolve_by_level(cache, level, platform).outcome == Some(
            Ok::<(H, I, Uuid), ConnectError>((device, info, Uuid::of_level(level))),
        ),
        resolve_by_level(cache, level, platform).cache == cache.insert(level, device, info),
{
    lemma_bridge_serves_absent_native(level, platform, compat, device, info);
}

/// Where neither the native service nor the bridge serves a level that the
/// cache does not hold, the request fails with
/// [`Error::HardwareTypeUnavailable`], not with the name that was not found.
pub proof fn lemma_resolution_without_any_backend<H, C, I>(
    cache: DeviceCache<H, I>,
    level: SecurityLevel,
    platform: spec_fn(Call) -> Reply<H, C, I>,
)
    requires
        cache.by_level(level) is None,
        Target::KeyMint(level).native_name() is Some,
        platform(Call::GetInterface { name: Target::KeyMint(level).native_name().unwrap() })
            == Reply::<H, C, I>::Interface(Err(Error::NameNotFound)),
        platform(Call::RegisterBridge) == Reply::<H, C, I>::BridgeRegistered,
        platform(Call::GetCompatService { name: COMPAT_SERVICE_NAME })
            == Reply::<H, C, I>::CompatService(Err(Error::NameNotFound))
            || (platform(Call::GetCompatService { name: COMPAT_SERVICE_NAME }) matches Reply::CompatService(Ok(_))
            && platform(Call::GetKeyMintDevice { level })
            == Reply::<H, C, I>::Wrapper(Err(Error::NameNotFound))),
    ensures
        resolve_by_level(cache, level, platform).outcome matches Some(Err(error)) && error.kind
            == Error::HardwareTypeUnavailable,
        resolve_by_level(cache, level, platform).cache == cache,
{
    lemma_absent_everywhere_is_unavailable(level, platform);
}

/// Where the native lookup of a level that the cache does not hold fails
/// with anything but [`Error::NameNotFound`], the request fails with that
/// failure after that one call: no fallback is attempted.
pub proof fn lemma_resolution_with_a_broken_transport<H, C, I>(
    cache: DeviceCache<H, I>,
    level: SecurityLevel,
    platform: spec_fn(Call) -> Reply<H, C, I>,
    kind: Error,
)
    requires
        cache.by_level(level) is None,
        Target::KeyMint(level).native_name() is Some,
        kind != Error::NameNotFound,
        platform(Call::GetInterface { name: Target::KeyMint(level).native_name().unwrap() })
            == Reply::<H, C, I>::Interface(Err(kind)),
    ensures
        resolve_by_level(cache, level, platform).calls =~= seq![
            Call::GetInterface { name: Target::KeyMint(level).native_name().unwrap() },
        ],
        resolve_by_level(cache, level, platform).outcome == Some(
            Err::<(H, I, Uuid), ConnectError>(
                ConnectError { kind, stage: ConnectStage::NativeService },
            ),
        ),
        resolve_by_level(cache, level, platform).cache == cache,
{
    lemma_malfunction_is_not_absence(level, platform, kind);
}

/// The first request for the secure clock on a platform with a native clock
/// connects with one call. Any number of requests after it are answered with
/// the handle that the first one got, without a call to the platform,
/// whatever the platform would answer by then.
pub proof fn lemma_clock_is_a_singleton<H, C>(
    platform: spec_fn(Call) -> Reply<H, C, ()>,
    later: spec_fn(Call) -> Reply<H, C, ()>,
    handle: H,
    count: nat,
)
    requires
        platform(Call::GetInterface { name: TIME_STAMP_SERVICE_NAME })
            == Reply::<H, C, ()>::Interface(Ok(handle)),
    ensures
        ({
            let first = timestamp_service(None, platform);
            let kept = timestamp_services(first.kept, later, count);
            &&& first.calls =~= seq![Call::GetInterface { name: TIME_STAMP_SERVICE_NAME }]
            &&& first.outcome == Some(Ok::<H, ConnectError>(handle))
            &&& kept == Some(handle)
            &&& timestamp_service(kept, later) == (ClockResolution {
                kept: Some(handle),
                calls: Seq::empty(),
                outcome: Some(Ok(handle)),
            })
        }),
    decreases count,
{
    reveal_with_fuel(clock_run, 2);
    if count > 0 {
        lemma_clock_is_a_singleton(platform, later, handle, (count - 1) as nat);
    }
}

} // verus!
