//! Negotiating a connection to a hardware security backend.
//!
//! A negotiation asks the platform's service locator for the native service
//! first. Only when the locator knows no such name does it fall back to the
//! compatibility bridge: it registers the bridge, looks the compatibility
//! service up and asks it for a legacy wrapper. A key-management device is
//! then asked for its hardware info; a secure clock is not.
//!
//! The negotiation makes no call itself. Each step takes the answer to the
//! call it asked for last and says which call comes next, or how the
//! negotiation ended.

use crate::error::{ConnectError, ConnectStage, Error};
use crate::security_level::{SecurityLevel, STRONGBOX, TRUSTED_ENVIRONMENT};
use vstd::prelude::*;

verus! {

/// What is being connected.
#[derive(Clone, Copy, Debug, PartialEq, Eq, Structural)]
pub enum Target {
    /// The key-management device of a security level.
    KeyMint(SecurityLevel),
    /// The secure clock.
    SecureClock,
}

/// A call that the embedding process makes on behalf of a negotiation.
#[derive(Clone, Copy, Debug, PartialEq, Eq)]
pub enum Call {
    /// Ask the service locator for the native service of this name.
    GetInterface { name: &'static str },
    /// Register the compatibility bridge. Registering twice is harmless.
    RegisterBridge,
    /// Ask the service locator for the compatibility service of this name.
    GetCompatService { name: &'static str },
    /// Ask the compatibility service that the state holds for the legacy
    /// key-management device of this level.
    GetKeyMintDevice { level: SecurityLevel },
    /// Ask the compatibility service that the state holds for the legacy
    /// secure clock.
    GetSecureClock,
    /// Ask the device that the state holds for its hardware info.
    GetHardwareInfo,
}

/// The outcome of a [`Call`]. `H` is a handle to a device, `C` a handle to
/// the compatibility service, `I` the hardware info of a device.
#[derive(Debug, PartialEq, Eq)]
pub enum Reply<H, C, I> {
    /// The answer to [`Call::GetInterface`].
    Interface(Result<H, Error>),
    /// The answer to [`Call::RegisterBridge`].
    BridgeRegistered,
    /// The answer to [`Call::GetCompatService`].
    CompatService(Result<C, Error>),
    /// The answer to [`Call::GetKeyMintDevice`] and [`Call::GetSecureClock`].
    Wrapper(Result<H, Error>),
    /// The answer to [`Call::GetHardwareInfo`].
    HardwareInfo(Result<I, Error>),
}

/// How far a negotiation has come.
#[derive(Debug, PartialEq, Eq)]
pub enum Connecting<H, C> {
    /// Nothing was asked yet.
    Idle,
    /// The native service is being looked up.
    Native,
    /// The compatibility bridge is being registered.
    Bridge,
    /// The compatibility service is being looked up.
    Compat,
    /// The compatibility service `compat` is being asked for a wrapper.
    Wrapper { compat: C },
    /// The connected `device` is being asked for its hardware info.
    Info { device: H },
    /// The negotiation has ended.
    Closed,
}

/// What a step of a negotiation decides.
#[derive(Debug, PartialEq, Eq)]
pub enum Step<T> {
    /// Make this call and come back with its outcome.
    Call(Call),
    /// The negotiation ended, with a connection or with a failure.
    Done(Result<T, ConnectError>),
    /// The reply does not answer the call that is pending; nothing changed.
    Rejected,
}

/// The name under which key-management devices register.
pub const KEYMINT_SERVICE_NAME: &'static str = "android.hardware.security.keymint.IKeyMintDevice";

/// The name under which the secure clock registers.
pub const TIME_STAMP_SERVICE_NAME: &'static str = "android.hardware.security.secureclock.ISecureClock";

/// The name under which the compatibility service registers.
pub const COMPAT_SERVICE_NAME: &'static str = "android.security.compat";

impl Target {
    /// The name of the target's native service. A key-management device has
    /// one only at the two levels that hardware serves.
    pub open spec fn native_name(self) -> Option<&'static str> {
        match self {
            Target::KeyMint(level) => if level.0 == TRUSTED_ENVIRONMENT {
                Some("android.hardware.security.keymint.IKeyMintDevice/default")
            } else if level.0 == STRONGBOX {
                Some("android.hardware.security.keymint.IKeyMintDevice/strongbox")
            } else {
                None
            },
            Target::SecureClock => Some(TIME_STAMP_SERVICE_NAME),
        }
    }

    /// The call that asks the compatibility service for the target's legacy
    /// wrapper.
    pub open spec fn wrapper_call(self) -> Call {
        match self {
            Target::KeyMint(level) => Call::GetKeyMintDevice { level },
            Target::SecureClock => Call::GetSecureClock,
        }
    }

    /// Computes [`Target::native_name`].
    pub fn native_service_name(&self) -> (name: Option<&'static str>)
        ensures
            name == self.native_name(),
    {
        match self {
            Target::KeyMint(level) => {
                if level.0 == TRUSTED_ENVIRONMENT {
                    Some("android.hardware.security.keymint.IKeyMintDevice/default")
                } else if level.0 == STRONGBOX {
                    Some("android.hardware.security.keymint.IKeyMintDevice/strongbox")
                } else {
                    None
                }
            },
            Target::SecureClock => Some(TIME_STAMP_SERVICE_NAME),
        }
    }

    /// Computes [`Target::wrapper_call`].
    pub fn legacy_wrapper_call(&self) -> (call: Call)
        ensures
            call == self.wrapper_call(),
    {
        match self {
            Target::KeyMint(level) => Call::GetKeyMintDevice { level: *level },
            Target::SecureClock => Call::GetSecureClock,
        }
    }
}

/// The native name of a key-management device is the common service name,
/// a slash, and `default` or `strongbox`.
pub proof fn lemma_keymint_names()
    ensures
        Target::KeyMint(SecurityLevel(TRUSTED_ENVIRONMENT)).native_name().unwrap()@
            == KEYMINT_SERVICE_NAME@ + "/default"@,
        Target::KeyMint(SecurityLevel(STRONGBOX)).native_name().unwrap()@
            == KEYMINT_SERVICE_NAME@ + "/strongbox"@,
{
    reveal_strlit("android.hardware.security.keymint.IKeyMintDevice");
    reveal_strlit("android.hardware.security.keymint.IKeyMintDevice/default");
    reveal_strlit("android.hardware.security.keymint.IKeyMintDevice/strongbox");
    reveal_strlit("/default");
    reveal_strlit("/strongbox");
    assert(Target::KeyMint(SecurityLevel(TRUSTED_ENVIRONMENT)).native_name().unwrap()@
        =~= KEYMINT_SERVICE_NAME@ + "/default"@);
    assert(Target::KeyMint(SecurityLevel(STRONGBOX)).native_name().unwrap()@
        =~= KEYMINT_SERVICE_NAME@ + "/strongbox"@);
}

/// The step that ends a negotiation with a failure of this kind at this
/// stage.
pub open spec fn failed<T>(kind: Error, stage: ConnectStage) -> Step<T> {
    Step::Done(Err(ConnectError { kind, stage }))
}

/// One step of the part that both negotiations share: from nothing to a
/// handle of the target, natively or through the bridge.
///
/// Only [`Error::NameNotFound`] from the native lookup opens the fallback
/// path. On that path a name that is not found means that no device exists,
/// and is reported as [`Error::HardwareTypeUnavailable`]. Every other failure
/// ends the negotiation unchanged in kind.
pub open spec fn negotiation_step<H, C, I>(
    target: Target,
    state: Connecting<H, C>,
    reply: Option<Reply<H, C, I>>,
) -> (Connecting<H, C>, Step<H>) {
    match (state, reply) {
        (Connecting::Idle, None) => match target.native_name() {
            Some(name) => (Connecting::Native, Step::Call(Call::GetInterface { name })),
            None => (
                Connecting::Closed,
                failed(Error::HardwareTypeUnavailable, ConnectStage::Level),
            ),
        },
        (Connecting::Native, Some(Reply::Interface(Ok(device)))) => (
            Connecting::Closed,
            Step::Done(Ok(device)),
        ),
        (Connecting::Native, Some(Reply::Interface(Err(kind)))) => if kind == Error::NameNotFound {
            (Connecting::Bridge, Step::Call(Call::RegisterBridge))
        } else {
            (Connecting::Closed, failed(kind, ConnectStage::NativeService))
        },
        (Connecting::Bridge, Some(Reply::BridgeRegistered)) => (
            Connecting::Compat,
            Step::Call(Call::GetCompatService { name: COMPAT_SERVICE_NAME }),
        ),
        (Connecting::Compat, Some(Reply::CompatService(Ok(compat)))) => (
            Connecting::Wrapper { compat },
            Step::Call(target.wrapper_call()),
        ),
        (Connecting::Compat, Some(Reply::CompatService(Err(kind)))) => (
            Connecting::Closed,
            failed(kind.on_fallback(), ConnectStage::CompatService),
        ),
        (Connecting::Wrapper { .. }, Some(Reply::Wrapper(Ok(device)))) => (
            Connecting::Closed,
            Step::Done(Ok(device)),
        ),
        (Connecting::Wrapper { .. }, Some(Reply::Wrapper(Err(kind)))) => (
            Connecting::Closed,
            failed(kind.on_fallback(), ConnectStage::LegacyWrapper),
        ),
        _ => (state, Step::Rejected),
    }
}

/// One step of the negotiation for a key-management device: the shared part,
/// then the device's hardware info. A device that cannot report its info is
/// no connection.
pub open spec fn keymint_step<H, C, I>(
    level: SecurityLevel,
    state: Connecting<H, C>,
    reply: Option<Reply<H, C, I>>,
) -> (Connecting<H, C>, Step<(H, I)>) {
    match state {
        Connecting::Info { device } => match reply {
            Some(Reply::HardwareInfo(Ok(info))) => (
                Connecting::Closed,
                Step::Done(Ok((device, info))),
            ),
            Some(Reply::HardwareInfo(Err(kind))) => (
                Connecting::Closed,
                failed(kind, ConnectStage::HardwareInfo),
            ),
            _ => (state, Step::Rejected),
        },
        _ => {
            let (next, step) = negotiation_step(Target::KeyMint(level), state, reply);
            match step {
                Step::Call(call) => (next, Step::Call(call)),
                Step::Done(Ok(device)) => (
                    Connecting::Info { device },
                    Step::Call(Call::GetHardwareInfo),
                ),
                Step::Done(Err(error)) => (next, Step::Done(Err(error))),
                Step::Rejected => (next, Step::Rejected),
            }
        },
    }
}

/// One step of the negotiation for the secure clock: the shared part alone.
pub open spec fn clock_step<H, C>(state: Connecting<H, C>, reply: Option<Reply<H, C, ()>>) -> (
    Connecting<H, C>,
    Step<H>,
) {
    negotiation_step(Target::SecureClock, state, reply)
}

fn negotiate<H, C, I>(target: Target, state: Connecting<H, C>, reply: Option<Reply<H, C, I>>) -> (next:
    (Connecting<H, C>, Step<H>))
    ensures
        next == negotiation_step(target, state, reply),
{
    match state {
        Connecting::Idle => match reply {
            None => match target.native_service_name() {
                Some(name) => (Connecting::Native, Step::Call(Call::GetInterface { name })),
                None => (
                    Connecting::Closed,
                    Step::Done(
                        Err(
                            ConnectError {
                                kind: Error::HardwareTypeUnavailable,
                                stage: ConnectStage::Level,
                            },
                        ),
                    ),
                ),
            },
            Some(_) => (Connecting::Idle, Step::Rejected),
        },
        Connecting::Native => match reply {
            Some(Reply::Interface(Ok(device))) => (Connecting::Closed, Step::Done(Ok(device))),
            Some(Reply::Interface(Err(kind))) => {
                if kind == Error::NameNotFound {
                    (Connecting::Bridge, Step::Call(Call::RegisterBridge))
                } else {
                    (
                        Connecting::Closed,
                        Step::Done(Err(ConnectError { kind, stage: ConnectStage::NativeService })),
                    )
                }
            },
            _ => (Connecting::Native, Step::Rejected),
        },
        Connecting::Bridge => match reply {
            Some(Reply::BridgeRegistered) => (
                Connecting::Compat,
                Step::Call(Call::GetCompatService { name: COMPAT_SERVICE_NAME }),
            ),
            _ => (Connecting::Bridge, Step::Rejected),
        },
        Connecting::Compat => match reply {
            Some(Reply::CompatService(Ok(compat))) => (
                Connecting::Wrapper { compat },
                Step::Call(target.legacy_wrapper_call()),
            ),
            Some(Reply::CompatService(Err(kind))) => (
                Connecting::Closed,
                Step::Done(
                    Err(
                        ConnectError {
                            kind: kind.fallback_kind(),
                            stage: ConnectStage::CompatService,
                        },
                    ),
                ),
            ),
            _ => (Connecting::Compat, Step::Rejected),
        },
        Connecting::Wrapper { compat } => match reply {
            Some(Reply::Wrapper(Ok(device))) => (Connecting::Closed, Step::Done(Ok(device))),
            Some(Reply::Wrapper(Err(kind))) => (
                Connecting::Closed,
                Step::Done(
                    Err(
                        ConnectError {
                            kind: kind.fallback_kind(),
                            stage: ConnectStage::LegacyWrapper,
                        },
                    ),
                ),
            ),
            _ => (Connecting::Wrapper { compat }, Step::Rejected),
        },
        Connecting::Info { device } => (Connecting::Info { device }, Step::Rejected),
        Connecting::Closed => (Connecting::Closed, Step::Rejected),
    }
}

/// Takes one step of the negotiation for the key-management device of
/// `security_level`.
///
/// Start with [`Connecting::Idle`] and no reply. While the step is
/// [`Step::Call`], make the call and step again with the state returned and
/// the call's outcome. [`Step::Done`] carries the device and its hardware
/// info, or the failure.
pub fn connect_keymint<H, C, I>(
    security_level: &SecurityLevel,
    state: Connecting<H, C>,
    reply: Option<Reply<H, C, I>>,
) -> (next: (Connecting<H, C>, Step<(H, I)>))
    ensures
        next == keymint_step(*security_level, state, reply),
{
    match state {
        Connecting::Info { device } => match reply {
            Some(Reply::HardwareInfo(Ok(info))) => (
                Connecting::Closed,
                Step::Done(Ok((device, info))),
            ),
            Some(Reply::HardwareInfo(Err(kind))) => (
                Connecting::Closed,
                Step::Done(Err(ConnectError { kind, stage: ConnectStage::HardwareInfo })),
            ),
            _ => (Connecting::Info { device }, Step::Rejected),
        },
        state => {
            let (next, step) = negotiate(Target::KeyMint(*security_level), state, reply);
            match step {
                Step::Call(call) => (next, Step::Call(call)),
                Step::Done(Ok(device)) => (
                    Connecting::Info { device },
                    Step::Call(Call::GetHardwareInfo),
                ),
                Step::Done(Err(error)) => (next, Step::Done(Err(error))),
                Step::Rejected => (next, Step::Rejected),
            }
        },
    }
}

/// Takes one step of the negotiation for the secure clock.
///
/// It is driven as [`connect_keymint`] is. [`Step::Done`] carries the clock,
/// or the failure.
pub fn connect_secureclock<H, C>(state: Connecting<H, C>, reply: Option<Reply<H, C, ()>>) -> (next:
    (Connecting<H, C>, Step<H>))
    ensures
        next == clock_step(state, reply),
{
    negotiate(Target::SecureClock, state, reply)
}

/// A negotiation that has ended stays ended: every further step is
/// rejected.
pub proof fn lemma_closed_is_final<H, C, I>(level: SecurityLevel, reply: Option<Reply<H, C, I>>)
    ensures
        keymint_step(level, Connecting::<H, C>::Closed, reply) == (
            Connecting::<H, C>::Closed,
            Step::<(H, I)>::Rejected,
        ),
        negotiation_step(Target::SecureClock, Connecting::<H, C>::Closed, reply) == (
            Connecting::<H, C>::Closed,
            Step::<H>::Rejected,
        ),
{
}

impl<H, C, I> Reply<H, C, I> {
    /// Whether this reply is of the kind that answers `call`.
    pub open spec fn answers(self, call: Call) -> bool {
        match call {
            Call::GetInterface { .. } => self is Interface,
            Call::RegisterBridge => self is BridgeRegistered,
            Call::GetCompatService { .. } => self is CompatService,
            Call::GetKeyMintDevice { .. } => self is Wrapper,
            Call::GetSecureClock => self is Wrapper,
            Call::GetHardwareInfo => self is HardwareInfo,
        }
    }
}

/// Whether a platform, taken as the outcome it has for each call, answers
/// every call in kind.
pub open spec fn answers_in_kind<H, C, I>(platform: spec_fn(Call) -> Reply<H, C, I>) -> bool {
    forall|call: Call| (#[trigger] platform(call)).answers(call)
}

/// The calls that a key-management negotiation makes against `platform` from
/// `state` on, and how it ends: `None` if it is cut off by a rejected reply
/// or after `budget` calls.
pub open spec fn keymint_run<H, C, I>(
    level: SecurityLevel,
    platform: spec_fn(Call) -> Reply<H, C, I>,
    state: Connecting<H, C>,
    reply: Option<Reply<H, C, I>>,
    budget: nat,
) -> (Seq<Call>, Option<Result<(H, I), ConnectError>>)
    decreases budget,
{
    let (next, step) = keymint_step(level, state, reply);
    match step {
        Step::Done(outcome) => (Seq::empty(), Some(outcome)),
        Step::Rejected => (Seq::empty(), None),
        Step::Call(call) => if budget == 0 {
            (seq![call], None)
        } else {
            let rest = keymint_run(level, platform, next, Some(platform(call)), (budget - 1) as nat);
            (seq![call] + rest.0, rest.1)
        },
    }
}

/// The calls that a secure-clock negotiation makes against `platform` from
/// `state` on, and how it ends.
pub open spec fn clock_run<H, C>(
    platform: spec_fn(Call) -> Reply<H, C, ()>,
    state: Connecting<H, C>,
    reply: Option<Reply<H, C, ()>>,
    budget: nat,
) -> (Seq<Call>, Option<Result<H, ConnectError>>)
    decreases budget,
{
    let (next, step) = clock_step(state, reply);
    match step {
        Step::Done(outcome) => (Seq::empty(), Some(outcome)),
        Step::Rejected => (Seq::empty(), None),
        Step::Call(call) => if budget == 0 {
            (seq![call], None)
        } else {
            let rest = clock_run(platform, next, Some(platform(call)), (budget - 1) as nat);
            (seq![call] + rest.0, rest.1)
        },
    }
}

/// A whole key-management negotiation against `platform`. Five calls are
/// the most that one makes.
pub open spec fn keymint_negotiation<H, C, I>(
    level: SecurityLevel,
    platform: spec_fn(Call) -> Reply<H, C, I>,
) -> (Seq<Call>, Option<Result<(H, I), ConnectError>>) {
    keymint_run(level, platform, Connecting::Idle, None, 5)
}

/// A whole secure-clock negotiation against `platform`. Four calls are the
/// most that one makes.
pub open spec fn clock_negotiation<H, C>(platform: spec_fn(Call) -> Reply<H, C, ()>) -> (
    Seq<Call>,
    Option<Result<H, ConnectError>>,
) {
    clock_run(platform, Connecting::Idle, None, 4)
}

/// A negotiation with a platform that answers in kind always ends, within
/// five calls for a key-management device and four for the secure clock.
pub proof fn lemma_negotiation_ends<H, C, I>(
    level: SecurityLevel,
    platform: spec_fn(Call) -> Reply<H, C, I>,
    clock_platform: spec_fn(Call) -> Reply<H, C, ()>,
)
    requires
        answers_in_kind(platform),
        answers_in_kind(clock_platform),
    ensures
        keymint_negotiation(level, platform).1 is Some,
        keymint_negotiation(level, platform).0.len() <= 5,
        clock_negotiation(clock_platform).1 is Some,
        clock_negotiation(clock_platform).0.len() <= 4,
{
    reveal_with_fuel(keymint_run, 6);
    reveal_with_fuel(clock_run, 5);
    let name = Target::KeyMint(level).native_name();
    if name is Some {
        assert(platform(Call::GetInterface { name: name.unwrap() }).answers(
            Call::GetInterface { name: name.unwrap() },
        ));
    }
    assert(platform(Call::RegisterBridge).answers(Call::RegisterBridge));
    assert(platform(Call::GetCompatService { name: COMPAT_SERVICE_NAME }).answers(
        Call::GetCompatService { name: COMPAT_SERVICE_NAME },
    ));
    assert(platform(Call::GetKeyMintDevice { level }).answers(Call::GetKeyMintDevice { level }));
    assert(platform(Call::GetHardwareInfo).answers(Call::GetHardwareInfo));
    assert(clock_platform(Call::GetInterface { name: TIME_STAMP_SERVICE_NAME }).answers(
        Call::GetInterface { name: TIME_STAMP_SERVICE_NAME },
    ));
    assert(clock_platform(Call::RegisterBridge).answers(Call::RegisterBridge));
    assert(clock_platform(Call::GetCompatService { name: COMPAT_SERVICE_NAME }).answers(
        Call::GetCompatService { name: COMPAT_SERVICE_NAME },
    ));
    assert(clock_platform(Call::GetSecureClock).answers(Call::GetSecureClock));
}

/// A level without a native service name fails at once: no call is made and
/// the failure is [`Error::HardwareTypeUnavailable`].
pub proof fn lemma_unserved_level_fails_at_once<H, C, I>(
    level: SecurityLevel,
    platform: spec_fn(Call) -> Reply<H, C, I>,
)
    requires
        level.0 != TRUSTED_ENVIRONMENT,
        level.0 != STRONGBOX,
    ensures
        keymint_negotiation(level, platform).0 =~= Seq::empty(),
        keymint_negotiation(level, platform).1 == Some(
            Err::<(H, I), ConnectError>(
                ConnectError { kind: Error::HardwareTypeUnavailable, stage: ConnectStage::Level },
            ),
        ),
{
    reveal_with_fuel(keymint_run, 2);
}

/// Where the native service answers and the device reports its info, the
/// negotiation yields that device and that info after two calls, and the
/// bridge is left alone.
pub proof fn lemma_native_device_is_preferred<H, C, I>(
    level: SecurityLevel,
    platform: spec_fn(Call) -> Reply<H, C, I>,
    device: H,
    info: I,
)
    requires
        Target::KeyMint(level).native_name() is Some,
        platform(Call::GetInterface { name: Target::KeyMint(level).native_name().unwrap() })
            == Reply::<H, C, I>::Interface(Ok(device)),
        platform(Call::GetHardwareInfo) == Reply::<H, C, I>::HardwareInfo(Ok(info)),
    ensures
        keymint_negotiation(level, platform).0 =~= seq![
            Call::GetInterface { name: Target::KeyMint(level).native_name().unwrap() },
            Call::GetHardwareInfo,
        ],
        keymint_negotiation(level, platform).1 == Some(Ok::<(H, I), ConnectError>((device, info))),
{
    reveal_with_fuel(keymint_run, 3);
}

/// Where the locator does not know the native name and the bridge serves the
/// level, the negotiation yields the bridged device: it registers the bridge,
/// looks the compatibility service up, asks it for the wrapper of the level
/// and asks the wrapper for its info.
pub proof fn lemma_bridge_serves_absent_native<H, C, I>(
    level: SecurityLevel,
    platform: spec_fn(Call) -> Reply<H, C, I>,
    compat: C,
    device: H,
    info: I,
)
    requires
        Target::KeyMint(level).native_name() is Some,
        platform(Call::GetInterface { name: Target::KeyMint(level).native_name().unwrap() })
            == Reply::<H, C, I>::Interface(Err(Error::NameNotFound)),
        platform(Call::RegisterBridge) == Reply::<H, C, I>::BridgeRegistered,
        platform(Call::GetCompatService { name: COMPAT_SERVICE_NAME })
            == Reply::<H, C, I>::CompatService(Ok(compat)),
        platform(Call::GetKeyMintDevice { level }) == Reply::<H, C, I>::Wrapper(Ok(device)),
        platform(Call::GetHardwareInfo) == Reply::<H, C, I>::HardwareInfo(Ok(info)),
    ensures
        keymint_negotiation(level, platform).0 =~= seq![
            Call::GetInterface { name: Target::KeyMint(level).native_name().unwrap() },
            Call::RegisterBridge,
            Call::GetCompatService { name: COMPAT_SERVICE_NAME },
            Call::GetKeyMintDevice { level },
            Call::GetHardwareInfo,
        ],
        keymint_negotiation(level, platform).1 == Some(Ok::<(H, I), ConnectError>((device, info))),
{
    reveal_with_fuel(keymint_run, 6);
}

/// Where the locator knows neither the native name nor the compatibility
/// service, or the compatibility service knows no wrapper for the level, the
/// negotiation fails with [`Error::HardwareTypeUnavailable`]: the name that
/// was not found does not reach the caller.
pub proof fn lemma_absent_everywhere_is_unavailable<H, C, I>(
    level: SecurityLevel,
    platform: spec_fn(Call) -> Reply<H, C, I>,
)
    requires
        Target::KeyMint(level).native_name() is Some,
        platform(Call::GetInterface { name: Target::KeyMint(level).native_name().unwrap() })
            == Reply::<H, C, I>::Interface(Err(Error::NameNotFound)),
        platform(Call::RegisterBridge) == Reply::<H, C, I>::BridgeRegistered,
        platform(Call::GetCompatService { name: COMPAT_SERVICE_NAME })
            == Reply::<H, C, I>::CompatService(Err(Error::NameNotFound))
            || (platform(Call::GetCompatService { name: COMPAT_SERVICE_NAME }) matches Reply::CompatService(Ok(_))
            && platform(Call::GetKeyMintDevice { level })
            == Reply::<H, C, I>::Wrapper(Err(Error::NameNotFound))),
    ensures
        keymint_negotiation(level, platform).1 matches Some(Err(error))
            && error.kind == Error::HardwareTypeUnavailable,
{
    reveal_with_fuel(keymint_run, 6);
}

/// No negotiation with a platform that answers in kind reports
/// [`Error::NameNotFound`] from the fallback path, whatever the platform
/// does.
pub proof fn lemma_fallback_never_reports_a_missing_name<H, C, I>(
    level: SecurityLevel,
    platform: spec_fn(Call) -> Reply<H, C, I>,
    clock_platform: spec_fn(Call) -> Reply<H, C, ()>,
)
    requires
        answers_in_kind(platform),
        answers_in_kind(clock_platform),
    ensures
        keymint_negotiation(level, platform).1 matches Some(Err(error)) ==> (error.stage
            == ConnectStage::CompatService || error.stage == ConnectStage::LegacyWrapper)
            ==> error.kind != Error::NameNotFound,
        clock_negotiation(clock_platform).1 matches Some(Err(error)) ==> (error.stage
            == ConnectStage::CompatService || error.stage == ConnectStage::LegacyWrapper)
            ==> error.kind != Error::NameNotFound,
{
    lemma_negotiation_ends(level, platform, clock_platform);
    reveal_with_fuel(keymint_run, 6);
    reveal_with_fuel(clock_run, 5);
}

/// Where the native lookup fails with anything but [`Error::NameNotFound`],
/// the negotiation ends after that one call and reports that failure: the
/// fallback is for absence, not for malfunction.
pub proof fn lemma_malfunction_is_not_absence<H, C, I>(
    level: SecurityLevel,
    platform: spec_fn(Call) -> Reply<H, C, I>,
    kind: Error,
)
    requires
        Target::KeyMint(level).native_name() is Some,
        kind != Error::NameNotFound,
        platform(Call::GetInterface { name: Target::KeyMint(level).native_name().unwrap() })
            == Reply::<H, C, I>::Interface(Err(kind)),
    ensures
        keymint_negotiation(level, platform).0 =~= seq![
            Call::GetInterface { name: Target::KeyMint(level).native_name().unwrap() },
        ],
        keymint_negotiation(level, platform).1 == Some(
            Err::<(H, I), ConnectError>(ConnectError { kind, stage: ConnectStage::NativeService }),
        ),
{
    reveal_with_fuel(keymint_run, 2);
}

} // verus!
