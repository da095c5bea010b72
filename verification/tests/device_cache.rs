use keystore2::security_level::{KEYSTORE, SOFTWARE, STRONGBOX, TRUSTED_ENVIRONMENT};
use keystore2::{
    connect_keymint, get_keymint_dev_by_uuid, get_keymint_device, Call, ConnectError,
    ConnectStage, Connecting, DeviceStep, DevicesMap, Error, Reply, SecurityLevel, Step, Uuid,
};

const TEE: SecurityLevel = SecurityLevel(TRUSTED_ENVIRONMENT);
const SB: SecurityLevel = SecurityLevel(STRONGBOX);

/// A platform on which only some native services exist, with no bridge. It
/// counts the negotiations that were started against it.
struct Platform {
    served: Vec<&'static str>,
    next_handle: u32,
    negotiations: usize,
}

impl Platform {
    fn serving(served: Vec<&'static str>) -> Platform {
        Platform { served, next_handle: 100, negotiations: 0 }
    }

    fn answer(&mut self, call: Call) -> Reply<u32, u8, String> {
        match call {
            Call::GetInterface { name } => {
                if self.served.contains(&name) {
                    self.next_handle += 1;
                    Reply::Interface(Ok(self.next_handle))
                } else {
                    Reply::Interface(Err(Error::NameNotFound))
                }
            }
            Call::RegisterBridge => Reply::BridgeRegistered,
            Call::GetCompatService { .. } => Reply::CompatService(Ok(1)),
            Call::GetKeyMintDevice { .. } | Call::GetSecureClock => {
                Reply::Wrapper(Err(Error::NameNotFound))
            }
            Call::GetHardwareInfo => Reply::HardwareInfo(Ok(format!("info of {}", self.next_handle))),
        }
    }

    fn negotiate(&mut self, level: SecurityLevel) -> Result<(u32, String), ConnectError> {
        self.negotiations += 1;
        let mut state = Connecting::Idle;
        let mut reply = None;
        loop {
            let (next, step) = connect_keymint(&level, state, reply);
            state = next;
            match step {
                Step::Call(call) => reply = Some(self.answer(call)),
                Step::Done(outcome) => return outcome,
                Step::Rejected => panic!("a reply in kind was rejected"),
            }
        }
    }
}

/// Resolves a level as the registry does: from the cache, or by one
/// negotiation whose outcome goes back to the cache.
fn resolve(
    devices: &mut DevicesMap<u32, String>,
    platform: &mut Platform,
    level: SecurityLevel,
) -> Result<(u32, String, Uuid), ConnectError> {
    match get_keymint_device(devices, &level, None) {
        DeviceStep::Device(dev, info, uuid) => return Ok((dev, info, uuid)),
        DeviceStep::Failed(error) => return Err(error),
        DeviceStep::Connect => {}
    }
    let outcome = platform.negotiate(level);
    match get_keymint_device(devices, &level, Some(outcome)) {
        DeviceStep::Device(dev, info, uuid) => Ok((dev, info, uuid)),
        DeviceStep::Failed(error) => Err(error),
        DeviceStep::Connect => panic!("an outcome was given, yet a connection is asked for"),
    }
}

const DEFAULT_NAME: &str = "android.hardware.security.keymint.IKeyMintDevice/default";
const STRONGBOX_NAME: &str = "android.hardware.security.keymint.IKeyMintDevice/strongbox";

#[test]
fn empty_cache_finds_nothing() {
    let devices: DevicesMap<u32, String> = DevicesMap::new();
    assert_eq!(devices.dev_by_sec_level(&TEE), None);
    assert_eq!(devices.dev_by_uuid(&Uuid(1)), None);
    assert_eq!(get_keymint_dev_by_uuid(&devices, &Uuid(1)), Err(Error::NotFound));
    let devices: DevicesMap<u32, String> = DevicesMap::default();
    assert_eq!(devices.dev_by_sec_level(&SB), None);
    assert_eq!(devices.dev_by_uuid(&Uuid(0)), None);
}

#[test]
fn insert_records_level_and_identity() {
    let mut devices: DevicesMap<u32, String> = DevicesMap::new();
    devices.insert(SB, 7, String::from("strongbox info"));
    assert_eq!(devices.dev_by_sec_level(&SB), Some((7, String::from("strongbox info"), Uuid(2))));
    assert_eq!(devices.dev_by_uuid(&Uuid(2)), Some((7, String::from("strongbox info"), Uuid(2))));
    assert_eq!(devices.dev_by_sec_level(&TEE), None);
    assert_eq!(devices.dev_by_uuid(&Uuid(1)), None);
}

#[test]
fn insert_again_replaces_the_record() {
    let mut devices: DevicesMap<u32, String> = DevicesMap::new();
    devices.insert(TEE, 7, String::from("first"));
    devices.insert(TEE, 8, String::from("second"));
    assert_eq!(devices.dev_by_sec_level(&TEE), Some((8, String::from("second"), Uuid(1))));
    assert_eq!(devices.dev_by_uuid(&Uuid(1)), Some((8, String::from("second"), Uuid(1))));
}

#[test]
fn insert_for_one_level_leaves_the_others() {
    let mut devices: DevicesMap<u32, String> = DevicesMap::new();
    devices.insert(TEE, 7, String::from("tee"));
    devices.insert(SB, 8, String::from("sb"));
    devices.insert(SecurityLevel(-1), 9, String::from("odd"));
    assert_eq!(devices.dev_by_sec_level(&TEE), Some((7, String::from("tee"), Uuid(1))));
    assert_eq!(devices.dev_by_sec_level(&SB), Some((8, String::from("sb"), Uuid(2))));
    assert_eq!(
        devices.dev_by_sec_level(&SecurityLevel(-1)),
        Some((9, String::from("odd"), Uuid(u128::MAX)))
    );
    assert_eq!(get_keymint_dev_by_uuid(&devices, &Uuid(u128::MAX)), Ok((9, String::from("odd"))));
}

#[test]
fn request_for_an_unknown_level_asks_for_a_connection() {
    let mut devices: DevicesMap<u32, String> = DevicesMap::new();
    assert_eq!(get_keymint_device(&mut devices, &TEE, None), DeviceStep::Connect);
    assert_eq!(get_keymint_device(&mut devices, &TEE, None), DeviceStep::Connect);
    assert_eq!(devices.dev_by_sec_level(&TEE), None);
}

#[test]
fn connection_is_recorded_and_handed_out() {
    let mut devices: DevicesMap<u32, String> = DevicesMap::new();
    assert_eq!(
        get_keymint_device(&mut devices, &TEE, Some(Ok((5, String::from("five"))))),
        DeviceStep::Device(5, String::from("five"), Uuid(1))
    );
    assert_eq!(
        get_keymint_device(&mut devices, &TEE, None),
        DeviceStep::Device(5, String::from("five"), Uuid(1))
    );
    assert_eq!(get_keymint_dev_by_uuid(&devices, &Uuid(1)), Ok((5, String::from("five"))));
}

#[test]
fn failed_negotiation_fails_the_request_and_records_nothing() {
    let mut devices: DevicesMap<u32, String> = DevicesMap::new();
    let error = ConnectError { kind: Error::Transport(-32), stage: ConnectStage::NativeService };
    assert_eq!(get_keymint_device(&mut devices, &TEE, Some(Err(error))), DeviceStep::Failed(error));
    assert_eq!(get_keymint_device(&mut devices, &TEE, None), DeviceStep::Connect);
    assert_eq!(get_keymint_dev_by_uuid(&devices, &Uuid(1)), Err(Error::NotFound));
}

#[test]
fn last_connection_for_a_level_wins() {
    let mut devices: DevicesMap<u32, String> = DevicesMap::new();
    assert_eq!(get_keymint_device(&mut devices, &SB, None), DeviceStep::Connect);
    assert_eq!(get_keymint_device(&mut devices, &SB, None), DeviceStep::Connect);
    assert_eq!(
        get_keymint_device(&mut devices, &SB, Some(Ok((1, String::from("a"))))),
        DeviceStep::Device(1, String::from("a"), Uuid(2))
    );
    assert_eq!(
        get_keymint_device(&mut devices, &SB, Some(Ok((2, String::from("b"))))),
        DeviceStep::Device(2, String::from("b"), Uuid(2))
    );
    assert_eq!(
        get_keymint_device(&mut devices, &SB, None),
        DeviceStep::Device(2, String::from("b"), Uuid(2))
    );
}

#[test]
fn resolved_level_is_never_negotiated_again() {
    let mut devices = DevicesMap::new();
    let mut platform = Platform::serving(vec![DEFAULT_NAME, STRONGBOX_NAME]);
    let first = resolve(&mut devices, &mut platform, TEE).unwrap();
    assert_eq!(platform.negotiations, 1);
    for _ in 0..50 {
        assert_eq!(resolve(&mut devices, &mut platform, TEE), Ok(first.clone()));
    }
    assert_eq!(platform.negotiations, 1);
    let strongbox = resolve(&mut devices, &mut platform, SB).unwrap();
    assert_eq!(platform.negotiations, 2);
    assert_ne!(strongbox.0, first.0);
    for _ in 0..50 {
        assert_eq!(resolve(&mut devices, &mut platform, TEE), Ok(first.clone()));
        assert_eq!(resolve(&mut devices, &mut platform, SB), Ok(strongbox.clone()));
    }
    assert_eq!(platform.negotiations, 2);
}

#[test]
fn failed_level_is_negotiated_again_on_the_next_request() {
    let mut devices = DevicesMap::new();
    let mut platform = Platform::serving(vec![]);
    let unavailable =
        ConnectError { kind: Error::HardwareTypeUnavailable, stage: ConnectStage::LegacyWrapper };
    assert_eq!(resolve(&mut devices, &mut platform, TEE), Err(unavailable));
    assert_eq!(resolve(&mut devices, &mut platform, TEE), Err(unavailable));
    assert_eq!(platform.negotiations, 2);
}

#[test]
fn lookup_by_identity_never_negotiates() {
    let mut devices = DevicesMap::new();
    let mut platform = Platform::serving(vec![DEFAULT_NAME]);
    for code in [SOFTWARE, TRUSTED_ENVIRONMENT, STRONGBOX, KEYSTORE, -1] {
        assert_eq!(
            get_keymint_dev_by_uuid(&devices, &Uuid::from(SecurityLevel(code))),
            Err(Error::NotFound)
        );
    }
    assert_eq!(platform.negotiations, 0);
    let (dev, info, uuid) = resolve(&mut devices, &mut platform, TEE).unwrap();
    assert_eq!(uuid, Uuid::from(TEE));
    assert_eq!(get_keymint_dev_by_uuid(&devices, &uuid), Ok((dev, info.clone())));
    assert_eq!(get_keymint_dev_by_uuid(&devices, &uuid), Ok((dev, info)));
    assert_eq!(get_keymint_dev_by_uuid(&devices, &Uuid::from(SB)), Err(Error::NotFound));
    assert_eq!(platform.negotiations, 1);
}

#[test]
fn only_trusted_environment_available() {
    let mut devices = DevicesMap::new();
    let mut platform = Platform::serving(vec![DEFAULT_NAME]);
    let strongbox = resolve(&mut devices, &mut platform, SB);
    assert_eq!(strongbox.unwrap_err().kind, Error::HardwareTypeUnavailable);
    let (dev, info, uuid) = resolve(&mut devices, &mut platform, TEE).unwrap();
    assert_eq!((dev, info.as_str(), uuid), (101, "info of 101", Uuid(1)));
    assert_eq!(get_keymint_dev_by_uuid(&devices, &uuid), Ok((dev, info)));
    assert_eq!(get_keymint_dev_by_uuid(&devices, &Uuid::from(SB)), Err(Error::NotFound));
}
