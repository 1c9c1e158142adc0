use astrotools::device::Device;
use astrotools::device::DeviceProperty;
use astrotools::device::PropEntry;
use astrotools::device::PropValue;
use astrotools::device::SyncState;
use astrotools::device::Transport;
use astrotools::properties::ChoiceProperty;
use astrotools::properties::Permission;
use astrotools::properties::Property;
use astrotools::properties::PropertyError;
use astrotools::properties::RangeProperty;
use astrotools::types::DeviceType;
use astrotools::LightspeedError;

struct MockTransport {
    reachable: bool,
    push_ok: bool,
    readings: Vec<(String, PropValue)>,
    pushed: Vec<(String, PropValue)>,
}

impl MockTransport {
    fn new(reachable: bool) -> MockTransport {
        MockTransport { reachable, push_ok: true, readings: Vec::new(), pushed: Vec::new() }
    }
}

impl Transport for MockTransport {
    fn handshake(&mut self, _address: &str) -> bool {
        self.reachable
    }

    fn push_update(&mut self, name: &str, value: &PropValue) -> bool {
        if self.push_ok {
            self.pushed.push((name.to_string(), value.clone()));
        }
        self.push_ok
    }

    fn poll_state(&mut self) -> Vec<(String, PropValue)> {
        self.readings.clone()
    }
}

fn filter_wheel_device<T: Transport>(transport: &mut T) -> Option<Device> {
    let props = vec![
        DeviceProperty::new(
            String::from("slot"),
            PropEntry::IntRange(RangeProperty::new(0, Permission::ReadWrite, 0, 7)),
        ),
        DeviceProperty::new(
            String::from("speed"),
            PropEntry::IntChoice(ChoiceProperty::new(0, Permission::ReadWrite, vec![0, 1, 2, 3])),
        ),
        DeviceProperty::new(
            String::from("firmware"),
            PropEntry::Plain(Property::new(
                PropValue::Text(String::from("v1.0")),
                Permission::ReadOnly,
            )),
        ),
    ];
    Device::try_connect(
        transport,
        7,
        String::from("wheel"),
        String::from("/dev/ttyUSB0"),
        DeviceType::FilterWheel,
        props,
    )
}

fn prop_value(d: &Device, name: &str) -> PropValue {
    let i = d.find_property_index(name).unwrap();
    d.get_properties()[i].entry.value()
}

#[test]
fn test_construction_fails_on_unreachable_address() {
    let mut t = MockTransport::new(false);
    let d = filter_wheel_device(&mut t);
    assert!(d.is_none());
}

#[test]
fn test_construction_succeeds_on_handshake() {
    let mut t = MockTransport::new(true);
    let d = filter_wheel_device(&mut t).unwrap();
    assert_eq!(d.state, SyncState::Connected);
    assert_eq!(d.id, 7);
    assert_eq!(d.get_properties().len(), 3);
    assert_eq!(d.find_property_index("slot"), Some(0));
    assert_eq!(d.find_property_index("gain"), None);
}

#[test]
fn test_update_unknown_property_is_reported() {
    let mut t = MockTransport::new(true);
    let mut d = filter_wheel_device(&mut t).unwrap();
    let r = d.update_property(&mut t, "gain", PropValue::Int(1));
    assert_eq!(r, Err(LightspeedError::UnknownProperty));
}

#[test]
fn test_update_readonly_device_property_fails() {
    let mut t = MockTransport::new(true);
    let mut d = filter_wheel_device(&mut t).unwrap();
    let r = d.update_property(&mut t, "firmware", PropValue::Text(String::from("v2.0")));
    assert_eq!(
        r,
        Err(LightspeedError::PropertyError(PropertyError::CannotUpdateReadOnlyProp))
    );
    assert_eq!(prop_value(&d, "firmware"), PropValue::Text(String::from("v1.0")));
    assert_eq!(t.pushed.len(), 0);
}

#[test]
fn test_update_out_of_range_device_property_fails() {
    let mut t = MockTransport::new(true);
    let mut d = filter_wheel_device(&mut t).unwrap();
    let r = d.update_property(&mut t, "slot", PropValue::Int(8));
    assert_eq!(r, Err(LightspeedError::PropertyError(PropertyError::InvalidValue)));
    assert_eq!(prop_value(&d, "slot"), PropValue::Int(0));
    let r = d.update_property(&mut t, "slot", PropValue::Bool(true));
    assert_eq!(r, Err(LightspeedError::PropertyError(PropertyError::InvalidValue)));
    assert_eq!(t.pushed.len(), 0);
}

#[test]
fn test_update_pushes_to_hardware_and_commits() {
    let mut t = MockTransport::new(true);
    let mut d = filter_wheel_device(&mut t).unwrap();
    let r = d.update_property(&mut t, "slot", PropValue::Int(5));
    assert_eq!(r, Ok(()));
    assert_eq!(prop_value(&d, "slot"), PropValue::Int(5));
    assert_eq!(t.pushed, vec![(String::from("slot"), PropValue::Int(5))]);
}

#[test]
fn test_failed_push_marks_device_stale() {
    let mut t = MockTransport::new(true);
    let mut d = filter_wheel_device(&mut t).unwrap();
    t.push_ok = false;
    let r = d.update_property(&mut t, "slot", PropValue::Int(5));
    assert_eq!(r, Err(LightspeedError::DeviceConnectionError));
    assert_eq!(d.state, SyncState::Stale);
}

#[test]
fn test_fetch_props_synchronizes_cache() {
    let mut t = MockTransport::new(true);
    let mut d = filter_wheel_device(&mut t).unwrap();
    t.readings = vec![
        (String::from("slot"), PropValue::Int(3)),
        // The sync path bypasses permission: the read-only firmware tag
        // is refreshed from the hardware's telemetry.
        (String::from("firmware"), PropValue::Text(String::from("v1.1"))),
        // A reading for a property the device does not own is ignored.
        (String::from("gain"), PropValue::Int(9)),
    ];
    let r = d.fetch_props(&mut t);
    assert_eq!(r, Ok(()));
    assert_eq!(d.state, SyncState::Synchronized);
    assert_eq!(prop_value(&d, "slot"), PropValue::Int(3));
    assert_eq!(prop_value(&d, "firmware"), PropValue::Text(String::from("v1.1")));
}

#[test]
fn test_fetch_props_rejects_out_of_domain_reading() {
    let mut t = MockTransport::new(true);
    let mut d = filter_wheel_device(&mut t).unwrap();
    t.readings = vec![
        (String::from("slot"), PropValue::Int(99)),
        (String::from("speed"), PropValue::Int(2)),
    ];
    let r = d.fetch_props(&mut t);
    assert_eq!(r, Err(LightspeedError::PropertyError(PropertyError::InvalidValue)));
    // The valid reading was absorbed, the out-of-domain one left the
    // cache unchanged, and the device still counts as synchronized.
    assert_eq!(prop_value(&d, "slot"), PropValue::Int(0));
    assert_eq!(prop_value(&d, "speed"), PropValue::Int(2));
    assert_eq!(d.state, SyncState::Synchronized);
}

#[test]
fn test_client_update_stales_synchronized_device() {
    let mut t = MockTransport::new(true);
    let mut d = filter_wheel_device(&mut t).unwrap();
    let _ = d.fetch_props(&mut t);
    assert_eq!(d.state, SyncState::Synchronized);
    let r = d.update_property(&mut t, "speed", PropValue::Int(1));
    assert_eq!(r, Ok(()));
    assert_eq!(d.state, SyncState::Stale);
}

#[test]
fn test_device_choice_update_via_dispatch() {
    let mut t = MockTransport::new(true);
    let mut d = filter_wheel_device(&mut t).unwrap();
    let r = d.update_property(&mut t, "speed", PropValue::Int(100));
    assert_eq!(r, Err(LightspeedError::PropertyError(PropertyError::InvalidValue)));
    let r = d.update_property(&mut t, "speed", PropValue::Int(3));
    assert_eq!(r, Ok(()));
    assert_eq!(prop_value(&d, "speed"), PropValue::Int(3));
}
