use ble_bridge::{
    deliver, dispatch, filter_event, handle_event, is_boundary_safe, marshal, recognise,
    signal_strength, Action, AdvertisementEvent, CSwitchBotBotData, CSwitchBotHumidifierData,
    CSwitchBotMeterData, CSwitchBotPlugData, Delivery, DeviceData, DeviceManufacturer,
    DeviceMetadata, DeviceModel, Driver, DriverState, Reading, SensorData, SourceItem,
    TerminalReason,
};

fn metadata(address: &str, rssi: Option<i16>, manufacturer_data: Vec<Vec<u8>>) -> DeviceMetadata {
    DeviceMetadata { address: address.to_string(), rssi, manufacturer_data }
}

fn service_event(payloads: Vec<Vec<u8>>) -> AdvertisementEvent {
    AdvertisementEvent::ServiceDataChanged { payloads }
}

fn event_item(event: AdvertisementEvent, md: Option<DeviceMetadata>) -> SourceItem {
    SourceItem::Event { event, metadata: md }
}

const BOT_ON_FULL: [u8; 3] = [0x48, 0x40, 0x64];
const METER_PLUS: [u8; 6] = [0x69, 0x00, 0x64, 0x00, 0x97, 0x2A];

#[test]
fn marshal_bot_copies_every_field() {
    let r = marshal(0x48, Reading::Bot { battery: 57, state: true }, -40);
    assert_eq!(r.manufacturer, DeviceManufacturer::SwitchBot);
    assert_eq!(r.model, DeviceModel::SwitchBot(0x48));
    assert_eq!(
        r.device_data,
        DeviceData::SwitchBotBot(CSwitchBotBotData { bluetooth_rssi: -40, battery: 57, state: true })
    );
}

#[test]
fn marshal_meter_scenario() {
    let r = marshal(0x69, Reading::Meter { battery: 80, temperature: 2350, humidity: 45 }, -62);
    assert_eq!(r.manufacturer, DeviceManufacturer::SwitchBot);
    assert_eq!(
        r.device_data,
        DeviceData::SwitchBotMeter(CSwitchBotMeterData {
            bluetooth_rssi: -62,
            temperature: 2350,
            humidity: 45,
            battery: 80,
        })
    );
}

#[test]
fn marshal_plug_copies_every_field() {
    let r = marshal(0x67, Reading::Plug { wifi_rssi: -51, state: false, watts: 1234, overload: true }, -3);
    assert_eq!(
        r.device_data,
        DeviceData::SwitchBotPlug(CSwitchBotPlugData {
            bluetooth_rssi: -3,
            wifi_rssi: -51,
            state: false,
            watts: 1234,
            overload: true,
        })
    );
}

#[test]
fn marshal_humidifier_copies_every_field() {
    let r = marshal(0x65, Reading::Humidifier { state: true, humidity: 60, auto_mode: false }, -90);
    assert_eq!(
        r.device_data,
        DeviceData::SwitchBotHumidifier(CSwitchBotHumidifierData {
            bluetooth_rssi: -90,
            humidity: 60,
            state: true,
            auto_mode: false,
        })
    );
}

#[test]
fn deliver_meter_scenario() {
    let d = deliver(
        0x69,
        Reading::Meter { battery: 80, temperature: 2350, humidity: 45 },
        metadata("AA:BB:CC:DD:EE:FF", Some(-62), vec![]),
    )
    .unwrap();
    assert_eq!(d.address, "AA:BB:CC:DD:EE:FF");
    assert_eq!(
        d.record,
        SensorData {
            manufacturer: DeviceManufacturer::SwitchBot,
            model: DeviceModel::SwitchBot(0x69),
            device_data: DeviceData::SwitchBotMeter(CSwitchBotMeterData {
                bluetooth_rssi: -62,
                temperature: 2350,
                humidity: 45,
                battery: 80,
            }),
        }
    );
}

#[test]
fn deliver_drops_address_with_nul() {
    let d = deliver(0x48, Reading::Bot { battery: 1, state: false }, metadata("AA:BB\0", Some(-1), vec![]));
    assert!(d.is_none());
}

#[test]
fn boundary_safety_of_addresses() {
    assert!(is_boundary_safe(&"11:22:33:44:55:66".to_string()));
    assert!(is_boundary_safe(&String::new()));
    assert!(!is_boundary_safe(&"\0".to_string()));
    assert!(!is_boundary_safe(&"11:22\033:44".to_string()));
}

#[test]
fn decoder_reads_meter_plus() {
    let r = dispatch(&METER_PLUS.to_vec(), None);
    assert_eq!(r, Some((0x69, Reading::Meter { battery: 100, temperature: 23, humidity: 42 })));
}

#[test]
fn decoder_reads_bot() {
    let r = dispatch(&BOT_ON_FULL.to_vec(), None);
    assert_eq!(r, Some((0x48, Reading::Bot { battery: 100, state: true })));
}

#[test]
fn decoder_reads_humidifier() {
    let r = dispatch(&vec![0x65, 0x80, 0x00, 0x00, 0x80 | 55], None);
    assert_eq!(r, Some((0x65, Reading::Humidifier { state: true, humidity: 55, auto_mode: true })));
}

#[test]
fn decoder_reads_plug_from_manufacturer_data() {
    let m = vec![0, 0, 0, 0, 0, 0, 0, 0x80, 0, 50, 0x81, 0x2C];
    let r = dispatch(&vec![0x67, 0x00, 0x00], Some(&m));
    assert_eq!(r, Some((0x67, Reading::Plug { wifi_rssi: -50, state: true, watts: 30, overload: true })));
    assert_eq!(dispatch(&vec![0x67, 0x00, 0x00], None), None);
}

#[test]
fn decoder_rejects_short_and_unknown_payloads() {
    assert_eq!(dispatch(&vec![], None), None);
    assert_eq!(dispatch(&vec![0x48, 0x40], None), None);
    assert_eq!(dispatch(&vec![0x00, 0x00, 0x00], Some(&vec![0; 12])), None);
    assert_eq!(dispatch(&vec![0x48, 0x40, 0x64, 0x00], None), None);
}

#[test]
fn recognise_needs_model_and_reading() {
    let b = Reading::Bot { battery: 3, state: true };
    assert_eq!(recognise((Some(7), Some(b))), Some((7, b)));
    assert_eq!(recognise((None, Some(b))), None);
    assert_eq!(recognise((Some(7), None)), None);
    assert_eq!(recognise((None, None)), None);
}

#[test]
fn filter_ignores_other_events() {
    let md = Some(metadata("A", Some(-1), vec![vec![1]]));
    assert!(filter_event(&AdvertisementEvent::Other, &md).is_none());
    assert!(handle_event(&AdvertisementEvent::Other, md).is_none());
}

#[test]
fn filter_ignores_empty_service_data() {
    let md = Some(metadata("A", Some(-1), vec![]));
    assert!(filter_event(&service_event(vec![]), &md).is_none());
}

#[test]
fn filter_picks_last_payloads() {
    let md = Some(metadata("A", None, vec![vec![1], vec![2, 2]]));
    let ev = service_event(vec![vec![9], vec![8, 8], vec![7, 7, 7]]);
    let (s, m) = filter_event(&ev, &md).unwrap();
    assert_eq!(s, &vec![7, 7, 7]);
    assert_eq!(m, Some(&vec![2, 2]));
    let md = Some(metadata("A", None, vec![]));
    let (_, m) = filter_event(&ev, &md).unwrap();
    assert_eq!(m, None);
}

#[test]
fn signal_strength_defaults_to_zero() {
    assert_eq!(signal_strength(&metadata("A", Some(-77), vec![])), -77);
    assert_eq!(signal_strength(&metadata("A", None, vec![])), 0);
}

#[test]
fn decode_without_manufacturer_data_uses_metadata_rssi() {
    let d = handle_event(&service_event(vec![BOT_ON_FULL.to_vec()]), Some(metadata("01:02", Some(-70), vec![])));
    let expected = Delivery {
        address: "01:02".to_string(),
        record: SensorData {
            manufacturer: DeviceManufacturer::SwitchBot,
            model: DeviceModel::SwitchBot(0x48),
            device_data: DeviceData::SwitchBotBot(CSwitchBotBotData { bluetooth_rssi: -70, battery: 100, state: true }),
        },
    };
    assert_eq!(d, Some(expected));
}

#[test]
fn decode_without_manufacturer_data_or_rssi_gives_zero() {
    let d = handle_event(&service_event(vec![BOT_ON_FULL.to_vec()]), Some(metadata("01:02", None, vec![]))).unwrap();
    assert_eq!(
        d.record.device_data,
        DeviceData::SwitchBotBot(CSwitchBotBotData { bluetooth_rssi: 0, battery: 100, state: true })
    );
}

#[test]
fn failed_metadata_lookup_skips_event() {
    assert!(handle_event(&service_event(vec![BOT_ON_FULL.to_vec()]), None).is_none());
    let mut driver = Driver::new();
    let a = driver.step(event_item(service_event(vec![BOT_ON_FULL.to_vec()]), None));
    assert_eq!(a, Action::Skip);
    assert!(driver.is_running());
    let a = driver.step(event_item(service_event(vec![BOT_ON_FULL.to_vec()]), Some(metadata("X", None, vec![]))));
    assert!(matches!(a, Action::Deliver(_)));
}

#[test]
fn repeated_malformed_payload_is_discarded() {
    let mut driver = Driver::new();
    for _ in 0..100 {
        let a = driver.step(event_item(service_event(vec![vec![0x48, 0x40]]), Some(metadata("X", Some(-5), vec![]))));
        assert_eq!(a, Action::Skip);
        assert_eq!(driver.state, DriverState::Running);
    }
}

#[test]
fn deliveries_follow_source_order() {
    let md = |a: &str| Some(metadata(a, Some(-10), vec![]));
    let items = vec![
        event_item(AdvertisementEvent::Other, md("irrelevant")),
        event_item(service_event(vec![BOT_ON_FULL.to_vec()]), md("first")),
        event_item(service_event(vec![vec![0xFF, 0x01]]), md("malformed")),
        event_item(service_event(vec![METER_PLUS.to_vec()]), md("second")),
        event_item(service_event(vec![BOT_ON_FULL.to_vec()]), None),
        event_item(service_event(vec![vec![0x48, 0x00, 0x32]]), md("third")),
    ];
    let mut driver = Driver::new();
    let mut seen: Vec<Delivery> = Vec::new();
    for item in items {
        match driver.step(item) {
            Action::Deliver(d) => seen.push(d),
            Action::Skip => {}
            Action::Stop(_) => panic!("stopped early"),
        }
    }
    let addresses: Vec<&str> = seen.iter().map(|d| d.address.as_str()).collect();
    assert_eq!(addresses, vec!["first", "second", "third"]);
    assert_eq!(
        seen[1].record.device_data,
        DeviceData::SwitchBotMeter(CSwitchBotMeterData { bluetooth_rssi: -10, temperature: 23, humidity: 42, battery: 100 })
    );
    assert_eq!(
        seen[2].record.device_data,
        DeviceData::SwitchBotBot(CSwitchBotBotData { bluetooth_rssi: -10, battery: 50, state: false })
    );
    assert!(driver.is_running());
}

#[test]
fn source_end_stops_the_run() {
    let mut driver = Driver::new();
    assert_eq!(driver.step(SourceItem::Ended), Action::Stop(TerminalReason::SourceEnded));
    assert_eq!(driver.state, DriverState::Terminated(TerminalReason::SourceEnded));
    assert!(!driver.is_running());
    let a = driver.step(event_item(service_event(vec![BOT_ON_FULL.to_vec()]), Some(metadata("X", None, vec![]))));
    assert_eq!(a, Action::Skip);
    assert_eq!(driver.step(SourceItem::Failed), Action::Skip);
}

#[test]
fn source_failure_stops_the_run() {
    let mut driver = Driver::new();
    assert_eq!(driver.step(SourceItem::Failed), Action::Stop(TerminalReason::SourceFailed));
    assert_eq!(driver.state, DriverState::Terminated(TerminalReason::SourceFailed));
}

#[test]
fn status_codes_are_distinct() {
    assert_eq!(TerminalReason::SourceEnded.status_code(), 0);
    assert_eq!(TerminalReason::StartFailed.status_code(), 1);
    assert_eq!(TerminalReason::SourceFailed.status_code(), 2);
}
