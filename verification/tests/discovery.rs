use car_protocol::ble::{RX_CHARACTERISTIC_UUID, SERVICE_UUID, TX_CHARACTERISTIC_UUID};
use car_protocol::discovery::{
    check_address, check_advertisement, find_serial_characteristics, find_service,
    judge_candidate, scan_step, scan_wait, vehicle_address, AdapterEvent, CandidateVerdict,
    ScanDecision, ScanInput, SerialCharacteristics, POLL_DELAY, SCAN_TIMEOUT,
};
use car_protocol::error::BluetoothError;

const OTHER: u128 = 0x1234;

#[test]
fn constants() {
    assert_eq!(SCAN_TIMEOUT, 5000);
    assert_eq!(POLL_DELAY, 20);
    assert_eq!(vehicle_address(), [0x00, 0x60, 0x37, 0xE9, 0x0B, 0x6F]);
}

#[test]
fn scan_fails_when_the_events_end_in_time() {
    assert!(matches!(
        scan_step(ScanInput::Ended, 0),
        ScanDecision::Fail(BluetoothError::MissingAdapterEvent)
    ));
    assert!(matches!(
        scan_step(ScanInput::Ended, 5000),
        ScanDecision::Fail(BluetoothError::MissingAdapterEvent)
    ));
}

#[test]
fn scan_gives_up_after_the_timeout_event_or_none() {
    let added = ScanInput::Event(AdapterEvent::DeviceAdded(vehicle_address()));
    assert!(matches!(scan_step(added, 5000), ScanDecision::Probe(_)));
    let inputs = [
        added,
        ScanInput::Event(AdapterEvent::DeviceRemoved(vehicle_address())),
        ScanInput::Event(AdapterEvent::PropertyChanged),
        ScanInput::Nothing,
        ScanInput::Ended,
    ];
    for input in inputs {
        assert!(matches!(scan_step(input, 5001), ScanDecision::GiveUp));
        assert!(matches!(scan_step(input, 60_000), ScanDecision::GiveUp));
        assert!(matches!(scan_step(input, u128::MAX), ScanDecision::GiveUp));
    }
}

#[test]
fn scan_waits_while_nothing_happens_in_time() {
    assert!(matches!(scan_step(ScanInput::Nothing, 0), ScanDecision::Wait));
    assert!(matches!(scan_step(ScanInput::Nothing, 5000), ScanDecision::Wait));
}

#[test]
fn scan_probes_added_devices_only() {
    let address = [1, 2, 3, 4, 5, 6];
    match scan_step(ScanInput::Event(AdapterEvent::DeviceAdded(address)), 0) {
        ScanDecision::Probe(probed) => assert_eq!(probed, address),
        other => panic!("expected a probe, got {:?}", other),
    }
    assert!(matches!(
        scan_step(ScanInput::Event(AdapterEvent::DeviceRemoved(address)), 0),
        ScanDecision::Wait
    ));
    assert!(matches!(
        scan_step(ScanInput::Event(AdapterEvent::PropertyChanged), 4999),
        ScanDecision::Wait
    ));
}

#[test]
fn scan_wait_ends_just_after_the_limit() {
    assert_eq!(scan_wait(0), 5001);
    assert_eq!(scan_wait(1), 5000);
    assert_eq!(scan_wait(4999), 2);
    assert_eq!(scan_wait(5000), 1);
    assert_eq!(scan_wait(5001), 0);
    assert_eq!(scan_wait(u128::MAX), 0);
    for elapsed in [0_u128, 1, 2500, 4999, 5000, 5001, 9000] {
        let later = elapsed + scan_wait(elapsed) as u128;
        assert!(matches!(scan_step(ScanInput::Nothing, later), ScanDecision::GiveUp));
    }
}

#[test]
fn address_is_tested_on_its_own() {
    let address = vehicle_address();
    let other = [0x00, 0x60, 0x37, 0xE9, 0x0B, 0x6E];
    assert_eq!(check_address(&address, Some(&address)), Ok(()));
    assert_eq!(check_address(&other, Some(&address)), Err(BluetoothError::MissingService));
    assert_eq!(check_address(&other, None), Ok(()));
    assert_eq!(check_address(&address, None), Ok(()));
}

#[test]
fn advertisement_needs_the_service() {
    let address = vehicle_address();
    assert_eq!(check_advertisement(&address, None, &[OTHER, SERVICE_UUID]), Ok(()));
    assert_eq!(
        check_advertisement(&address, None, &[OTHER, TX_CHARACTERISTIC_UUID]),
        Err(BluetoothError::MissingService)
    );
    assert_eq!(check_advertisement(&address, None, &[]), Err(BluetoothError::MissingService));
}

#[test]
fn advertisement_is_filtered_by_expected_address() {
    let address = vehicle_address();
    let other = [0x00, 0x60, 0x37, 0xE9, 0x0B, 0x6E];
    assert_eq!(check_advertisement(&address, Some(&address), &[SERVICE_UUID]), Ok(()));
    assert_eq!(
        check_advertisement(&other, Some(&address), &[SERVICE_UUID]),
        Err(BluetoothError::MissingService)
    );
    assert_eq!(check_advertisement(&other, None, &[SERVICE_UUID]), Ok(()));
    assert_eq!(
        check_advertisement(&address, Some(&address), &[OTHER]),
        Err(BluetoothError::MissingService)
    );
}

#[test]
fn first_matching_service_is_taken() {
    assert_eq!(find_service(&[OTHER, SERVICE_UUID, OTHER, SERVICE_UUID]), Ok(1));
    assert_eq!(find_service(&[SERVICE_UUID]), Ok(0));
    assert_eq!(find_service(&[OTHER, OTHER]), Err(BluetoothError::MissingService));
    assert_eq!(find_service(&[]), Err(BluetoothError::MissingService));
}

#[test]
fn both_characteristics_are_needed() {
    assert_eq!(
        find_serial_characteristics(&[OTHER, RX_CHARACTERISTIC_UUID, OTHER, TX_CHARACTERISTIC_UUID]),
        Ok(SerialCharacteristics { rx_characteristic: 1, tx_characteristic: 3 })
    );
    assert_eq!(
        find_serial_characteristics(&[TX_CHARACTERISTIC_UUID, RX_CHARACTERISTIC_UUID]),
        Ok(SerialCharacteristics { rx_characteristic: 1, tx_characteristic: 0 })
    );
    assert_eq!(
        find_serial_characteristics(&[RX_CHARACTERISTIC_UUID, OTHER]),
        Err(BluetoothError::MissingCharacteristic)
    );
    assert_eq!(
        find_serial_characteristics(&[TX_CHARACTERISTIC_UUID]),
        Err(BluetoothError::MissingCharacteristic)
    );
    assert_eq!(find_serial_characteristics(&[]), Err(BluetoothError::MissingCharacteristic));
}

#[test]
fn reading_stops_once_both_characteristics_are_seen() {
    let uuids = [
        RX_CHARACTERISTIC_UUID,
        RX_CHARACTERISTIC_UUID,
        TX_CHARACTERISTIC_UUID,
        RX_CHARACTERISTIC_UUID,
        TX_CHARACTERISTIC_UUID,
    ];
    assert_eq!(
        find_serial_characteristics(&uuids),
        Ok(SerialCharacteristics { rx_characteristic: 1, tx_characteristic: 2 })
    );
}

#[test]
fn candidate_verdicts() {
    let chosen = SerialCharacteristics { rx_characteristic: 0, tx_characteristic: 1 };
    assert_eq!(judge_candidate(true, Ok(chosen)), CandidateVerdict::Select(chosen));
    assert_eq!(judge_candidate(false, Ok(chosen)), CandidateVerdict::Select(chosen));
    assert_eq!(
        judge_candidate(true, Err(BluetoothError::MissingCharacteristic)),
        CandidateVerdict::DisconnectAndContinue
    );
    assert_eq!(
        judge_candidate(true, Err(BluetoothError::MissingService)),
        CandidateVerdict::DisconnectAndContinue
    );
    assert_eq!(
        judge_candidate(false, Err(BluetoothError::MissingService)),
        CandidateVerdict::Continue
    );
}
