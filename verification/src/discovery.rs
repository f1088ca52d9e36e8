//! Decisions taken while scanning for the wireless peripheral: when to give
//! up, which advertised device to try, and which of its characteristics to
//! use.

use crate::ble::{RX_CHARACTERISTIC_UUID, SERVICE_UUID, TX_CHARACTERISTIC_UUID};
use crate::error::BluetoothError;
use vstd::prelude::*;

verus! {

/// Milliseconds after which a scan is given up.
pub const SCAN_TIMEOUT: u64 = 5000;

/// Milliseconds between two ticks of the bridge.
pub const POLL_DELAY: u64 = 20;

/// The address of the vehicle's peripheral, `00:60:37:E9:0B:6F`.
pub fn vehicle_address() -> (r: [u8; 6])
    ensures
        r@ == seq![0x00u8, 0x60u8, 0x37u8, 0xE9u8, 0x0Bu8, 0x6Fu8],
{
    let r: [u8; 6] = [0x00, 0x60, 0x37, 0xE9, 0x0B, 0x6F];
    assert(r@ =~= seq![0x00u8, 0x60u8, 0x37u8, 0xE9u8, 0x0Bu8, 0x6Fu8]);
    r
}

/// What the adapter reports during a scan.
#[derive(Clone, Copy, Debug)]
pub enum AdapterEvent {
    DeviceAdded([u8; 6]),
    DeviceRemoved([u8; 6]),
    PropertyChanged,
}

/// What waiting for the next adapter event brought.
#[derive(Clone, Copy, Debug)]
pub enum ScanInput {
    /// The adapter reported an event.
    Event(AdapterEvent),
    /// The stream of events has ended.
    Ended,
    /// Nothing arrived in the time that was waited.
    Nothing,
}

/// What the scan does next.
#[derive(Clone, Copy, Debug)]
pub enum ScanDecision {
    /// The event stream ended: the scan fails.
    Fail(BluetoothError),
    /// The scan has run out of time: no device was found.
    GiveUp,
    /// A device appeared: look at it.
    Probe([u8; 6]),
    /// Nothing to do yet: wait for the next event.
    Wait,
}

/// The decision after one wait. Once more than `SCAN_TIMEOUT` milliseconds
/// have passed the scan gives up, whether an event arrived or not. Before
/// that, a stream that has ended fails the scan, a device that was added is
/// looked at, and anything else means waiting on.
pub open spec fn scan_decision(input: ScanInput, elapsed_ms: u128) -> ScanDecision {
    if elapsed_ms > SCAN_TIMEOUT {
        ScanDecision::GiveUp
    } else {
        match input {
            ScanInput::Ended => ScanDecision::Fail(BluetoothError::MissingAdapterEvent),
            ScanInput::Event(AdapterEvent::DeviceAdded(address)) => ScanDecision::Probe(address),
            _ => ScanDecision::Wait,
        }
    }
}

/// How long the scan may wait for the next event, in milliseconds: until
/// just after the time limit, and not at all once the limit has passed.
pub open spec fn scan_wait_spec(elapsed_ms: u128) -> u64 {
    if elapsed_ms <= SCAN_TIMEOUT {
        (SCAN_TIMEOUT + 1 - elapsed_ms) as u64
    } else {
        0
    }
}

/// Decides what the scan does after one wait, `elapsed_ms` milliseconds
/// after the scan began.
pub fn scan_step(input: ScanInput, elapsed_ms: u128) -> (r: ScanDecision)
    ensures
        r == scan_decision(input, elapsed_ms),
{
    if elapsed_ms > 5000 {
        ScanDecision::GiveUp
    } else {
        match input {
            ScanInput::Ended => ScanDecision::Fail(BluetoothError::MissingAdapterEvent),
            ScanInput::Event(AdapterEvent::DeviceAdded(address)) => ScanDecision::Probe(address),
            _ => ScanDecision::Wait,
        }
    }
}

/// Says how long to wait for the next event at most, `elapsed_ms`
/// milliseconds after the scan began.
pub fn scan_wait(elapsed_ms: u128) -> (r: u64)
    ensures
        r == scan_wait_spec(elapsed_ms),
        r <= SCAN_TIMEOUT + 1,
{
    if elapsed_ms <= 5000 {
        let elapsed: u64 = elapsed_ms as u64;
        5001 - elapsed
    } else {
        0
    }
}

/// The scan is bounded: after a wait of the length that `scan_wait` gives,
/// the decision is to give up, whatever that wait brought. So a scan that
/// finds no device ends no later than just after the time limit.
pub proof fn lemma_scan_is_bounded(input: ScanInput, elapsed_ms: u128, later_ms: u128)
    requires
        later_ms >= elapsed_ms + scan_wait_spec(elapsed_ms),
    ensures
        scan_decision(input, later_ms) == ScanDecision::GiveUp,
        elapsed_ms > SCAN_TIMEOUT ==> scan_decision(input, elapsed_ms) == ScanDecision::GiveUp,
{
}

/// The first position at or after `from` at which `uuids` holds `uuid`, or
/// the length of `uuids` when there is none.
pub open spec fn first_index_of(uuids: Seq<u128>, uuid: u128, from: int) -> int
    decreases uuids.len() - from,
{
    if from >= uuids.len() {
        uuids.len() as int
    } else if uuids[from] == uuid {
        from
    } else {
        first_index_of(uuids, uuid, from + 1)
    }
}

/// The last position before `upto` at which `uuids` holds `uuid`, or -1 when
/// there is none.
pub open spec fn last_index_of(uuids: Seq<u128>, uuid: u128, upto: int) -> int
    decreases upto,
{
    if upto <= 0 {
        -1
    } else if uuids[upto - 1] == uuid {
        upto - 1
    } else {
        last_index_of(uuids, uuid, upto - 1)
    }
}

/// True when the address is the expected one, or none is expected.
pub open spec fn is_expected_address(address: Seq<u8>, expected: Option<Seq<u8>>) -> bool {
    expected matches Some(wanted) ==> address == wanted
}

/// A device is a candidate when its address is the expected one, if one is
/// expected, and it advertises the serial service.
pub open spec fn is_candidate(address: Seq<u8>, expected: Option<Seq<u8>>, advertised: Seq<u128>)
    -> bool {
    &&& is_expected_address(address, expected)
    &&& advertised.contains(SERVICE_UUID)
}

/// `first_index_of` lies in `from..=len`; it holds the identifier unless it
/// is the length, and nothing before it does.
pub proof fn lemma_first_index_of(uuids: Seq<u128>, uuid: u128, from: int)
    requires
        0 <= from <= uuids.len(),
    ensures
        from <= first_index_of(uuids, uuid, from) <= uuids.len(),
        first_index_of(uuids, uuid, from) < uuids.len() ==> uuids[first_index_of(
            uuids,
            uuid,
            from,
        )] == uuid,
        forall|i: int| from <= i < first_index_of(uuids, uuid, from) ==> uuids[i] != uuid,
    decreases uuids.len() - from,
{
    if from < uuids.len() && uuids[from] != uuid {
        lemma_first_index_of(uuids, uuid, from + 1);
    }
}

/// The first position at which `uuids` holds `uuid`.
fn position(uuids: &[u128], uuid: u128) -> (r: usize)
    ensures
        r == first_index_of(uuids@, uuid, 0),
        r <= uuids@.len(),
        r < uuids@.len() <==> uuids@.contains(uuid),
        r < uuids@.len() ==> uuids@[r as int] == uuid,
        forall|k: int| 0 <= k < r ==> uuids@[k] != uuid,
{
    let mut i: usize = 0;
    while i < uuids.len() && uuids[i] != uuid
        invariant
            i <= uuids@.len(),
            first_index_of(uuids@, uuid, 0) == first_index_of(uuids@, uuid, i as int),
            forall|k: int| 0 <= k < i ==> uuids@[k] != uuid,
        decreases uuids@.len() - i,
    {
        i += 1;
    }
    proof {
        lemma_first_index_of(uuids@, uuid, i as int);
        if i < uuids@.len() {
            assert(uuids@[i as int] == uuid);
        }
    }
    i
}

fn same_address(a: &[u8; 6], b: &[u8; 6]) -> (r: bool)
    ensures
        r == (a@ == b@),
{
    let mut i: usize = 0;
    while i < 6
        invariant
            i <= 6,
            forall|k: int| 0 <= k < i ==> a@[k] == b@[k],
        decreases 6 - i,
    {
        if a[i] != b[i] {
            return false;
        }
        i += 1;
    }
    assert(a@ =~= b@);
    true
}

/// Tests the address of a device before anything is asked of it. A device
/// with another address than the expected one is passed over, as one
/// without the service.
pub fn check_address(address: &[u8; 6], expected: Option<&[u8; 6]>) -> (r: Result<
    (),
    BluetoothError,
>)
    ensures
        r.is_ok() <==> is_expected_address(
            address@,
            match expected {
                Some(wanted) => Some(wanted@),
                None => None,
            },
        ),
        r matches Err(e) ==> e == BluetoothError::MissingService,
{
    match expected {
        Some(wanted) => {
            if same_address(address, wanted) {
                Ok(())
            } else {
                Err(BluetoothError::MissingService)
            }
        },
        None => Ok(()),
    }
}

/// Looks at what a device advertises before connecting to it. The device is
/// passed over, as one without the service, unless it is a candidate.
pub fn check_advertisement(address: &[u8; 6], expected: Option<&[u8; 6]>, advertised: &[u128]) -> (r:
    Result<(), BluetoothError>)
    ensures
        r.is_ok() <==> is_candidate(
            address@,
            match expected {
                Some(wanted) => Some(wanted@),
                None => None,
            },
            advertised@,
        ),
        r matches Err(e) ==> e == BluetoothError::MissingService,
{
    if check_address(address, expected).is_err() {
        return Err(BluetoothError::MissingService);
    }
    if position(advertised, SERVICE_UUID) < advertised.len() {
        Ok(())
    } else {
        Err(BluetoothError::MissingService)
    }
}

/// Picks the serial service among the services of a connected device: the
/// first one with the service identifier.
pub fn find_service(services: &[u128]) -> (r: Result<usize, BluetoothError>)
    ensures
        match r {
            Ok(index) => {
                &&& index < services@.len()
                &&& index == first_index_of(services@, SERVICE_UUID, 0)
                &&& services@[index as int] == SERVICE_UUID
                &&& forall|k: int| 0 <= k < index ==> services@[k] != SERVICE_UUID
            },
            Err(e) => e == BluetoothError::MissingService && !services@.contains(SERVICE_UUID),
        },
        r.is_ok() <==> services@.contains(SERVICE_UUID),
{
    let index = position(services, SERVICE_UUID);
    if index < services.len() {
        Ok(index)
    } else {
        Err(BluetoothError::MissingService)
    }
}

/// The two characteristics of the serial service, by their positions among
/// the characteristics of that service.
#[derive(Clone, Copy, Debug, PartialEq, Eq, Structural)]
pub struct SerialCharacteristics {
    pub rx_characteristic: usize,
    pub tx_characteristic: usize,
}

/// True when both characteristics occur among the first `upto` entries.
pub open spec fn both_found(uuids: Seq<u128>, upto: int) -> bool {
    last_index_of(uuids, RX_CHARACTERISTIC_UUID, upto) >= 0 && last_index_of(
        uuids,
        TX_CHARACTERISTIC_UUID,
        upto,
    ) >= 0
}

/// The number of entries that are read: the least `n >= from` with both
/// characteristics among the first `n`, or one more than the length when
/// there is no such `n`.
pub open spec fn entries_read(uuids: Seq<u128>, from: int) -> int
    decreases uuids.len() - from,
{
    if both_found(uuids, from) {
        from
    } else if from >= uuids.len() {
        uuids.len() as int + 1
    } else {
        entries_read(uuids, from + 1)
    }
}

/// Which characteristics are chosen. The entries are read in order until
/// both identifiers have been seen; of each, the last one seen by then is
/// taken. Without both there is no choice.
pub open spec fn characteristics_of(uuids: Seq<u128>) -> Option<SerialCharacteristics> {
    let n = entries_read(uuids, 0);
    if n <= uuids.len() {
        Some(
            SerialCharacteristics {
                rx_characteristic: last_index_of(uuids, RX_CHARACTERISTIC_UUID, n) as usize,
                tx_characteristic: last_index_of(uuids, TX_CHARACTERISTIC_UUID, n) as usize,
            },
        )
    } else {
        None
    }
}

proof fn lemma_last_index_of(uuids: Seq<u128>, uuid: u128, upto: int)
    requires
        0 <= upto <= uuids.len(),
    ensures
        -1 <= last_index_of(uuids, uuid, upto) < upto,
        last_index_of(uuids, uuid, upto) >= 0 ==> uuids[last_index_of(uuids, uuid, upto)] == uuid,
        last_index_of(uuids, uuid, upto) < 0 ==> forall|i: int| 0 <= i < upto ==> uuids[i] != uuid,
    decreases upto,
{
    if upto > 0 && uuids[upto - 1] != uuid {
        lemma_last_index_of(uuids, uuid, upto - 1);
    }
}

/// Picks the inbound and the outbound characteristic among those of the
/// serial service. Succeeds exactly when both identifiers occur.
pub fn find_serial_characteristics(characteristics: &[u128]) -> (r: Result<
    SerialCharacteristics,
    BluetoothError,
>)
    ensures
        match characteristics_of(characteristics@) {
            Some(chosen) => r == Ok::<SerialCharacteristics, BluetoothError>(chosen),
            None => r == Err::<SerialCharacteristics, BluetoothError>(
                BluetoothError::MissingCharacteristic,
            ),
        },
        r.is_ok() <==> characteristics@.contains(RX_CHARACTERISTIC_UUID)
            && characteristics@.contains(TX_CHARACTERISTIC_UUID),
        r matches Ok(chosen) ==> chosen.rx_characteristic < characteristics@.len()
            && chosen.tx_characteristic < characteristics@.len()
            && characteristics@[chosen.rx_characteristic as int] == RX_CHARACTERISTIC_UUID
            && characteristics@[chosen.tx_characteristic as int] == TX_CHARACTERISTIC_UUID,
{
    let mut rx: Option<usize> = None;
    let mut tx: Option<usize> = None;
    let mut i: usize = 0;
    while i < characteristics.len()
        invariant
            i <= characteristics@.len(),
            !both_found(characteristics@, i as int),
            entries_read(characteristics@, 0) == entries_read(characteristics@, i as int),
            match rx {
                Some(at) => at == last_index_of(characteristics@, RX_CHARACTERISTIC_UUID, i as int),
                None => last_index_of(characteristics@, RX_CHARACTERISTIC_UUID, i as int) < 0,
            },
            match tx {
                Some(at) => at == last_index_of(characteristics@, TX_CHARACTERISTIC_UUID, i as int),
                None => last_index_of(characteristics@, TX_CHARACTERISTIC_UUID, i as int) < 0,
            },
        decreases characteristics@.len() - i,
    {
        let uuid = characteristics[i];
        if uuid == RX_CHARACTERISTIC_UUID {
            rx = Some(i);
        } else if uuid == TX_CHARACTERISTIC_UUID {
            tx = Some(i);
        }
        i += 1;
        match (rx, tx) {
            (Some(rx_characteristic), Some(tx_characteristic)) => {
                proof {
                    lemma_last_index_of(characteristics@, RX_CHARACTERISTIC_UUID, i as int);
                    lemma_last_index_of(characteristics@, TX_CHARACTERISTIC_UUID, i as int);
                    assert(both_found(characteristics@, i as int));
                    assert(entries_read(characteristics@, i - 1) == entries_read(
                        characteristics@,
                        i as int,
                    ));
                }
                return Ok(SerialCharacteristics { rx_characteristic, tx_characteristic });
            },
            _ => {},
        }
    }
    proof {
        lemma_last_index_of(characteristics@, RX_CHARACTERISTIC_UUID, i as int);
        lemma_last_index_of(characteristics@, TX_CHARACTERISTIC_UUID, i as int);
    }
    Err(BluetoothError::MissingCharacteristic)
}

/// What becomes of a device that was looked at.
#[derive(Clone, Copy, Debug, PartialEq, Eq, Structural)]
pub enum CandidateVerdict {
    /// Both characteristics were found: the scan ends with this device.
    Select(SerialCharacteristics),
    /// The device was connected but lacks what is needed: disconnect from
    /// it and go on scanning.
    DisconnectAndContinue,
    /// The device was never connected: go on scanning.
    Continue,
}

/// Decides what becomes of a device, given whether it was connected and
/// what the search for its characteristics gave.
pub fn judge_candidate(connected: bool, found: Result<SerialCharacteristics, BluetoothError>) -> (r:
    CandidateVerdict)
    ensures
        r == match found {
            Ok(chosen) => CandidateVerdict::Select(chosen),
            Err(_) => if connected {
                CandidateVerdict::DisconnectAndContinue
            } else {
                CandidateVerdict::Continue
            },
        },
{
    match found {
        Ok(chosen) => CandidateVerdict::Select(chosen),
        Err(_) => {
            if connected {
                CandidateVerdict::DisconnectAndContinue
            } else {
                CandidateVerdict::Continue
            }
        },
    }
}

} // verus!
