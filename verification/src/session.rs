//! Device selection and interface-claim rules.
//!
//! Enumerating USB devices, opening one and claiming an interface are I/O and
//! live outside the library. What is verified here is the selection logic
//! they feed: which attached device is the target, which interface and bulk
//! endpoint addresses to use, and how long a rejected interface claim may be
//! retried. The caller enumerates, hands plain descriptor values to
//! [`connect`], and runs the claim loop around [`claim_gate`].

use vstd::prelude::*;

use crate::engine::SaharaError;

verus! {

/// Vendor identity of the target device.
pub const TARGET_VENDOR_ID: u16 = 0x05c6;

/// Product identity of the device's emergency-download mode.
pub const TARGET_PRODUCT_ID: u16 = 0x9008;

/// Wall-clock budget for claiming the interface. The device may reject
/// claims briefly after enumeration or a prior session's reset, so the claim
/// is retried until this budget elapses.
pub const CLAIM_BUDGET_MICROS: u64 = 1_000_000;

/// Pause between two claim attempts.
pub const CLAIM_PERIOD_MICROS: u64 = 200;

/// Fixed window for a single bulk transfer; expiry is a timeout error.
pub const TRANSFER_TIMEOUT_SECS: u64 = 5;

/// One endpoint of an interface's alternate setting, as plain values.
#[derive(Clone, Copy, Debug, PartialEq, Eq, Structural)]
pub struct EndpointInfo {
    pub address: u8,
    /// Direction: device to host when true.
    pub direction_in: bool,
    /// Whether this is a bulk endpoint.
    pub bulk: bool,
}

/// One attached device, as plain values: its identity, its interface
/// numbers, and the endpoints of its first configuration's first alternate
/// setting.
#[derive(Debug)]
pub struct DeviceInfo {
    pub vendor_id: u16,
    pub product_id: u16,
    pub interface_numbers: Vec<u8>,
    pub endpoints: Vec<EndpointInfo>,
}

/// Mathematical value of a [`DeviceInfo`].
#[verifier::ext_equal]
pub struct DeviceInfoV {
    pub vendor_id: u16,
    pub product_id: u16,
    pub interface_numbers: Seq<u8>,
    pub endpoints: Seq<EndpointInfo>,
}

impl View for DeviceInfo {
    type V = DeviceInfoV;

    open spec fn view(&self) -> DeviceInfoV {
        DeviceInfoV {
            vendor_id: self.vendor_id,
            product_id: self.product_id,
            interface_numbers: self.interface_numbers@,
            endpoints: self.endpoints@,
        }
    }
}

/// Whether a device carries the exact target identity.
pub open spec fn spec_is_target(d: DeviceInfoV) -> bool {
    d.vendor_id == TARGET_VENDOR_ID && d.product_id == TARGET_PRODUCT_ID
}

/// Whether an endpoint is a bulk endpoint of the wanted direction.
pub open spec fn spec_bulk_dir(e: EndpointInfo, want_in: bool) -> bool {
    e.bulk && e.direction_in == want_in
}

/// What [`connect`] selects: the first matching device, its first interface
/// number, and the addresses of the first IN- and first OUT-direction bulk
/// endpoints.
#[derive(Clone, Copy, Debug, PartialEq, Eq, Structural)]
pub struct ConnectPlan {
    pub device_index: usize,
    pub interface_number: u8,
    pub e_in_addr: u8,
    pub e_out_addr: u8,
}

/// The address of the first bulk endpoint of the wanted direction, if any.
pub open spec fn spec_first_bulk_addr(eps: Seq<EndpointInfo>, want_in: bool) -> Option<u8>
    decreases eps.len(),
{
    if eps.len() == 0 {
        None
    } else if spec_bulk_dir(eps[0], want_in) {
        Some(eps[0].address)
    } else {
        spec_first_bulk_addr(eps.skip(1), want_in)
    }
}

/// Finds the first bulk endpoint of the wanted direction.
fn first_bulk_endpoint(eps: &Vec<EndpointInfo>, want_in: bool) -> (r: Option<u8>)
    ensures
        r == spec_first_bulk_addr(eps@, want_in),
{
    let mut k: usize = 0;
    proof {
        assert(eps@.skip(0) =~= eps@);
    }
    while k < eps.len()
        invariant
            k <= eps.len(),
            spec_first_bulk_addr(eps@, want_in) == spec_first_bulk_addr(
                eps@.skip(k as int),
                want_in,
            ),
        decreases eps.len() - k,
    {
        let e = eps[k];
        if e.bulk && e.direction_in == want_in {
            return Some(e.address);
        }
        k = k + 1;
        proof {
            assert(eps@.skip(k as int - 1).skip(1) =~= eps@.skip(k as int));
        }
    }
    None
}

/// Selects the connection parameters from the enumerated devices.
///
/// The first device with the exact target identity is taken; none matching
/// is [`SaharaError::DeviceNotFound`], a fatal condition that is never
/// retried. Of that device the first reported interface number is used, and
/// the first OUT- and first IN-direction bulk endpoints of its setting; a
/// device without interfaces or without either endpoint is rejected.
pub fn connect(devices: &Vec<DeviceInfo>) -> (r: Result<ConnectPlan, SaharaError>)
    ensures
        (r matches Err(e) && e == SaharaError::DeviceNotFound) <==> (forall|i: int|
            0 <= i < devices@.len() ==> !spec_is_target(#[trigger] devices@[i]@)),
        r matches Err(e) ==> (e == SaharaError::DeviceNotFound || e
            == SaharaError::MissingInterface || e == SaharaError::MissingEndpoint),
        r == Err::<ConnectPlan, SaharaError>(SaharaError::MissingInterface) ==> exists|i: int|
            0 <= i < devices@.len() && spec_is_target(#[trigger] devices@[i]@) && (forall|j: int|
                0 <= j < i ==> !spec_is_target(#[trigger] devices@[j]@))
                && devices@[i]@.interface_numbers.len() == 0,
        r == Err::<ConnectPlan, SaharaError>(SaharaError::MissingEndpoint) ==> exists|i: int|
            0 <= i < devices@.len() && spec_is_target(#[trigger] devices@[i]@) && (forall|j: int|
                0 <= j < i ==> !spec_is_target(#[trigger] devices@[j]@))
                && devices@[i]@.interface_numbers.len() > 0 && (spec_first_bulk_addr(
                devices@[i]@.endpoints,
                false,
            ) is None || spec_first_bulk_addr(devices@[i]@.endpoints, true) is None),
        r matches Ok(plan) ==> {
            &&& 0 <= plan.device_index < devices@.len()
            &&& spec_is_target(devices@[plan.device_index as int]@)
            &&& (forall|i: int|
                0 <= i < plan.device_index ==> !spec_is_target(#[trigger] devices@[i]@))
            &&& devices@[plan.device_index as int]@.interface_numbers.len() > 0
            &&& plan.interface_number == devices@[plan.device_index as int]@.interface_numbers[0]
            &&& spec_first_bulk_addr(devices@[plan.device_index as int]@.endpoints, false)
                == Some(plan.e_out_addr)
            &&& spec_first_bulk_addr(devices@[plan.device_index as int]@.endpoints, true) == Some(
                plan.e_in_addr,
            )
        },
{
    let n = devices.len();
    let mut i: usize = 0;
    while i < n
        invariant
            n == devices@.len(),
            i <= n,
            forall|j: int| 0 <= j < i ==> !spec_is_target(#[trigger] devices@[j]@),
        decreases n - i,
    {
        let d = &devices[i];
        if d.vendor_id == TARGET_VENDOR_ID && d.product_id == TARGET_PRODUCT_ID {
            proof {
                assert(spec_is_target(devices@[i as int]@));
            }
            if d.interface_numbers.len() == 0 {
                proof {
                    assert(devices@[i as int]@.interface_numbers.len() == 0);
                }
                return Err(SaharaError::MissingInterface);
            }
            let interface_number = d.interface_numbers[0];
            let e_out = first_bulk_endpoint(&d.endpoints, false);
            let e_in = first_bulk_endpoint(&d.endpoints, true);
            match (e_out, e_in) {
                (Some(out_addr), Some(in_addr)) => {
                    return Ok(
                        ConnectPlan {
                            device_index: i,
                            interface_number,
                            e_in_addr: in_addr,
                            e_out_addr: out_addr,
                        },
                    );
                },
                _ => {
                    proof {
                        assert(devices@[i as int]@.interface_numbers.len() > 0);
                    }
                    return Err(SaharaError::MissingEndpoint);
                },
            }
        }
        i = i + 1;
    }
    Err(SaharaError::DeviceNotFound)
}

/// Gate of the interface-claim retry loop.
///
/// The caller measures the wall-clock time since the first attempt and asks
/// before each attempt; within the budget the claim may be tried (and on
/// rejection retried after [`CLAIM_PERIOD_MICROS`]), past the budget the
/// loop must stop with [`SaharaError::ClaimInterfaceTimeout`]. The budget is
/// finite, so a caller whose clock advances never loops forever.
pub fn claim_gate(elapsed_micros: u64) -> (r: Result<(), SaharaError>)
    ensures
        r is Ok <==> elapsed_micros <= CLAIM_BUDGET_MICROS,
        r matches Err(e) ==> e == SaharaError::ClaimInterfaceTimeout,
{
    if elapsed_micros <= CLAIM_BUDGET_MICROS {
        Ok(())
    } else {
        Err(SaharaError::ClaimInterfaceTimeout)
    }
}

} // verus!
