//! Device selection and interface-claim tests.

use sahara::engine::SaharaError;
use sahara::session::{
    claim_gate, connect, ConnectPlan, DeviceInfo, EndpointInfo, CLAIM_BUDGET_MICROS,
    CLAIM_PERIOD_MICROS,
};

fn target_device(endpoints: Vec<EndpointInfo>) -> DeviceInfo {
    DeviceInfo {
        vendor_id: 0x05c6,
        product_id: 0x9008,
        interface_numbers: vec![0],
        endpoints,
    }
}

fn bulk_out(address: u8) -> EndpointInfo {
    EndpointInfo { address, direction_in: false, bulk: true }
}

fn bulk_in(address: u8) -> EndpointInfo {
    EndpointInfo { address, direction_in: true, bulk: true }
}

#[test]
fn connect_fails_without_devices() {
    assert_eq!(connect(&vec![]), Err(SaharaError::DeviceNotFound));
}

#[test]
fn connect_fails_without_matching_identity() {
    let devices = vec![
        DeviceInfo {
            vendor_id: 0x05c6,
            product_id: 0x9009,
            interface_numbers: vec![0],
            endpoints: vec![bulk_out(0x01), bulk_in(0x81)],
        },
        DeviceInfo {
            vendor_id: 0x1d6b,
            product_id: 0x9008,
            interface_numbers: vec![0],
            endpoints: vec![bulk_out(0x01), bulk_in(0x81)],
        },
    ];
    assert_eq!(connect(&devices), Err(SaharaError::DeviceNotFound));
}

#[test]
fn connect_picks_first_matching_device() {
    let devices = vec![
        DeviceInfo {
            vendor_id: 0x1d6b,
            product_id: 0x0002,
            interface_numbers: vec![3],
            endpoints: vec![],
        },
        target_device(vec![bulk_out(0x01), bulk_in(0x81)]),
        target_device(vec![bulk_out(0x02), bulk_in(0x82)]),
    ];
    let plan = connect(&devices).unwrap();
    assert_eq!(
        plan,
        ConnectPlan { device_index: 1, interface_number: 0, e_in_addr: 0x81, e_out_addr: 0x01 },
    );
}

#[test]
fn connect_picks_first_interface_number() {
    let mut d = target_device(vec![bulk_out(0x01), bulk_in(0x81)]);
    d.interface_numbers = vec![2, 0, 1];
    let plan = connect(&vec![d]).unwrap();
    assert_eq!(plan.interface_number, 2);
}

#[test]
fn connect_picks_first_bulk_endpoint_of_each_direction() {
    // Non-bulk endpoints are skipped; among bulk ones, the first of each
    // direction wins.
    let eps = vec![
        EndpointInfo { address: 0x83, direction_in: true, bulk: false },
        EndpointInfo { address: 0x03, direction_in: false, bulk: false },
        bulk_in(0x81),
        bulk_out(0x01),
        bulk_in(0x82),
        bulk_out(0x02),
    ];
    let plan = connect(&vec![target_device(eps)]).unwrap();
    assert_eq!(plan.e_in_addr, 0x81);
    assert_eq!(plan.e_out_addr, 0x01);
}

#[test]
fn connect_fails_without_interfaces() {
    let mut d = target_device(vec![bulk_out(0x01), bulk_in(0x81)]);
    d.interface_numbers = vec![];
    assert_eq!(connect(&vec![d]), Err(SaharaError::MissingInterface));
}

#[test]
fn connect_fails_without_out_endpoint() {
    let d = target_device(vec![bulk_in(0x81)]);
    assert_eq!(connect(&vec![d]), Err(SaharaError::MissingEndpoint));
}

#[test]
fn connect_fails_without_in_endpoint() {
    let d = target_device(vec![bulk_out(0x01)]);
    assert_eq!(connect(&vec![d]), Err(SaharaError::MissingEndpoint));
}

#[test]
fn claim_gate_admits_attempts_within_budget() {
    assert!(claim_gate(0).is_ok());
    assert!(claim_gate(CLAIM_BUDGET_MICROS).is_ok());
    assert_eq!(
        claim_gate(CLAIM_BUDGET_MICROS + 1),
        Err(SaharaError::ClaimInterfaceTimeout),
    );
}

#[test]
fn scenario_claim_always_rejected_exhausts_budget_once() {
    // Every claim attempt fails; the loop runs the full one-second budget,
    // stops after a bounded number of attempts, and yields exactly one
    // claim timeout.
    let mut elapsed: u64 = 0;
    let mut attempts: u64 = 0;
    let mut failures = Vec::new();
    loop {
        match claim_gate(elapsed) {
            Ok(()) => {
                // The attempt itself is always rejected in this scenario.
                attempts += 1;
                elapsed += CLAIM_PERIOD_MICROS;
            },
            Err(e) => {
                failures.push(e);
                break;
            },
        }
        assert!(attempts <= 1 + CLAIM_BUDGET_MICROS / CLAIM_PERIOD_MICROS);
    }
    assert_eq!(attempts, 1 + CLAIM_BUDGET_MICROS / CLAIM_PERIOD_MICROS);
    assert_eq!(failures, vec![SaharaError::ClaimInterfaceTimeout]);
}
