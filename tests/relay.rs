use panopticon::address::same_address;
use panopticon::cell::{Cell, CellAction, CellPhase};
use panopticon::chain::{run_chain, simulate_route};
use panopticon::codec::{
    address_word, byte_word, parse_deployment, parse_selector, role_of, u128_bytes, u128_word, Deployment, Role,
    RouterEntry,
};
use panopticon::error::ContractError;
use panopticon::gas::{deploy_gas, forward_gas, required_route_gas, route_gas_sufficient, transfer_gas};
use panopticon::params::{HOP_COUNT, ROUTING_FEE, TYPE_CELL, TYPE_ROUTER};
use panopticon::router::{finish_route, RouteStart, RouterState};
use panopticon::salt::{finish_deploy, hop_nonce, plan_cell_deployment, salt_preimage};
use panopticon::word::{decode_le, decode_le_u64, encode_le};

const OWNER: [u8; 20] = [7; 20];
const STRANGER: [u8; 20] = [9; 20];
const ROUTER: [u8; 20] = [4; 20];
const GAS: u64 = 20_000_000;

fn router_with_fees(fees: u128) -> RouterState {
    let mut s = RouterState::new(OWNER);
    s.fees_collected = fees;
    s
}

#[test]
fn underpaid_route_reverts_without_change() {
    for value in [0u128, 1, ROUTING_FEE - 1, ROUTING_FEE] {
        let mut s = router_with_fees(5);
        s.nonce = 3;
        assert_eq!(s.route(value, GAS), Err(ContractError::InsufficientFee));
        assert_eq!(s.fees_collected, 5);
        assert_eq!(s.nonce, 3);
    }
}

#[test]
fn route_without_enough_gas_reverts() {
    let mut s = RouterState::new(OWNER);
    assert_eq!(s.route(ROUTING_FEE + 1, 12_499_999), Err(ContractError::InsufficientGas));
    assert_eq!(s.fees_collected, 0);
    assert_eq!(s.nonce, 0);
    assert!(s.route(ROUTING_FEE + 1, 12_500_000).is_ok());
}

#[test]
fn route_books_fee_and_nonce() {
    let mut s = router_with_fees(10);
    let start = s.route(ROUTING_FEE + 500, GAS).unwrap();
    assert_eq!(s.fees_collected, 10 + ROUTING_FEE);
    assert_eq!(s.nonce, 1);
    assert_eq!(
        start,
        RouteStart { nonce: 1, hops: HOP_COUNT, forward_value: 500, cell_gas: 12_000_000 }
    );
    let again = s.route(ROUTING_FEE * 3, GAS).unwrap();
    assert_eq!(s.fees_collected, 10 + 2 * ROUTING_FEE);
    assert_eq!(again.nonce, 2);
    assert_eq!(again.forward_value, 2 * ROUTING_FEE);
}

#[test]
fn route_fees_saturate_and_nonce_wraps() {
    let mut s = router_with_fees(u128::MAX - 1);
    s.nonce = u64::MAX;
    let start = s.route(ROUTING_FEE + 1, GAS).unwrap();
    assert_eq!(s.fees_collected, u128::MAX);
    assert_eq!(s.nonce, 0);
    assert_eq!(start.nonce, 0);
}

#[test]
fn route_cell_gas_is_capped_by_limit() {
    let mut s = RouterState::new(OWNER);
    let start = s.route(ROUTING_FEE + 1, 12_500_000).unwrap();
    assert_eq!(start.cell_gas, 12_000_000);
    let mut t = RouterState::new(OWNER);
    let start = t.route(ROUTING_FEE + 1, 100_000_000).unwrap();
    assert_eq!(start.cell_gas, 12_000_000);
}

#[test]
fn stranger_cannot_withdraw() {
    let mut s = router_with_fees(42);
    assert_eq!(s.begin_withdraw(&STRANGER), Err(ContractError::NotOwner));
    assert_eq!(s.fees_collected, 42);
}

#[test]
fn withdraw_twice_finds_no_fees() {
    let mut s = router_with_fees(42);
    assert_eq!(s.begin_withdraw(&OWNER), Ok(42));
    assert_eq!(s.fees_collected, 0);
    assert_eq!(s.finish_withdraw(42, true), Ok(42));
    assert_eq!(s.begin_withdraw(&OWNER), Err(ContractError::NoFees));
    assert_eq!(s.fees_collected, 0);
}

#[test]
fn failed_withdraw_restores_fees() {
    let mut s = router_with_fees(ROUTING_FEE * 2);
    let amount = s.begin_withdraw(&OWNER).unwrap();
    assert_eq!(s.fees_collected, 0);
    assert_eq!(s.finish_withdraw(amount, false), Err(ContractError::WithdrawFailed));
    assert_eq!(s.fees_collected, ROUTING_FEE * 2);
}

#[test]
fn finish_route_returns_right_aligned_address() {
    let cell = [0xab; 20];
    let out = finish_route(&cell, true).unwrap();
    assert_eq!(out.len(), 32);
    assert_eq!(&out[..12], &[0u8; 12]);
    assert_eq!(&out[12..], &cell);
    assert_eq!(finish_route(&cell, false), Err(ContractError::RoutingFailed));
}

#[test]
fn full_chain_has_twelve_hops() {
    let report = run_chain(HOP_COUNT, 1_000, ROUTER, GAS, &vec![]);
    assert_eq!(report.deployments, 12);
    assert_eq!(report.destructs, 12);
    assert_eq!(report.delivered, 1_000);
    assert_eq!(report.swept, 0);
    assert_eq!(report.hops_seen, vec![12, 11, 10, 9, 8, 7, 6, 5, 4, 3, 2, 1]);
}

#[test]
fn oversized_hop_count_is_clamped() {
    let report = run_chain(255, 7, ROUTER, GAS, &vec![true; 20]);
    assert_eq!(report.destructs, 12);
    assert_eq!(report.hops_seen[0], 12);
    let cell = Cell::new(200, ROUTER);
    assert_eq!(cell.hops_remaining, 12);
}

#[test]
fn zero_hop_cell_delivers_directly() {
    let report = run_chain(0, 9, ROUTER, GAS, &vec![]);
    assert_eq!(report.deployments, 1);
    assert_eq!(report.destructs, 1);
    assert_eq!(report.delivered, 9);
    assert_eq!(report.hops_seen, vec![0]);
}

#[test]
fn failed_hop_sweeps_value_to_router() {
    let mut links = vec![true; 12];
    links[4] = false;
    let report = run_chain(HOP_COUNT, 1_000, ROUTER, GAS, &links);
    assert_eq!(report.delivered, 0);
    assert_eq!(report.swept, 1_000);
    assert_eq!(report.destructs, 5);
    assert_eq!(report.deployments, 6);
}

#[test]
fn failed_delivery_sweeps_value_to_router() {
    let mut links = vec![true; 12];
    links[11] = false;
    let report = run_chain(HOP_COUNT, 1_000, ROUTER, GAS, &links);
    assert_eq!(report.delivered, 0);
    assert_eq!(report.swept, 1_000);
    assert_eq!(report.destructs, 12);
}

#[test]
fn simulated_route_conserves_value() {
    let mut s = RouterState::new(OWNER);
    let v = ROUTING_FEE + 123_456;
    let report = simulate_route(&mut s, v, GAS, ROUTER, &vec![]).unwrap();
    assert_eq!(report.delivered + report.swept, v - ROUTING_FEE);
    assert_eq!(report.delivered, 123_456);
    assert_eq!(report.deployments, 12);
    assert_eq!(report.destructs, 12);
    assert_eq!(s.fees_collected, ROUTING_FEE);

    let mut links = vec![true; 12];
    links[0] = false;
    let report = simulate_route(&mut s, v, GAS, ROUTER, &links).unwrap();
    assert_eq!(report.delivered + report.swept, v - ROUTING_FEE);
    assert_eq!(report.swept, 123_456);
    assert_eq!(s.fees_collected, 2 * ROUTING_FEE);

    assert!(matches!(simulate_route(&mut s, ROUTING_FEE, GAS, ROUTER, &vec![]), Err(ContractError::InsufficientFee)));
    assert_eq!(s.fees_collected, 2 * ROUTING_FEE);
}

#[test]
fn cell_steps() {
    let mut c = Cell::new(12, ROUTER);
    assert_eq!(c.receive(GAS), CellAction::Spawn { next_hops: 11, gas: 11_000_000 });
    assert_eq!(c.phase, CellPhase::Intermediate);
    assert_eq!(c.conclude(), ROUTER);
    assert_eq!(c.phase, CellPhase::Destroyed);

    let mut last = Cell::new(1, ROUTER);
    assert_eq!(last.receive(GAS), CellAction::Deliver { gas: 1_000_000 });
    assert_eq!(last.phase, CellPhase::Terminal);

    let mut low = Cell::new(3, ROUTER);
    assert_eq!(low.receive(600_000), CellAction::Spawn { next_hops: 2, gas: 100_000 });
}

#[test]
fn cell_from_storage_clamps() {
    let mut hops = [0u8; 32];
    hops[0] = 99;
    let mut router = [0u8; 32];
    router[..20].copy_from_slice(&ROUTER);
    let c = Cell::from_storage(&hops, &router);
    assert_eq!(c.hops_remaining, 12);
    assert_eq!(c.router, ROUTER);
}

#[test]
fn gas_budgets() {
    assert_eq!(required_route_gas(), 12_500_000);
    assert!(route_gas_sufficient(12_500_000));
    assert!(!route_gas_sufficient(12_499_999));
    assert_eq!(forward_gas(100, 3), 0);
    assert_eq!(forward_gas(2_000_000, 3), 1_500_000);
    assert_eq!(forward_gas(9_000_000, 3), 3_000_000);
    assert_eq!(transfer_gas(50_000), 0);
    assert_eq!(transfer_gas(600_000), 500_000);
    assert_eq!(transfer_gas(5_000_000), 1_000_000);
    assert_eq!(deploy_gas(300_000), 200_000);
    assert_eq!(deploy_gas(5_000_000), 500_000);
}

#[test]
fn deployment_payloads() {
    let mut input = [0u8; 32];
    assert!(matches!(parse_deployment(&input), Deployment::Router));
    input[0] = TYPE_ROUTER;
    assert!(matches!(parse_deployment(&input), Deployment::Router));
    input[0] = TYPE_CELL;
    input[1] = 40;
    input[2..22].copy_from_slice(&ROUTER);
    match parse_deployment(&input) {
        Deployment::Cell { hops, router } => {
            assert_eq!(hops, 12);
            assert_eq!(router, ROUTER);
        }
        other => panic!("unexpected {:?}", other),
    }
    input[1] = 5;
    assert!(matches!(parse_deployment(&input), Deployment::Cell { hops: 5, .. }));
    input[0] = 3;
    assert!(matches!(parse_deployment(&input), Deployment::Router));
    input[0] = 255;
    assert!(matches!(parse_deployment(&input), Deployment::Router));
}

#[test]
fn roles_and_selectors() {
    assert_eq!(role_of(1), Ok(Role::Router));
    assert_eq!(role_of(2), Ok(Role::Cell));
    assert_eq!(role_of(0), Err(ContractError::InvalidType));
    assert_eq!(parse_selector(&[0x12, 0x34, 0x56, 0x78]), Ok(RouterEntry::Route));
    assert_eq!(parse_selector(&[0x3c, 0xcf, 0xd6, 0x0b]), Ok(RouterEntry::Withdraw));
    assert_eq!(parse_selector(&[0x78, 0x56, 0x34, 0x12]), Err(ContractError::UnknownSelector));
}

#[test]
fn error_messages() {
    assert_eq!(ContractError::InsufficientFee.message(), "insufficient fee");
    assert_eq!(ContractError::CellDeployFailed.message(), "cell deploy failed");
    assert_eq!(ContractError::NotOwner.message(), "not owner");
    assert_eq!(ContractError::NoFees.message(), "no fees");
    assert_eq!(ContractError::WithdrawFailed.message(), "withdraw failed");
}

#[test]
fn words_round_trip() {
    let w = u128_word(0x0102_0304);
    assert_eq!(w.len(), 32);
    assert_eq!(&w[..4], &[4, 3, 2, 1]);
    let arr: [u8; 32] = w.clone().try_into().unwrap();
    assert_eq!(decode_le(&arr, 16), 0x0102_0304);
    assert_eq!(u128_bytes(ROUTING_FEE), ROUTING_FEE.to_le_bytes().to_vec());
    let mut n = [0u8; 32];
    n[..8].copy_from_slice(&0xdead_beef_u64.to_le_bytes());
    n[8] = 0xff;
    assert_eq!(decode_le_u64(&n), 0xdead_beef);
    assert_eq!(encode_le(258, 2), vec![2, 1]);
    assert_eq!(byte_word(2)[0], 2);
    assert_eq!(byte_word(2).len(), 32);
    let aw = address_word(&OWNER);
    assert_eq!(&aw[..20], &OWNER);
    assert_eq!(&aw[20..], &[0u8; 12]);
}

#[test]
fn router_reads_its_storage() {
    let owner: [u8; 32] = address_word(&OWNER).try_into().unwrap();
    let fees: [u8; 32] = u128_word(77).try_into().unwrap();
    let nonce: [u8; 32] = u128_word(5).try_into().unwrap();
    let s = RouterState::from_storage(&owner, &fees, &nonce);
    assert_eq!(s.owner, OWNER);
    assert_eq!(s.fees_collected, 77);
    assert_eq!(s.nonce, 5);
}

#[test]
fn addresses_compare() {
    assert!(same_address(&OWNER, &OWNER));
    assert!(!same_address(&OWNER, &STRANGER));
}

#[test]
fn salt_preimage_layout() {
    let mut block = [0u8; 32];
    block[..8].copy_from_slice(&1234u64.to_le_bytes());
    block[8] = 0xee;
    let mut now = [0u8; 32];
    now[..8].copy_from_slice(&99u64.to_le_bytes());
    let p = salt_preimage(12, &ROUTER, 0x0102, &block, &now);
    assert_eq!(p.len(), 45);
    assert_eq!(p[0], 12);
    assert_eq!(&p[1..21], &ROUTER);
    assert_eq!(&p[21..29], &0x0102u64.to_le_bytes());
    assert_eq!(&p[29..37], &1234u64.to_le_bytes());
    assert_eq!(&p[37..45], &99u64.to_le_bytes());
}

#[test]
fn same_block_routes_use_different_salts() {
    let block = [3u8; 32];
    let now = [8u8; 32];
    let mut s = RouterState::new(OWNER);
    let a = s.route(ROUTING_FEE + 1, GAS).unwrap();
    let b = s.route(ROUTING_FEE + 1, GAS).unwrap();
    let pa = salt_preimage(a.hops, &ROUTER, a.nonce, &block, &now);
    let pb = salt_preimage(b.hops, &ROUTER, b.nonce, &block, &now);
    assert_ne!(pa, pb);
}

#[test]
fn hop_nonce_packs_budget() {
    assert_eq!(hop_nonce(11, 0, 0), 11);
    assert_eq!(hop_nonce(3, 0x10, 0), 0x1003);
    assert_eq!(hop_nonce(3, 0x10, 0x2), 0x0000_0200_0000_1003);
    assert_eq!(hop_nonce(1, u64::MAX, u64::MAX), 0xffff_ffff_ffff_ff01);
    assert_ne!(hop_nonce(5, 1000, 7), hop_nonce(5, 1000, 8));
}

#[test]
fn cell_deployment_plan() {
    let code = [0xcd; 32];
    let plan = plan_cell_deployment(&code, 11, &ROUTER, 9, &[1; 32], &[2; 32], 300_000);
    assert_eq!(plan.input.len(), 54);
    assert_eq!(&plan.input[..32], &code);
    assert_eq!(plan.input[32], TYPE_CELL);
    assert_eq!(plan.input[33], 11);
    assert_eq!(&plan.input[34..], &ROUTER);
    assert_eq!(plan.gas, 200_000);
    assert_eq!(plan.salt_preimage.len(), 45);
    assert_eq!(plan.salt_preimage[21], 9);
}

#[test]
fn deploy_failure_reverts() {
    assert_eq!(finish_deploy(ROUTER, true), Ok(ROUTER));
    assert_eq!(finish_deploy(ROUTER, false), Err(ContractError::CellDeployFailed));
    assert_eq!(ContractError::CellDeployFailed.message(), "cell deploy failed");
}

#[test]
fn failed_final_delivery_still_runs_every_cell() {
    let mut links = vec![true; 12];
    links[11] = false;
    let report = run_chain(HOP_COUNT, 500, ROUTER, GAS, &links);
    assert_eq!(report.deployments, 12);
    assert_eq!(report.destructs, 12);
    assert_eq!(report.delivered, 0);
    assert_eq!(report.swept, 500);
    assert_eq!(report.hops_seen, vec![12, 11, 10, 9, 8, 7, 6, 5, 4, 3, 2, 1]);
}

#[test]
fn first_failure_stops_the_run() {
    let mut links = vec![true; 12];
    links[2] = false;
    links[7] = false;
    let report = run_chain(HOP_COUNT, 500, ROUTER, GAS, &links);
    assert_eq!(report.destructs, 3);
    assert_eq!(report.deployments, 4);
    assert_eq!(report.hops_seen, vec![12, 11, 10]);
    assert_eq!(report.delivered, 0);
    assert_eq!(report.swept, 500);
}
