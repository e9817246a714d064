use zksync::abi::{AbiError, ContractAbi, Function, ParamKind};
use zksync::address::Address;
use zksync::fee::{base_cost_query, resolve_gas_price};
use zksync::provider::{
    classify, deposit_gas_limit, resolve_bridge, total_value, Asset, BridgeAddresses, DepositCall,
    EthereumProvider, TxOptions,
};
use zksync::submission::{
    after_sending, after_signing, ClientError, SignedTransaction, SignerFailure, SubmitStep, TxHash,
};
use zksync::u256::U256;

const APPROVE_SELECTOR: [u8; 4] = [0x09, 0x5e, 0xa7, 0xb3];
const DEPOSIT_SELECTOR: [u8; 4] = [0xe8, 0xb9, 0x9b, 0x1b];
const ETHER: u128 = 1_000_000_000_000_000_000;

fn addr(last: u8) -> Address {
    let mut b = [0u8; 20];
    b[0] = 0xaa;
    b[19] = last;
    Address::new(b)
}

fn erc20_abi() -> ContractAbi {
    ContractAbi {
        functions: vec![
            Function {
                name: "transfer".to_string(),
                selector: [0xa9, 0x05, 0x9c, 0xbb],
                inputs: vec![ParamKind::Address, ParamKind::Uint256],
            },
            Function {
                name: "approve".to_string(),
                selector: APPROVE_SELECTOR,
                inputs: vec![ParamKind::Address, ParamKind::Uint256],
            },
        ],
    }
}

fn bridge_abi() -> ContractAbi {
    ContractAbi {
        functions: vec![Function {
            name: "deposit".to_string(),
            selector: DEPOSIT_SELECTOR,
            inputs: vec![
                ParamKind::Address,
                ParamKind::Address,
                ParamKind::Uint256,
                ParamKind::Uint256,
                ParamKind::Uint256,
            ],
        }],
    }
}

fn provider() -> EthereumProvider {
    EthereumProvider {
        default_bridges: BridgeAddresses { l1_erc20_default_bridge: addr(0xb1) },
        main_contract: addr(0xc0),
        erc20_abi: erc20_abi(),
        l1_bridge_abi: bridge_abi(),
    }
}

fn address_word(a: Address) -> Vec<u8> {
    let mut w = vec![0u8; 12];
    w.extend_from_slice(&a.bytes);
    w
}

fn uint_word(v: u128) -> Vec<u8> {
    let mut w = vec![0u8; 16];
    w.extend_from_slice(&v.to_be_bytes());
    w
}

fn deposit_options(opts: &TxOptions) -> (u128, u128) {
    let gas = opts.gas.expect("gas limit set");
    let value = opts.value.expect("value set");
    assert_eq!(gas.hi, 0);
    assert_eq!(value.hi, 0);
    (gas.lo, value.lo)
}

#[test]
fn native_deposit_scenario() {
    let p = provider();
    let to = addr(0x01);
    let r = p
        .deposit(
            Address::zero(),
            U256::from_u128(ETHER),
            to,
            Some(U256::zero()),
            None,
            None,
            U256::from_u64(50),
            U256::from_u128(ETHER / 1000),
        )
        .unwrap();
    match r {
        DepositCall::Execute(req) => {
            assert_eq!(req.target, p.main_contract);
            assert_eq!(req.contract_l2, to);
            assert_eq!(req.l2_value, U256::from_u128(ETHER));
            assert_eq!(req.l2_gas_limit, U256::from_u64(3_000_000));
            assert_eq!(req.gas_per_pubdata, U256::from_u64(800));
            assert_eq!(req.gas_price, U256::from_u64(50));
            assert_eq!(deposit_options(&req.options), (200_000, ETHER + ETHER / 1000));
        }
        DepositCall::Bridge(_) => panic!("native deposit sent to a bridge"),
    }
}

#[test]
fn token_deposit_scenario() {
    let p = provider();
    let to = addr(0x01);
    let token = addr(0x7e);
    let r = p
        .deposit(
            token,
            U256::from_u64(100),
            to,
            Some(U256::zero()),
            None,
            None,
            U256::from_u64(50),
            U256::from_u128(2 * ETHER / 1000),
        )
        .unwrap();
    match r {
        DepositCall::Bridge(tx) => {
            assert_eq!(tx.to, addr(0xb1));
            assert_eq!(deposit_options(&tx.options), (300_000, 2 * ETHER / 1000));
            let mut expected = DEPOSIT_SELECTOR.to_vec();
            expected.extend(address_word(to));
            expected.extend(address_word(token));
            expected.extend(uint_word(100));
            expected.extend(uint_word(3_000_000));
            expected.extend(uint_word(800));
            assert_eq!(tx.data, expected);
            assert_eq!(tx.data.len(), 4 + 5 * 32);
        }
        DepositCall::Execute(_) => panic!("token deposit sent to the entry point"),
    }
}

#[test]
fn native_deposit_adds_tip_and_amount() {
    let p = provider();
    let r = p
        .deposit(
            Address::zero(),
            U256::from_u64(1_000),
            addr(0x01),
            Some(U256::from_u64(7)),
            Some(addr(0x99)),
            None,
            U256::from_u64(1),
            U256::from_u64(20),
        )
        .unwrap();
    match r {
        DepositCall::Execute(req) => {
            assert_eq!(req.target, addr(0xc0));
            assert_eq!(deposit_options(&req.options), (200_000, 1_027));
        }
        DepositCall::Bridge(_) => panic!("native deposit sent to a bridge"),
    }
}

#[test]
fn token_deposit_excludes_amount() {
    let p = provider();
    let r = p
        .deposit(
            addr(0x7e),
            U256::from_u64(1_000_000),
            addr(0x01),
            Some(U256::from_u64(7)),
            None,
            None,
            U256::from_u64(1),
            U256::from_u64(20),
        )
        .unwrap();
    match r {
        DepositCall::Bridge(tx) => assert_eq!(deposit_options(&tx.options), (300_000, 27)),
        DepositCall::Execute(_) => panic!("token deposit sent to the entry point"),
    }
}

#[test]
fn deposit_keeps_caller_options() {
    let p = provider();
    let opts = TxOptions {
        gas: Some(U256::from_u64(1)),
        gas_price: Some(U256::from_u64(33)),
        value: Some(U256::from_u64(5)),
        nonce: Some(U256::from_u64(9)),
    };
    let r = p
        .deposit(
            addr(0x7e),
            U256::from_u64(10),
            addr(0x01),
            None,
            None,
            Some(opts),
            U256::from_u64(33),
            U256::from_u64(4),
        )
        .unwrap();
    match r {
        DepositCall::Bridge(tx) => {
            assert_eq!(deposit_options(&tx.options), (300_000, 4));
            assert_eq!(tx.options.gas_price, Some(U256::from_u64(33)));
            assert_eq!(tx.options.nonce, Some(U256::from_u64(9)));
        }
        DepositCall::Execute(_) => panic!("token deposit sent to the entry point"),
    }
}

#[test]
fn gas_limit_ignores_amount() {
    let p = provider();
    for amount in [0u128, 1, ETHER, u128::MAX / 2] {
        let native = p
            .deposit(
                Address::zero(),
                U256::from_u128(amount),
                addr(0x01),
                None,
                None,
                None,
                U256::zero(),
                U256::zero(),
            )
            .unwrap();
        match native {
            DepositCall::Execute(req) => assert_eq!(req.options.gas, Some(U256::from_u64(200_000))),
            DepositCall::Bridge(_) => panic!("native deposit sent to a bridge"),
        }
        let token = p
            .deposit(
                addr(0x7e),
                U256::from_u128(amount),
                addr(0x01),
                None,
                None,
                None,
                U256::zero(),
                U256::zero(),
            )
            .unwrap();
        match token {
            DepositCall::Bridge(tx) => assert_eq!(tx.options.gas, Some(U256::from_u64(300_000))),
            DepositCall::Execute(_) => panic!("token deposit sent to the entry point"),
        }
    }
    assert_eq!(deposit_gas_limit(Asset::Native), 200_000);
    assert_eq!(deposit_gas_limit(Asset::Token(addr(0x7e))), 300_000);
}

#[test]
fn bridge_override_wins_for_deposit() {
    let p = provider();
    let r = p
        .deposit(
            addr(0x7e),
            U256::from_u64(100),
            addr(0x01),
            None,
            Some(addr(0x55)),
            None,
            U256::zero(),
            U256::zero(),
        )
        .unwrap();
    match r {
        DepositCall::Bridge(tx) => assert_eq!(tx.to, addr(0x55)),
        DepositCall::Execute(_) => panic!("token deposit sent to the entry point"),
    }
    assert_eq!(resolve_bridge(Some(addr(0x55)), addr(0xb1)), addr(0x55));
    assert_eq!(resolve_bridge(None, addr(0xb1)), addr(0xb1));
}

#[test]
fn unlimited_approval_scenario() {
    let p = provider();
    let token = addr(0x7e);
    let tx = p.approve_erc20_token_deposits(token, None).unwrap();
    assert_eq!(tx.to, token);
    let mut expected = APPROVE_SELECTOR.to_vec();
    expected.extend(address_word(addr(0xb1)));
    expected.extend(vec![0xffu8; 32]);
    assert_eq!(tx.data, expected);
    assert_eq!(tx.options.gas, Some(U256::from_u64(300_000)));
    assert_eq!(tx.options.value, None);
    assert_eq!(tx.options.gas_price, None);
}

#[test]
fn limited_approval_encodes_ceiling() {
    let p = provider();
    let token = addr(0x7e);
    let tx = p
        .limited_approve_erc20_token_deposits(token, U256::from_u64(12_345), Some(addr(0x55)))
        .unwrap();
    assert_eq!(tx.to, token);
    let mut expected = APPROVE_SELECTOR.to_vec();
    expected.extend(address_word(addr(0x55)));
    expected.extend(uint_word(12_345));
    assert_eq!(tx.data, expected);
}

#[test]
fn approval_without_approve_function_fails() {
    let mut p = provider();
    p.erc20_abi.functions.remove(1);
    let r = p.approve_erc20_token_deposits(addr(0x7e), None);
    assert_eq!(r, Err(ClientError::AbiError(AbiError::UnknownFunction)));
}

#[test]
fn deposit_with_mismatched_interface_fails() {
    let mut p = provider();
    p.l1_bridge_abi.functions[0].inputs.pop();
    let r = p.deposit(
        addr(0x7e),
        U256::from_u64(1),
        addr(0x01),
        None,
        None,
        None,
        U256::zero(),
        U256::zero(),
    );
    assert_eq!(r, Err(ClientError::AbiError(AbiError::InvalidParameters)));
    p.l1_bridge_abi.functions[0].inputs.push(ParamKind::Address);
    let r = p.deposit(
        addr(0x7e),
        U256::from_u64(1),
        addr(0x01),
        None,
        None,
        None,
        U256::zero(),
        U256::zero(),
    );
    assert_eq!(r, Err(ClientError::AbiError(AbiError::InvalidParameters)));
}

#[test]
fn native_deposit_needs_no_bridge_interface() {
    let mut p = provider();
    p.l1_bridge_abi.functions.clear();
    let r = p.deposit(
        Address::zero(),
        U256::from_u64(1),
        addr(0x01),
        None,
        None,
        None,
        U256::zero(),
        U256::zero(),
    );
    assert!(matches!(r, Ok(DepositCall::Execute(_))));
}

#[test]
fn signer_failure_gives_credential_error() {
    let step = after_signing(Err(SignerFailure { message: "no key".to_string() }));
    match step {
        SubmitStep::Finish(r) => assert_eq!(r, Err(ClientError::IncorrectCredentials)),
        SubmitStep::Send(_) => panic!("submission attempted after a signer failure"),
    }
}

#[test]
fn signed_payload_goes_to_submission() {
    let step = after_signing(Ok(SignedTransaction { raw_tx: vec![1, 2, 3] }));
    match step {
        SubmitStep::Send(raw) => assert_eq!(raw, vec![1, 2, 3]),
        SubmitStep::Finish(_) => panic!("signed payload not submitted"),
    }
}

#[test]
fn submission_outcomes() {
    let h = TxHash { bytes: [7u8; 32] };
    assert_eq!(after_sending(Ok(h)), Ok(h));
    assert_eq!(
        after_sending(Err("nonce too low".to_string())),
        Err(ClientError::NetworkError("nonce too low".to_string()))
    );
}

#[test]
fn gas_price_resolution() {
    let explicit = resolve_gas_price(Some(U256::from_u64(5)), Some(U256::from_u64(9)));
    assert_eq!(explicit.price, U256::from_u64(5));
    assert!(!explicit.fallback);
    let queried = resolve_gas_price(None, Some(U256::from_u64(9)));
    assert_eq!(queried.price, U256::from_u64(9));
    assert!(!queried.fallback);
    let fallback = resolve_gas_price(None, None);
    assert_eq!(fallback.price, U256::zero());
    assert!(fallback.fallback);
}

#[test]
fn base_cost_query_parameters() {
    let q = base_cost_query(U256::from_u64(42));
    assert_eq!(q.l2_gas_limit, U256::from_u64(300_000));
    assert_eq!(q.gas_per_pubdata, U256::from_u64(800));
    assert_eq!(q.gas_price, U256::from_u64(42));
}

#[test]
fn classification_by_zero_address() {
    assert_eq!(classify(Address::zero()), Asset::Native);
    assert_eq!(classify(addr(0x7e)), Asset::Token(addr(0x7e)));
    let mut b = [0u8; 20];
    b[19] = 1;
    assert!(!Address::new(b).is_zero());
    assert!(Address::zero().is_zero());
}

#[test]
fn total_value_formula() {
    let v = total_value(Asset::Native, U256::from_u64(3), U256::from_u64(4), U256::from_u64(5));
    assert_eq!(v, U256::from_u64(12));
    let v = total_value(Asset::Token(addr(1)), U256::from_u64(3), U256::from_u64(4), U256::from_u64(5));
    assert_eq!(v, U256::from_u64(7));
}

#[test]
fn u256_addition_and_encoding() {
    let a = U256 { hi: 0, lo: u128::MAX };
    let s = a.checked_add(&U256::from_u64(1)).unwrap();
    assert_eq!(s, U256 { hi: 1, lo: 0 });
    assert_eq!(U256::max_value().checked_add(&U256::from_u64(1)), None);
    assert_eq!(U256::max_value(), U256 { hi: u128::MAX, lo: u128::MAX });
    let w = U256 { hi: 0x0102, lo: 0x0304 }.to_be_word();
    let mut expected = vec![0u8; 32];
    expected[14] = 1;
    expected[15] = 2;
    expected[30] = 3;
    expected[31] = 4;
    assert_eq!(w, expected);
    assert_eq!(addr(0x42).to_word(), address_word(addr(0x42)));
}
