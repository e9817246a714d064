use crate::abi::{encode_words, find_function, tokens_fit, AbiError, ContractAbi, Token};
use crate::address::Address;
use crate::fee::L1_TO_L2_GAS_PER_PUBDATA;
use crate::submission::ClientError;
use crate::u256::{lemma_max_value, u256_max, U256};
use vstd::prelude::*;

verus! {

/// Gas limit of an approval and of a token deposit.
pub const DEFAULT_GAS_LIMIT: u64 = 300_000;

/// Gas limit of a native-asset deposit.
pub const ETH_DEPOSIT_GAS_LIMIT: u64 = 200_000;

/// Layer-2 gas limit requested for the deposited message.
pub const L2_TX_GAS_LIMIT: u64 = 3_000_000;

/// The configured bridge contracts.
#[derive(Clone, Copy, Debug, PartialEq, Eq)]
pub struct BridgeAddresses {
    pub l1_erc20_default_bridge: Address,
}

/// Options of a base-layer transaction; `None` leaves the field to the signer.
#[derive(Clone, Copy, Debug, PartialEq, Eq)]
pub struct TxOptions {
    pub gas: Option<U256>,
    pub gas_price: Option<U256>,
    pub value: Option<U256>,
    pub nonce: Option<U256>,
}

impl TxOptions {
    pub open spec fn is_empty(self) -> bool {
        self.gas is None && self.gas_price is None && self.value is None && self.nonce is None
    }

    /// Options with every field left to the signer.
    pub fn empty() -> (r: TxOptions)
        ensures
            r.is_empty(),
    {
        TxOptions { gas: None, gas_price: None, value: None, nonce: None }
    }
}

impl Default for TxOptions {
    fn default() -> (r: TxOptions)
        ensures
            r.is_empty(),
    {
        TxOptions::empty()
    }
}

/// A contract call ready for signing.
#[derive(Clone, Debug, PartialEq, Eq)]
pub struct PreparedTx {
    pub to: Address,
    pub data: Vec<u8>,
    pub options: TxOptions,
}

/// A native-asset deposit, sent through the layer-2 execution entry point.
#[derive(Clone, Copy, Debug, PartialEq, Eq)]
pub struct ExecuteRequest {
    /// The execution entry point on the base layer.
    pub target: Address,
    /// The layer-2 account credited.
    pub contract_l2: Address,
    pub l2_value: U256,
    pub l2_gas_limit: U256,
    pub gas_per_pubdata: U256,
    pub gas_price: U256,
    pub options: TxOptions,
}

/// The transaction a deposit resolves to.
#[derive(Clone, Debug, PartialEq, Eq)]
pub enum DepositCall {
    Execute(ExecuteRequest),
    Bridge(PreparedTx),
}

/// What is being deposited.
#[derive(Clone, Copy, Debug, PartialEq, Eq)]
pub enum Asset {
    Native,
    Token(Address),
}

pub open spec fn classify_spec(a: Address) -> Asset {
    if a.is_zero_spec() {
        Asset::Native
    } else {
        Asset::Token(a)
    }
}

/// The zero address is the native asset; every other address is a token contract.
pub fn classify(a: Address) -> (r: Asset)
    ensures
        r == classify_spec(a),
{
    if a.is_zero() {
        Asset::Native
    } else {
        Asset::Token(a)
    }
}

pub open spec fn resolve_bridge_spec(bridge: Option<Address>, default: Address) -> Address {
    match bridge {
        Some(b) => b,
        None => default,
    }
}

/// An explicit bridge wins over the configured default.
pub fn resolve_bridge(bridge: Option<Address>, default: Address) -> (r: Address)
    ensures
        r == resolve_bridge_spec(bridge, default),
{
    match bridge {
        Some(b) => b,
        None => default,
    }
}

pub open spec fn deposit_gas_limit_spec(asset: Asset) -> nat {
    match asset {
        Asset::Native => ETH_DEPOSIT_GAS_LIMIT as nat,
        Asset::Token(_) => DEFAULT_GAS_LIMIT as nat,
    }
}

/// Gas limit of the base-layer deposit transaction.
pub fn deposit_gas_limit(asset: Asset) -> (r: u64)
    ensures
        r == deposit_gas_limit_spec(asset),
{
    match asset {
        Asset::Native => ETH_DEPOSIT_GAS_LIMIT,
        Asset::Token(_) => DEFAULT_GAS_LIMIT,
    }
}

pub open spec fn tip_value(tip: Option<U256>) -> nat {
    match tip {
        Some(t) => t.value(),
        None => 0,
    }
}

/// The native value attached to a deposit: base cost and tip, plus the amount
/// when the native asset itself is deposited.
pub open spec fn total_value_spec(asset: Asset, base_cost: nat, tip: nat, amount: nat) -> nat {
    match asset {
        Asset::Native => base_cost + tip + amount,
        Asset::Token(_) => base_cost + tip,
    }
}

pub fn total_value(asset: Asset, base_cost: U256, tip: U256, amount: U256) -> (r: U256)
    requires
        total_value_spec(asset, base_cost.value(), tip.value(), amount.value()) <= u256_max(),
    ensures
        r.value() == total_value_spec(asset, base_cost.value(), tip.value(), amount.value()),
{
    let fee = base_cost.checked_add(&tip).unwrap();
    match asset {
        Asset::Native => amount.checked_add(&fee).unwrap(),
        Asset::Token(_) => fee,
    }
}

/// The transaction options of a deposit: the caller's options, with the gas
/// limit and the attached value set.
pub open spec fn deposit_options_ok(
    r: TxOptions,
    caller: Option<TxOptions>,
    gas: nat,
    value: nat,
) -> bool {
    &&& r.gas matches Some(g) && g.value() == gas
    &&& r.value matches Some(v) && v.value() == value
    &&& match caller {
        Some(o) => r.gas_price == o.gas_price && r.nonce == o.nonce,
        None => r.gas_price is None && r.nonce is None,
    }
}

/// The arguments of the bridge's deposit function.
pub open spec fn bridge_deposit_tokens(to: Address, token: Address, amount: U256) -> Seq<Token> {
    seq![
        Token::Address(to),
        Token::Address(token),
        Token::Uint(amount),
        Token::Uint(U256 { hi: 0, lo: L2_TX_GAS_LIMIT as u128 }),
        Token::Uint(U256 { hi: 0, lo: L1_TO_L2_GAS_PER_PUBDATA as u128 }),
    ]
}

/// The arguments of the token's approve function.
pub open spec fn approve_tokens(spender: Address, amount: U256) -> Seq<Token> {
    seq![Token::Address(spender), Token::Uint(amount)]
}

/// The encoding outcome of calling `name` on `abi` with `tokens`, where `Ok`
/// holds the call data.
pub open spec fn encoded_call(abi: ContractAbi, name: Seq<char>, tokens: Seq<Token>) -> Result<
    Seq<u8>,
    AbiError,
> {
    match find_function(abi.functions@, name) {
        None => Err(AbiError::UnknownFunction),
        Some(f) => if tokens_fit(f.inputs@, tokens) {
            Ok(f.call_data(tokens))
        } else {
            Err(AbiError::InvalidParameters)
        },
    }
}

/// A prepared call matches the expected encoding outcome and target: the
/// encoding error, or a call to `to` with the expected data.
pub open spec fn prepared_matches(
    r: Result<PreparedTx, ClientError>,
    expected: Result<Seq<u8>, AbiError>,
    to: Address,
) -> bool {
    match expected {
        Err(e) => r == Err::<PreparedTx, ClientError>(ClientError::AbiError(e)),
        Ok(data) => r matches Ok(tx) && tx.to == to && tx.data@ == data,
    }
}

/// Encodes `name(tokens)` against `abi`.
fn encode_call(abi: &ContractAbi, name: &str, tokens: &Vec<Token>) -> (r: Result<
    Vec<u8>,
    ClientError,
>)
    ensures
        match encoded_call(*abi, name@, tokens@) {
            Err(e) => r == Err::<Vec<u8>, ClientError>(ClientError::AbiError(e)),
            Ok(data) => r matches Ok(d) && d@ == data,
        },
{
    let f = match abi.function(name) {
        Ok(f) => f,
        Err(e) => {
            return Err(ClientError::AbiError(e));
        },
    };
    match f.encode_input(tokens) {
        Ok(d) => Ok(d),
        Err(e) => Err(ClientError::AbiError(e)),
    }
}

/// The deposit and approval logic of a base-layer client: read-only
/// configuration plus the contract interfaces it encodes calls against.
#[derive(Debug)]
pub struct EthereumProvider {
    pub default_bridges: BridgeAddresses,
    /// The layer-2 execution entry point that native deposits are sent to.
    pub main_contract: Address,
    pub erc20_abi: ContractAbi,
    pub l1_bridge_abi: ContractAbi,
}

impl EthereumProvider {
    /// What an approval of `amount` for `bridge` on `token` must produce.
    pub open spec fn approval_spec(
        &self,
        token: Address,
        amount: U256,
        bridge: Option<Address>,
        r: Result<PreparedTx, ClientError>,
    ) -> bool {
        let spender = resolve_bridge_spec(bridge, self.default_bridges.l1_erc20_default_bridge);
        &&& prepared_matches(
            r,
            encoded_call(self.erc20_abi, "approve"@, approve_tokens(spender, amount)),
            token,
        )
        &&& r matches Ok(tx) ==> {
            &&& tx.options.gas matches Some(g) && g.value() == DEFAULT_GAS_LIMIT
            &&& tx.options.gas_price is None
            &&& tx.options.value is None
            &&& tx.options.nonce is None
        }
    }

    /// The approval call granting the bridge an unlimited allowance on the token.
    pub fn approve_erc20_token_deposits(&self, token_address: Address, bridge: Option<Address>) -> (r:
        Result<PreparedTx, ClientError>)
        ensures
            self.approval_spec(token_address, U256::max_spec(), bridge, r),
    {
        self.limited_approve_erc20_token_deposits(token_address, U256::max_value(), bridge)
    }

    /// The approval call granting the bridge an allowance of
    /// `max_erc20_approve_amount` on the token.
    pub fn limited_approve_erc20_token_deposits(
        &self,
        token_address: Address,
        max_erc20_approve_amount: U256,
        bridge: Option<Address>,
    ) -> (r: Result<PreparedTx, ClientError>)
        ensures
            self.approval_spec(token_address, max_erc20_approve_amount, bridge, r),
    {
        let bridge = resolve_bridge(bridge, self.default_bridges.l1_erc20_default_bridge);
        let mut params: Vec<Token> = Vec::new();
        params.push(Token::Address(bridge));
        params.push(Token::Uint(max_erc20_approve_amount));
        assert(params@ =~= approve_tokens(bridge, max_erc20_approve_amount));
        let data = encode_call(&self.erc20_abi, "approve", &params)?;
        let mut options = TxOptions::empty();
        options.gas = Some(U256::from_u64(DEFAULT_GAS_LIMIT));
        Ok(PreparedTx { to: token_address, data, options })
    }

    /// What a deposit must produce for the given inputs, gas price and base cost.
    pub open spec fn deposit_spec(
        &self,
        l1_token_address: Address,
        amount: U256,
        to: Address,
        operator_tip: Option<U256>,
        bridge_address: Option<Address>,
        eth_options: Option<TxOptions>,
        gas_price: U256,
        base_cost: U256,
        r: Result<DepositCall, ClientError>,
    ) -> bool {
        let asset = classify_spec(l1_token_address);
        let total = total_value_spec(asset, base_cost.value(), tip_value(operator_tip), amount.value());
        let gas = deposit_gas_limit_spec(asset);
        match asset {
            Asset::Native => r matches Ok(DepositCall::Execute(req)) && {
                &&& req.target == self.main_contract
                &&& req.contract_l2 == to
                &&& req.l2_value == amount
                &&& req.l2_gas_limit.value() == L2_TX_GAS_LIMIT
                &&& req.gas_per_pubdata.value() == L1_TO_L2_GAS_PER_PUBDATA
                &&& req.gas_price == gas_price
                &&& deposit_options_ok(req.options, eth_options, gas, total)
            },
            Asset::Token(token) => {
                let bridge = resolve_bridge_spec(
                    bridge_address,
                    self.default_bridges.l1_erc20_default_bridge,
                );
                match encoded_call(
                    self.l1_bridge_abi,
                    "deposit"@,
                    bridge_deposit_tokens(to, token, amount),
                ) {
                    Err(e) => r == Err::<DepositCall, ClientError>(ClientError::AbiError(e)),
                    Ok(data) => r matches Ok(DepositCall::Bridge(tx)) && {
                        &&& tx.to == bridge
                        &&& tx.data@ == data
                        &&& deposit_options_ok(tx.options, eth_options, gas, total)
                    },
                }
            },
        }
    }

    /// The deposit transaction of `amount` of the asset at `l1_token_address`
    /// (the zero address for the native asset) to `to`, priced at `gas_price`
    /// with the oracle's `base_cost`.
    pub fn deposit(
        &self,
        l1_token_address: Address,
        amount: U256,
        to: Address,
        operator_tip: Option<U256>,
        bridge_address: Option<Address>,
        eth_options: Option<TxOptions>,
        gas_price: U256,
        base_cost: U256,
    ) -> (r: Result<DepositCall, ClientError>)
        requires
            total_value_spec(
                classify_spec(l1_token_address),
                base_cost.value(),
                tip_value(operator_tip),
                amount.value(),
            ) <= u256_max(),
        ensures
            self.deposit_spec(
                l1_token_address,
                amount,
                to,
                operator_tip,
                bridge_address,
                eth_options,
                gas_price,
                base_cost,
                r,
            ),
    {
        let tip = match operator_tip {
            Some(t) => t,
            None => U256::zero(),
        };
        let asset = classify(l1_token_address);
        let gas_limit = deposit_gas_limit(asset);
        let value = total_value(asset, base_cost, tip, amount);
        let mut options = match eth_options {
            Some(o) => o,
            None => TxOptions::empty(),
        };
        options.gas = Some(U256::from_u64(gas_limit));
        options.value = Some(value);
        match asset {
            Asset::Native => Ok(
                DepositCall::Execute(
                    ExecuteRequest {
                        target: self.main_contract,
                        contract_l2: to,
                        l2_value: amount,
                        l2_gas_limit: U256::from_u64(L2_TX_GAS_LIMIT),
                        gas_per_pubdata: U256::from_u64(L1_TO_L2_GAS_PER_PUBDATA),
                        gas_price,
                        options,
                    },
                ),
            ),
            Asset::Token(token) => {
                let bridge = resolve_bridge(
                    bridge_address,
                    self.default_bridges.l1_erc20_default_bridge,
                );
                let mut params: Vec<Token> = Vec::new();
                params.push(Token::Address(to));
                params.push(Token::Address(token));
                params.push(Token::Uint(amount));
                params.push(Token::Uint(U256::from_u64(L2_TX_GAS_LIMIT)));
                params.push(Token::Uint(U256::from_u64(L1_TO_L2_GAS_PER_PUBDATA)));
                assert(params@ =~= bridge_deposit_tokens(to, token, amount));
                let data = match encode_call(&self.l1_bridge_abi, "deposit", &params) {
                    Ok(d) => d,
                    Err(e) => {
                        return Err(e);
                    },
                };
                Ok(DepositCall::Bridge(PreparedTx { to: bridge, data, options }))
            },
        }
    }
}

/// A native-asset deposit attaches base cost, tip and amount as its value and
/// is sent to the execution entry point, never to a bridge.
pub proof fn lemma_native_deposit(
    p: EthereumProvider,
    l1_token_address: Address,
    amount: U256,
    to: Address,
    operator_tip: Option<U256>,
    bridge_address: Option<Address>,
    eth_options: Option<TxOptions>,
    gas_price: U256,
    base_cost: U256,
    r: Result<DepositCall, ClientError>,
)
    requires
        l1_token_address.is_zero_spec(),
        p.deposit_spec(
            l1_token_address,
            amount,
            to,
            operator_tip,
            bridge_address,
            eth_options,
            gas_price,
            base_cost,
            r,
        ),
    ensures
        r matches Ok(DepositCall::Execute(req)) && {
            &&& req.target == p.main_contract
            &&& req.options.value matches Some(v) && v.value() == base_cost.value() + tip_value(
                operator_tip,
            ) + amount.value()
        },
{
}

/// A token deposit attaches only base cost and tip as its value and, when it
/// is encoded, is sent to the resolved bridge.
pub proof fn lemma_token_deposit(
    p: EthereumProvider,
    l1_token_address: Address,
    amount: U256,
    to: Address,
    operator_tip: Option<U256>,
    bridge_address: Option<Address>,
    eth_options: Option<TxOptions>,
    gas_price: U256,
    base_cost: U256,
    r: Result<DepositCall, ClientError>,
)
    requires
        !l1_token_address.is_zero_spec(),
        r is Ok,
        p.deposit_spec(
            l1_token_address,
            amount,
            to,
            operator_tip,
            bridge_address,
            eth_options,
            gas_price,
            base_cost,
            r,
        ),
    ensures
        r matches Ok(DepositCall::Bridge(tx)) && {
            &&& tx.to == resolve_bridge_spec(bridge_address, p.default_bridges.l1_erc20_default_bridge)
            &&& tx.options.value matches Some(v) && v.value() == base_cost.value() + tip_value(
                operator_tip,
            )
        },
{
}

/// An explicit bridge is used in place of the configured default, by a token
/// deposit as its target and by an approval as the spender.
pub proof fn lemma_bridge_override(
    p: EthereumProvider,
    l1_token_address: Address,
    amount: U256,
    to: Address,
    operator_tip: Option<U256>,
    bridge: Address,
    eth_options: Option<TxOptions>,
    gas_price: U256,
    base_cost: U256,
    r: Result<DepositCall, ClientError>,
    allowance: U256,
    a: Result<PreparedTx, ClientError>,
)
    requires
        p.deposit_spec(
            l1_token_address,
            amount,
            to,
            operator_tip,
            Some(bridge),
            eth_options,
            gas_price,
            base_cost,
            r,
        ),
        p.approval_spec(l1_token_address, allowance, Some(bridge), a),
    ensures
        r matches Ok(DepositCall::Bridge(tx)) ==> tx.to == bridge,
        a matches Ok(tx) ==> tx.data@.subrange(4, 36) == bridge.word(),
{
    if a is Ok {
        lemma_approve_data(p.erc20_abi, bridge, allowance);
    }
}

/// The deposit transaction's gas limit is the smaller fixed budget for the
/// native asset and the larger one for a token, whatever the amount.
pub proof fn lemma_deposit_gas_limit(
    p: EthereumProvider,
    l1_token_address: Address,
    amount: U256,
    to: Address,
    operator_tip: Option<U256>,
    bridge_address: Option<Address>,
    eth_options: Option<TxOptions>,
    gas_price: U256,
    base_cost: U256,
    r: Result<DepositCall, ClientError>,
)
    requires
        p.deposit_spec(
            l1_token_address,
            amount,
            to,
            operator_tip,
            bridge_address,
            eth_options,
            gas_price,
            base_cost,
            r,
        ),
    ensures
        r matches Ok(DepositCall::Execute(req)) ==> req.options.gas matches Some(g) && g.value()
            == ETH_DEPOSIT_GAS_LIMIT,
        r matches Ok(DepositCall::Bridge(tx)) ==> tx.options.gas matches Some(g) && g.value()
            == DEFAULT_GAS_LIMIT,
        l1_token_address.is_zero_spec() ==> r is Ok,
{
}

/// Successful approve call data is the selector, the spender's word and the
/// allowance's word.
pub proof fn lemma_approve_data(abi: ContractAbi, spender: Address, amount: U256)
    requires
        encoded_call(abi, "approve"@, approve_tokens(spender, amount)) is Ok,
    ensures
        encoded_call(abi, "approve"@, approve_tokens(spender, amount)) matches Ok(data) && data.len()
            == 68 && data.subrange(4, 36) == spender.word() && data.subrange(36, 68)
            == amount.be_word(),
{
    let tokens = approve_tokens(spender, amount);
    let f = find_function(abi.functions@, "approve"@).unwrap();
    vstd::array::array_len_matches_n(&f.selector);
    vstd::array::array_len_matches_n(&spender.bytes);
    let first = tokens.drop_last();
    assert(first =~= seq![Token::Address(spender)]);
    assert(first.drop_last() =~= Seq::<Token>::empty());
    assert(encode_words(first.drop_last()) =~= Seq::<u8>::empty());
    assert(encode_words(first) =~= spender.word());
    assert(encode_words(tokens) =~= spender.word() + amount.be_word());
    let data = f.call_data(tokens);
    assert(data =~= f.selector@ + spender.word() + amount.be_word());
    assert(data.subrange(4, 36) =~= spender.word());
    assert(data.subrange(36, 68) =~= amount.be_word());
}

/// An approval grants exactly the requested ceiling; an unlimited approval
/// grants the largest 256-bit value.
pub proof fn lemma_approval_allowance(
    p: EthereumProvider,
    token: Address,
    amount: U256,
    bridge: Option<Address>,
    r: Result<PreparedTx, ClientError>,
    unlimited: Result<PreparedTx, ClientError>,
)
    requires
        p.approval_spec(token, amount, bridge, r),
        p.approval_spec(token, U256::max_spec(), bridge, unlimited),
    ensures
        r matches Ok(tx) ==> tx.data@.len() == 68 && tx.data@.subrange(36, 68) == amount.be_word(),
        unlimited matches Ok(tx) ==> tx.data@.subrange(36, 68) == U256::max_spec().be_word(),
        U256::max_spec().value() == u256_max(),
{
    let spender = resolve_bridge_spec(bridge, p.default_bridges.l1_erc20_default_bridge);
    if r is Ok {
        lemma_approve_data(p.erc20_abi, spender, amount);
    }
    if unlimited is Ok {
        lemma_approve_data(p.erc20_abi, spender, U256::max_spec());
    }
    lemma_max_value();
}

} // verus!
