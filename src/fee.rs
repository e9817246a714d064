use crate::u256::U256;
use vstd::prelude::*;

verus! {

/// The layer-2 gas budget that the base cost of a deposit is priced for.
pub const BASE_COST_L2_GAS_LIMIT: u64 = 300_000;

/// Gas charged per byte of published layer-2 data.
pub const L1_TO_L2_GAS_PER_PUBDATA: u64 = 800;

/// The gas price a deposit is priced with, and whether it is a fallback
/// because no explicit price was given and the network query failed.
#[derive(Clone, Copy, Debug, PartialEq, Eq, Structural)]
pub struct GasPrice {
    pub price: U256,
    pub fallback: bool,
}

/// The arguments handed to the bridge's cost oracle to learn the base cost.
#[derive(Clone, Copy, Debug, PartialEq, Eq, Structural)]
pub struct BaseCostQuery {
    pub l2_gas_limit: U256,
    pub gas_per_pubdata: U256,
    pub gas_price: U256,
}

/// Picks the gas price: an explicit one verbatim, else the queried one, else
/// zero marked as a fallback (`queried` is `None` when the query failed).
pub fn resolve_gas_price(explicit: Option<U256>, queried: Option<U256>) -> (r: GasPrice)
    ensures
        match (explicit, queried) {
            (Some(p), _) => r.price == p && !r.fallback,
            (None, Some(q)) => r.price == q && !r.fallback,
            (None, None) => r.price.value() == 0 && r.fallback,
        },
{
    match explicit {
        Some(p) => GasPrice { price: p, fallback: false },
        None => match queried {
            Some(q) => GasPrice { price: q, fallback: false },
            None => GasPrice { price: U256::zero(), fallback: true },
        },
    }
}

/// The cost-oracle request for a deposit priced at `gas_price`.
pub fn base_cost_query(gas_price: U256) -> (r: BaseCostQuery)
    ensures
        r.l2_gas_limit.value() == BASE_COST_L2_GAS_LIMIT,
        r.gas_per_pubdata.value() == L1_TO_L2_GAS_PER_PUBDATA,
        r.gas_price == gas_price,
{
    BaseCostQuery {
        l2_gas_limit: U256::from_u64(BASE_COST_L2_GAS_LIMIT),
        gas_per_pubdata: U256::from_u64(L1_TO_L2_GAS_PER_PUBDATA),
        gas_price,
    }
}

} // verus!
