// Deposit bridging from a base-layer account into layer 2: pricing, routing,
// call-data encoding and the decisions around signing and submission.
pub mod abi;
pub mod address;
pub mod fee;
pub mod provider;
pub mod submission;
pub mod u256;
