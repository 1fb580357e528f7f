//! A verified model of the Elysium chain's runtime logic: the validator-set
//! pallet, the Elysium signer pallet, and the runtime's fee, gas, author and
//! dispatch computations.
pub mod account;
pub mod arithmetic;
pub mod currency;
pub mod elysium;
pub mod evm;
pub mod fees;
pub mod origin;
pub mod store;
pub mod validator_set;
pub mod version;
pub mod weights;
