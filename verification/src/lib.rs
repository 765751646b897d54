//! Client-side model of the token factory contract: typed identifiers,
//! call requests with their transaction policy, and the command line's rules.
//!
//! Nothing here touches the network. A request built by
//! [`TokenFactoryContract`] says what is to be called and how; the program
//! that holds the wallet submits it.

pub mod call;
pub mod cli;
pub mod contract;
pub mod decimal;
pub mod hex;
pub mod ids;
pub mod policy;

pub use call::{CallRequest, ContractCall, FeeInfo, Metadata};
pub use contract::{Deployment, TokenFactoryContract};
pub use ids::{Address, AssetId, Bytes32, ContractId, Identity};
pub use policy::{CallParameters, TxPolicies, VariableOutputPolicy};
