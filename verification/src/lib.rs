//! Decision logic of an XMR/BTC atomic-swap node: command-line option
//! checks, the confirmation dialogue on the offered amounts, the message-0
//! exchange of the network layer, and the recovery of a swap from a saved
//! state, together with the Monero key arithmetic that recovery needs.

pub mod cli;
pub mod confirm;
pub mod message0;
pub mod monero_keys;
pub mod recover;
