//! A ledger of cars and their owners, changed only by signed transactions.
//!
//! The ledger keeps two stores: cars by vehicle identification number, and
//! owners by the hexadecimal text of their public key. Three transactions
//! change it: a factory produces a car, a car is handed to a new owner, an
//! owner registers. A transaction names the key that has to have signed it;
//! one whose signature does not hold under that key is rejected and changes
//! nothing. One that is executed never fails: where there is nothing to do,
//! it leaves the ledger alone. Readers get copies of what is committed.
//!
//! The host supplies what the ledger does not decide: the wire format of a
//! transaction, the check of its signature, its hash, the ordering of
//! transactions and the transport of requests and answers.
//!
//! - [`crypto`]: public keys, hashes, hexadecimal text, the outcome of a
//!   signature check.
//! - [`structs`]: the records, `Car` and `Owner`.
//! - [`order`]: the order of keys.
//! - [`storage`]: the keyed store.
//! - [`ledger`]: the state of the ledger, views of it and the committed
//!   state.
//! - [`schema`]: access to the two stores of a view.
//! - [`transactions`]: the three transactions, what they do, and what holds
//!   of them.
//! - [`consts`], [`service`]: how the host tells the service and its
//!   transactions apart.
//! - [`api`]: the answers to readers and to those who hand in transactions.

pub mod api;
pub mod consts;
pub mod crypto;
pub mod ledger;
pub mod order;
pub mod schema;
pub mod service;
pub mod storage;
pub mod structs;
pub mod transactions;
