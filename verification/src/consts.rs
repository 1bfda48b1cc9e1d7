//! The numbers and the name by which the host tells this service and its
//! transactions apart.

use vstd::prelude::*;

verus! {

/// The number of the service.
pub const CARS_SERVICE_ID: u16 = 1;

/// The name of the service.
pub const CARS_SERVICE_NAME: &'static str = "cars";

/// The message type of a transaction that produces a car.
pub const TX_PRODUCE_CAR_ID: u16 = 1;

/// The message type of a transaction that hands a car to a new owner.
pub const TX_CHANGE_CAR_OWNER_ID: u16 = 2;

/// The message type of a transaction that registers an owner.
pub const TX_REGISTER_OWNER_ID: u16 = 3;

} // verus!
