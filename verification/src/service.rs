//! The service as the host sees it: its name, its number, and which kind of
//! transaction a message type stands for.

use vstd::prelude::*;
use crate::consts::{
    CARS_SERVICE_ID,
    CARS_SERVICE_NAME,
    TX_CHANGE_CAR_OWNER_ID,
    TX_PRODUCE_CAR_ID,
    TX_REGISTER_OWNER_ID,
};
use crate::api::{cars_routes, owners_routes, CarsApi, OwnersApi, Route};
use crate::ledger::Blockchain;
use crate::transactions::{message_type_of, TransactionView};

verus! {

/// The three kinds of transaction.
#[derive(Clone, Copy, Debug, PartialEq, Eq, Structural)]
pub enum TransactionKind {
    ProduceCar,
    ChangeCarOwner,
    RegisterOwner,
}

/// Why a message cannot be read as a transaction of this service.
#[derive(Clone, Copy, Debug, PartialEq, Eq, Structural)]
pub enum Error {
    /// The message type is that of no transaction of this service.
    IncorrectMessageType { message_type: u16 },
}

/// The kind of a transaction of the given content.
pub open spec fn kind_of(tx: TransactionView) -> TransactionKind {
    match tx {
        TransactionView::ProduceCar(_) => TransactionKind::ProduceCar,
        TransactionView::ChangeCarOwner(_) => TransactionKind::ChangeCarOwner,
        TransactionView::RegisterOwner(_) => TransactionKind::RegisterOwner,
    }
}

/// The kind of transaction that a message type stands for.
pub open spec fn kind_from_message_type(message_type: u16) -> Result<TransactionKind, Error> {
    if message_type == TX_PRODUCE_CAR_ID {
        Ok(TransactionKind::ProduceCar)
    } else if message_type == TX_CHANGE_CAR_OWNER_ID {
        Ok(TransactionKind::ChangeCarOwner)
    } else if message_type == TX_REGISTER_OWNER_ID {
        Ok(TransactionKind::RegisterOwner)
    } else {
        Err(Error::IncorrectMessageType { message_type })
    }
}

/// The message type of every transaction is read back as the kind of that
/// transaction: no two kinds share a message type.
pub proof fn lemma_message_type_tells_kind(tx: TransactionView)
    ensures
        kind_from_message_type(message_type_of(tx)) == Ok::<TransactionKind, Error>(kind_of(tx)),
{
}

/// The service of cars and owners.
#[derive(Clone, Copy, Debug)]
pub struct CarsService;

impl CarsService {
    /// The name of the service.
    pub fn service_name(&self) -> (name: &'static str)
        ensures
            name@ == CARS_SERVICE_NAME@,
    {
        CARS_SERVICE_NAME
    }

    /// The number of the service.
    pub fn service_id(&self) -> (id: u16)
        ensures
            id == CARS_SERVICE_ID,
    {
        CARS_SERVICE_ID
    }

    /// The kind of transaction that a raw message of the given type is to be
    /// read as, or the error for a type that stands for none.
    pub fn tx_from_raw(&self, message_type: u16) -> (kind: Result<TransactionKind, Error>)
        ensures
            kind == kind_from_message_type(message_type),
    {
        if message_type == TX_PRODUCE_CAR_ID {
            Ok(TransactionKind::ProduceCar)
        } else if message_type == TX_CHANGE_CAR_OWNER_ID {
            Ok(TransactionKind::ChangeCarOwner)
        } else if message_type == TX_REGISTER_OWNER_ID {
            Ok(TransactionKind::RegisterOwner)
        } else {
            Err(Error::IncorrectMessageType { message_type })
        }
    }

    /// The routes of the public interface over the given ledger: those about
    /// cars, then those about owners.
    pub fn public_api_handler(&self, blockchain: &Blockchain) -> (routes: Vec<Route>)
        ensures
            routes@.len() == 5,
            cars_routes(routes@.subrange(0, 3)),
            owners_routes(routes@.subrange(3, 5)),
    {
        let cars_api = CarsApi { blockchain };
        let mut routes = cars_api.wire();
        let owners_api = OwnersApi { blockchain };
        let mut owners = owners_api.wire();
        let ghost cars = routes@;
        let ghost tail = owners@;
        routes.append(&mut owners);
        assert(routes@.subrange(0, 3) =~= cars);
        assert(routes@.subrange(3, 5) =~= tail);
        routes
    }
}

} // verus!
