//! What the service answers: to readers, who ask for cars and owners, and to
//! those who hand in transactions.
//!
//! Reading the request, computing the hash of a transaction, handing the
//! transaction on and writing the answer out are the host's work; what is
//! decided in between is decided here.

use vstd::prelude::*;
use vstd::std_specs::convert::FromSpecImpl;
use crate::crypto::{hex_string, PublicKey};
use crate::ledger::{Blockchain, LedgerView};
use crate::schema::{CarsSchema, OwnersSchema};
use crate::storage::lists;
use crate::structs::{Car, CarView, Owner};
use crate::transactions::{Transaction, TxChangeCarOwner, TxProduceCar, TxRegisterOwner};

verus! {

/// The body of a request to the cars' transaction route, once read: one of
/// the two transactions on cars.
#[derive(Clone, Debug)]
pub enum CarTransactionRequest {
    ProduceCar(TxProduceCar),
    ChangeCarOwner(TxChangeCarOwner),
}

/// The body of a request to the owners' transaction route, once read.
#[derive(Clone, Debug)]
pub enum OwnerTransactionRequest {
    RegisterOwner(TxRegisterOwner),
}

/// The transaction that a request about cars holds.
pub open spec fn car_transaction(request: CarTransactionRequest) -> Transaction {
    match request {
        CarTransactionRequest::ProduceCar(trans) => Transaction::ProduceCar(trans),
        CarTransactionRequest::ChangeCarOwner(trans) => Transaction::ChangeCarOwner(trans),
    }
}

/// The transaction that a request about owners holds.
pub open spec fn owner_transaction(request: OwnerTransactionRequest) -> Transaction {
    match request {
        OwnerTransactionRequest::RegisterOwner(trans) => Transaction::RegisterOwner(trans),
    }
}

impl From<CarTransactionRequest> for Transaction {
    fn from(request: CarTransactionRequest) -> (tx: Transaction) {
        match request {
            CarTransactionRequest::ProduceCar(trans) => Transaction::ProduceCar(trans),
            CarTransactionRequest::ChangeCarOwner(trans) => Transaction::ChangeCarOwner(trans),
        }
    }
}

impl FromSpecImpl<CarTransactionRequest> for Transaction {
    open spec fn obeys_from_spec() -> bool {
        true
    }

    open spec fn from_spec(request: CarTransactionRequest) -> Transaction {
        car_transaction(request)
    }
}

impl From<OwnerTransactionRequest> for Transaction {
    fn from(request: OwnerTransactionRequest) -> (tx: Transaction) {
        match request {
            OwnerTransactionRequest::RegisterOwner(trans) => Transaction::RegisterOwner(trans),
        }
    }
}

impl FromSpecImpl<OwnerTransactionRequest> for Transaction {
    open spec fn obeys_from_spec() -> bool {
        true
    }

    open spec fn from_spec(request: OwnerTransactionRequest) -> Transaction {
        owner_transaction(request)
    }
}

/// Why a transaction that was handed in is turned away before it reaches the
/// ledger.
#[derive(Debug)]
pub enum ApiError {
    /// The request had no body. The fault is the sender's.
    EmptyBody,
    /// The body could not be read as a transaction; the reason is the
    /// reader's. The fault is the sender's.
    Malformed(String),
    /// The transaction could not be handed on for ordering; the reason is
    /// the channel's. The fault is not the sender's.
    Dispatch(String),
}

impl ApiError {
    /// Whether the fault is the sender's.
    pub open spec fn spec_is_incorrect_request(&self) -> bool {
        !(self is Dispatch)
    }

    /// Whether the fault is the sender's: the request was empty or could not
    /// be read.
    #[verifier::when_used_as_spec(spec_is_incorrect_request)]
    pub fn is_incorrect_request(&self) -> (incorrect: bool)
        ensures
            incorrect == self.spec_is_incorrect_request(),
    {
        match self {
            ApiError::EmptyBody => true,
            ApiError::Malformed(_) => true,
            ApiError::Dispatch(_) => false,
        }
    }

    /// What went wrong, in words.
    pub open spec fn spec_description(&self) -> Seq<char> {
        match self {
            ApiError::EmptyBody => "Empty request body"@,
            ApiError::Malformed(reason) => reason@,
            ApiError::Dispatch(reason) => reason@,
        }
    }

    /// What went wrong, in words: that the body was empty, or the reason
    /// that the reader or the channel gave.
    pub fn description(&self) -> (text: String)
        ensures
            text@ == self.spec_description(),
    {
        match self {
            ApiError::EmptyBody => "Empty request body".to_owned(),
            ApiError::Malformed(reason) => reason.clone(),
            ApiError::Dispatch(reason) => reason.clone(),
        }
    }
}

/// The answer to one who handed in a transaction that was taken: the hash by
/// which the transaction is known from now on. It says that the transaction
/// was taken, not that it was applied.
#[derive(Clone, Copy, Debug)]
pub struct TransactionResponse {
    pub tx_hash: crate::crypto::Hash,
}

/// What is made of the body of a request: the request that it held, or the
/// error for a body that was empty or could not be read.
pub open spec fn accepted<T>(body: Result<Option<T>, String>) -> Result<T, ApiError> {
    match body {
        Ok(Some(request)) => Ok(request),
        Ok(None) => Err(ApiError::EmptyBody),
        Err(reason) => Err(ApiError::Malformed(reason)),
    }
}

/// What is answered once the host has tried to hand the transaction on: its
/// hash if that went well, the channel's reason if not.
pub open spec fn responded(tx_hash: crate::crypto::Hash, sent: Result<(), String>) -> Result<
    TransactionResponse,
    ApiError,
> {
    match sent {
        Ok(_) => Ok(TransactionResponse { tx_hash }),
        Err(reason) => Err(ApiError::Dispatch(reason)),
    }
}

/// The answer for a transaction, once the host has computed its hash and
/// tried to hand it on for ordering: the hash if the channel took it, and a
/// dispatch error with the channel's reason if not.
pub fn transaction_response(tx_hash: crate::crypto::Hash, sent: Result<(), String>) -> (response:
    Result<TransactionResponse, ApiError>)
    ensures
        response == responded(tx_hash, sent),
{
    match sent {
        Ok(_) => Ok(TransactionResponse { tx_hash }),
        Err(reason) => Err(ApiError::Dispatch(reason)),
    }
}

/// What a reader is told.
#[derive(Debug)]
pub enum Answer<T> {
    /// What was asked for.
    Found(T),
    /// There is nothing of the kind; the text says what is missing.
    NotFound(&'static str),
}

/// How a route is asked.
#[derive(Clone, Copy, Debug, PartialEq, Eq, Structural)]
pub enum Method {
    Get,
    Post,
}

/// A route of the public interface: how it is asked, at which path, and the
/// name by which the router knows it.
#[derive(Clone, Copy, Debug)]
pub struct Route {
    pub method: Method,
    pub path: &'static str,
    pub name: &'static str,
}

/// `route` is asked with `method` at `path`, and is known as `name`.
pub open spec fn is_route(route: Route, method: Method, path: &str, name: &str) -> bool {
    route.method == method && route.path@ == path@ && route.name@ == name@
}

/// `routes` are the three routes about cars: handing in a transaction, all
/// cars, and one car.
pub open spec fn cars_routes(routes: Seq<Route>) -> bool {
    &&& routes.len() == 3
    &&& is_route(routes[0], Method::Post, "/v1/cars/transaction", "cars_transaction")
    &&& is_route(routes[1], Method::Get, "/v1/cars", "cars_info")
    &&& is_route(routes[2], Method::Get, "/v1/car/:vin", "car_info")
}

/// `routes` are the two routes about owners: handing in a transaction, and
/// one owner.
pub open spec fn owners_routes(routes: Seq<Route>) -> bool {
    &&& routes.len() == 2
    &&& is_route(routes[0], Method::Post, "/v1/owners/transaction", "owners_transaction")
    &&& is_route(routes[1], Method::Get, "/v1/owner/:pub_key", "owner_info")
}

/// The content of each car of a list.
pub open spec fn car_views(cars: Seq<Car>) -> Seq<CarView> {
    Seq::new(cars.len(), |i: int| cars[i]@)
}

/// The vehicle identification number of each car of a list.
pub open spec fn vins(cars: Seq<Car>) -> Seq<Seq<char>> {
    Seq::new(cars.len(), |i: int| cars[i]@.vin)
}

/// `list` holds every car of `cars` once, in ascending order of vehicle
/// identification number.
pub open spec fn lists_cars(cars: Map<Seq<char>, CarView>, list: Seq<Car>) -> bool {
    lists(cars, vins(list), car_views(list))
}

/// A ledger without cars is listed by the empty list only. So a reader who
/// asks for all cars of a ledger that was just made is told what a reader of
/// any other ledger without cars is told: that there are none.
pub proof fn lemma_no_cars_no_list(list: Seq<Car>)
    requires
        lists_cars(LedgerView::empty().cars, list),
    ensures
        list.len() == 0,
{
    if list.len() > 0 {
        assert(vins(list).contains(vins(list)[0]));
    }
}

/// The part of the public interface that is about cars, over the committed
/// state of the ledger.
#[derive(Clone, Copy)]
pub struct CarsApi<'a> {
    pub blockchain: &'a Blockchain,
}

impl<'a> CarsApi<'a> {
    /// A copy of the car with the given vehicle identification number, if
    /// the ledger holds one.
    pub fn get_car(&self, vin: &str) -> (car: Option<Car>)
        ensures
            car is Some <==> self.blockchain@.cars.contains_key(vin@),
            car matches Some(c) ==> c@ == self.blockchain@.cars[vin@] && c@.vin == vin@,
    {
        let mut view = self.blockchain.fork();
        let mut schema = CarsSchema { view: &mut view };
        schema.car(vin)
    }

    /// Copies of all cars of the ledger in ascending order of vehicle
    /// identification number, or nothing if the ledger holds no car.
    pub fn get_cars(&self) -> (cars: Option<Vec<Car>>)
        ensures
            cars is None <==> self.blockchain@.cars == Map::<Seq<char>, CarView>::empty(),
            cars matches Some(list) ==> list@.len() > 0 && lists_cars(
                self.blockchain@.cars,
                list@,
            ),
    {
        let mut view = self.blockchain.fork();
        let mut schema = CarsSchema { view: &mut view };
        let idx = schema.cars();
        let cars: Vec<Car> = idx.values();
        proof {
            assert(car_views(cars@) =~= idx.spec_values());
            assert(vins(cars@) =~= idx.spec_keys());
            if cars@.len() == 0 {
                assert(idx@ =~= Map::<Seq<char>, CarView>::empty());
            } else {
                assert(idx.spec_keys().contains(idx.spec_keys()[0]));
            }
        }
        if cars.is_empty() {
            None
        } else {
            Some(cars)
        }
    }

    /// Answers a request for all cars.
    pub fn cars_info(&self) -> (answer: Answer<Vec<Car>>)
        ensures
            answer is NotFound <==> self.blockchain@.cars == Map::<Seq<char>, CarView>::empty(),
            match answer {
                Answer::Found(list) => list@.len() > 0 && lists_cars(
                    self.blockchain@.cars,
                    list@,
                ),
                Answer::NotFound(text) => text@ == "Cars database is empty"@,
            },
    {
        if let Some(cars) = self.get_cars() {
            Answer::Found(cars)
        } else {
            Answer::NotFound("Cars database is empty")
        }
    }

    /// Answers a request for the car with the given vehicle identification
    /// number.
    pub fn car_info(&self, vin: &str) -> (answer: Answer<Car>)
        ensures
            match answer {
                Answer::Found(car) => self.blockchain@.cars.contains_key(vin@) && car@
                    == self.blockchain@.cars[vin@],
                Answer::NotFound(text) => text@ == "Car not found"@
                    && !self.blockchain@.cars.contains_key(vin@),
            },
    {
        if let Some(car) = self.get_car(vin) {
            Answer::Found(car)
        } else {
            Answer::NotFound("Car not found")
        }
    }

    /// The transaction that a request to the cars' transaction route hands
    /// in, or the error for a body that was empty or could not be read. The
    /// host computes the hash of the transaction, hands it on for ordering
    /// and answers with `transaction_response`.
    pub fn transaction(&self, body: Result<Option<CarTransactionRequest>, String>) -> (tx: Result<
        Transaction,
        ApiError,
    >)
        ensures
            tx == match accepted(body) {
                Ok(request) => Ok::<Transaction, ApiError>(car_transaction(request)),
                Err(error) => Err(error),
            },
    {
        match body {
            Ok(Some(request)) => Ok(Transaction::from(request)),
            Ok(None) => Err(ApiError::EmptyBody),
            Err(reason) => Err(ApiError::Malformed(reason)),
        }
    }

    /// The routes about cars, in the order in which they are registered.
    pub fn wire(&self) -> (routes: Vec<Route>)
        ensures
            cars_routes(routes@),
    {
        let mut routes: Vec<Route> = Vec::new();
        routes.push(
            Route { method: Method::Post, path: "/v1/cars/transaction", name: "cars_transaction" },
        );
        routes.push(Route { method: Method::Get, path: "/v1/cars", name: "cars_info" });
        routes.push(Route { method: Method::Get, path: "/v1/car/:vin", name: "car_info" });
        routes
    }
}

/// The part of the public interface that is about owners, over the committed
/// state of the ledger.
#[derive(Clone, Copy)]
pub struct OwnersApi<'a> {
    pub blockchain: &'a Blockchain,
}

impl<'a> OwnersApi<'a> {
    /// A copy of the owner with the given public key, if the ledger holds
    /// one.
    pub fn get_owner(&self, public_key: PublicKey) -> (owner: Option<Owner>)
        ensures
            owner is Some <==> self.blockchain@.owners.contains_key(hex_string(public_key@)),
            owner matches Some(o) ==> o@ == self.blockchain@.owners[hex_string(public_key@)]
                && o@.public_key == public_key@,
    {
        let mut view = self.blockchain.fork();
        let mut schema = OwnersSchema { view: &mut view };
        schema.owner(&public_key)
    }

    /// Answers a request for the owner with the given public key.
    pub fn owner_info(&self, public_key: PublicKey) -> (answer: Answer<Owner>)
        ensures
            match answer {
                Answer::Found(owner) => self.blockchain@.owners.contains_key(
                    hex_string(public_key@),
                ) && owner@ == self.blockchain@.owners[hex_string(public_key@)],
                Answer::NotFound(text) => text@ == "Owner not found"@
                    && !self.blockchain@.owners.contains_key(hex_string(public_key@)),
            },
    {
        if let Some(owner) = self.get_owner(public_key) {
            Answer::Found(owner)
        } else {
            Answer::NotFound("Owner not found")
        }
    }

    /// The transaction that a request to the owners' transaction route hands
    /// in, or the error for a body that was empty or could not be read. The
    /// host computes the hash of the transaction, hands it on for ordering
    /// and answers with `transaction_response`.
    pub fn transaction(
        &self,
        body: Result<Option<OwnerTransactionRequest>, String>,
    ) -> (tx: Result<Transaction, ApiError>)
        ensures
            tx == match accepted(body) {
                Ok(request) => Ok::<Transaction, ApiError>(owner_transaction(request)),
                Err(error) => Err(error),
            },
    {
        match body {
            Ok(Some(request)) => Ok(Transaction::from(request)),
            Ok(None) => Err(ApiError::EmptyBody),
            Err(reason) => Err(ApiError::Malformed(reason)),
        }
    }

    /// The routes about owners, in the order in which they are registered.
    pub fn wire(&self) -> (routes: Vec<Route>)
        ensures
            owners_routes(routes@),
    {
        let mut routes: Vec<Route> = Vec::new();
        routes.push(
            Route {
                method: Method::Post,
                path: "/v1/owners/transaction",
                name: "owners_transaction",
            },
        );
        routes.push(Route { method: Method::Get, path: "/v1/owner/:pub_key", name: "owner_info" });
        routes
    }
}

} // verus!
