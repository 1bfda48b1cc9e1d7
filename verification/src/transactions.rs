//! The three transactions and what each does to the ledger.
//!
//! A transaction names the key that has to have signed it. The host checks
//! the signature; a transaction whose signature does not hold under that key
//! is rejected and changes nothing. Executing never fails: a car that is
//! there already is not produced again, a car that is not there changes no
//! hands, an owner that is there already is not registered again.
//!
//! Two things are left open on purpose. A transaction that hands a car over
//! has to be signed with the key that it names as the one handing over; that
//! this key is the owner on record is not asked. And no transaction asks
//! whether the owner of a car is registered.

use vstd::prelude::*;
use vstd::std_specs::cmp::PartialEqSpecImpl;
use crate::consts::{TX_CHANGE_CAR_OWNER_ID, TX_PRODUCE_CAR_ID, TX_REGISTER_OWNER_ID};
use crate::crypto::{hex_string, PublicKey, SignatureCheck};
use crate::ledger::{Fork, LedgerView};
use crate::schema::{CarsSchema, OwnersSchema};
use crate::structs::{Car, CarView, Owner, OwnerView};

verus! {

/// What became of a transaction.
#[derive(Clone, Copy, Debug, PartialEq, Eq, Structural)]
pub enum Status {
    /// The signature did not hold: the ledger is as it was.
    Rejected,
    /// The ledger was changed.
    Applied,
    /// There was nothing to do: the ledger is as it was.
    Skipped,
}

/// What a transaction that produces a car holds.
pub struct TxProduceCarView {
    pub vin: Seq<char>,
    pub brand: Seq<char>,
    pub model: Seq<char>,
    pub color: Seq<char>,
    pub year: u8,
    pub mileage: u16,
    /// The key of the factory: the signer, and the first owner of the car.
    pub factory_pub_key: Seq<u8>,
}

impl TxProduceCarView {
    /// The car that the transaction describes, in the hands of the factory.
    pub open spec fn car(self) -> CarView {
        CarView {
            vin: self.vin,
            brand: self.brand,
            model: self.model,
            color: self.color,
            year: self.year,
            mileage: self.mileage,
            owner: self.factory_pub_key,
        }
    }

    /// The signature was checked against the key of the factory, and holds.
    pub open spec fn authorized(self, check: SignatureCheck) -> bool {
        check.valid && check.public_key@ == self.factory_pub_key
    }

    /// The ledger holds no car with this identification number yet.
    pub open spec fn applies(self, ledger: LedgerView) -> bool {
        !ledger.cars.contains_key(self.vin)
    }

    /// The ledger after the transaction: with the new car, unless a car with
    /// this identification number was there already.
    pub open spec fn execute(self, ledger: LedgerView) -> LedgerView {
        if self.applies(ledger) {
            LedgerView { cars: ledger.cars.insert(self.vin, self.car()), ..ledger }
        } else {
            ledger
        }
    }
}

/// What a transaction that hands a car to a new owner holds.
pub struct TxChangeCarOwnerView {
    /// The key of the one who hands the car over: the signer.
    pub owner_pub_key: Seq<u8>,
    pub new_owner_pub_key: Seq<u8>,
    pub vin: Seq<char>,
    /// Tells apart transactions that are otherwise alike.
    pub seed: u64,
}

impl TxChangeCarOwnerView {
    /// The signature was checked against the key of the one who hands the car
    /// over, and holds. Whether that key is the car's recorded owner is not
    /// asked.
    pub open spec fn authorized(self, check: SignatureCheck) -> bool {
        check.valid && check.public_key@ == self.owner_pub_key
    }

    /// The ledger holds a car with this identification number.
    pub open spec fn applies(self, ledger: LedgerView) -> bool {
        ledger.cars.contains_key(self.vin)
    }

    /// The ledger after the transaction: the car, if it is there, in the
    /// hands of the new owner.
    pub open spec fn execute(self, ledger: LedgerView) -> LedgerView {
        if self.applies(ledger) {
            LedgerView {
                cars: ledger.cars.insert(
                    self.vin,
                    ledger.cars[self.vin].change_owner(self.new_owner_pub_key),
                ),
                ..ledger
            }
        } else {
            ledger
        }
    }
}

/// What a transaction that registers an owner holds.
pub struct TxRegisterOwnerView {
    pub name: Seq<char>,
    /// The key of the owner: the signer, and the identity of the record.
    pub pub_key: Seq<u8>,
}

impl TxRegisterOwnerView {
    /// The owner that the transaction describes.
    pub open spec fn owner(self) -> OwnerView {
        OwnerView { name: self.name, public_key: self.pub_key }
    }

    /// The signature was checked against the key of the owner, and holds.
    pub open spec fn authorized(self, check: SignatureCheck) -> bool {
        check.valid && check.public_key@ == self.pub_key
    }

    /// The ledger holds no owner with this key yet.
    pub open spec fn applies(self, ledger: LedgerView) -> bool {
        !ledger.owners.contains_key(hex_string(self.pub_key))
    }

    /// The ledger after the transaction: with the new owner, unless an owner
    /// with this key was there already.
    pub open spec fn execute(self, ledger: LedgerView) -> LedgerView {
        if self.applies(ledger) {
            LedgerView {
                owners: ledger.owners.insert(hex_string(self.pub_key), self.owner()),
                ..ledger
            }
        } else {
            ledger
        }
    }
}

/// What a transaction of any of the three kinds holds.
pub enum TransactionView {
    ProduceCar(TxProduceCarView),
    ChangeCarOwner(TxChangeCarOwnerView),
    RegisterOwner(TxRegisterOwnerView),
}

impl TransactionView {
    /// The key that has to have signed the transaction.
    pub open spec fn signer(self) -> Seq<u8> {
        match self {
            TransactionView::ProduceCar(tx) => tx.factory_pub_key,
            TransactionView::ChangeCarOwner(tx) => tx.owner_pub_key,
            TransactionView::RegisterOwner(tx) => tx.pub_key,
        }
    }

    /// The signature was checked against the signer's key, and holds.
    pub open spec fn authorized(self, check: SignatureCheck) -> bool {
        check.valid && check.public_key@ == self.signer()
    }

    /// The key of the one record that the transaction is about: a car's
    /// vehicle identification number, or the hexadecimal text of an owner's
    /// public key.
    pub open spec fn key(self) -> Seq<char> {
        match self {
            TransactionView::ProduceCar(tx) => tx.vin,
            TransactionView::ChangeCarOwner(tx) => tx.vin,
            TransactionView::RegisterOwner(tx) => hex_string(tx.pub_key),
        }
    }

    /// What the transaction reads of a ledger: the one record that it is
    /// about, if the ledger holds it, and nothing else.
    pub open spec fn reads(self, ledger: LedgerView) -> LedgerView {
        match self {
            TransactionView::RegisterOwner(_) => LedgerView {
                cars: Map::empty(),
                owners: ledger.owners.restrict(set![self.key()]),
            },
            _ => LedgerView {
                cars: ledger.cars.restrict(set![self.key()]),
                owners: Map::empty(),
            },
        }
    }

    /// Executing the transaction changes the ledger.
    pub open spec fn applies(self, ledger: LedgerView) -> bool {
        match self {
            TransactionView::ProduceCar(tx) => tx.applies(ledger),
            TransactionView::ChangeCarOwner(tx) => tx.applies(ledger),
            TransactionView::RegisterOwner(tx) => tx.applies(ledger),
        }
    }

    /// The ledger after the transaction was executed.
    pub open spec fn execute(self, ledger: LedgerView) -> LedgerView {
        match self {
            TransactionView::ProduceCar(tx) => tx.execute(ledger),
            TransactionView::ChangeCarOwner(tx) => tx.execute(ledger),
            TransactionView::RegisterOwner(tx) => tx.execute(ledger),
        }
    }

    /// What becomes of the transaction, given the host's check of its
    /// signature.
    pub open spec fn status(self, check: SignatureCheck, ledger: LedgerView) -> Status {
        if !self.authorized(check) {
            Status::Rejected
        } else if self.applies(ledger) {
            Status::Applied
        } else {
            Status::Skipped
        }
    }

    /// The ledger after the transaction was received: executed if the
    /// signature holds, and left alone if not.
    pub open spec fn process(self, check: SignatureCheck, ledger: LedgerView) -> LedgerView {
        if self.authorized(check) {
            self.execute(ledger)
        } else {
            ledger
        }
    }
}

/// Producing a car under an identification number that is free files the car
/// as described, in the hands of the factory; producing once more under that
/// number, whatever the other fields say, changes nothing.
pub proof fn lemma_produce_car_idempotent(
    ledger: LedgerView,
    first: TxProduceCarView,
    second: TxProduceCarView,
)
    requires
        first.vin == second.vin,
    ensures
        second.execute(first.execute(ledger)) == first.execute(ledger),
        first.applies(ledger) ==> first.execute(ledger).cars == ledger.cars.insert(
            first.vin,
            first.car(),
        ),
        first.applies(ledger) ==> first.execute(ledger).cars[first.vin] == first.car(),
        first.applies(ledger) && ledger.well_formed() ==> second.execute(
            first.execute(ledger),
        ).cars.dom().len() == ledger.cars.dom().len() + 1,
        first.execute(ledger).owners == ledger.owners,
{
}

/// Registering an owner under a key that is free files the owner as
/// described; registering once more under that key, whatever the name,
/// changes nothing.
pub proof fn lemma_register_owner_idempotent(
    ledger: LedgerView,
    first: TxRegisterOwnerView,
    second: TxRegisterOwnerView,
)
    requires
        first.pub_key == second.pub_key,
    ensures
        second.execute(first.execute(ledger)) == first.execute(ledger),
        first.applies(ledger) ==> first.execute(ledger).owners == ledger.owners.insert(
            hex_string(first.pub_key),
            first.owner(),
        ),
        first.applies(ledger) ==> first.execute(ledger).owners[hex_string(first.pub_key)]
            == first.owner(),
        first.applies(ledger) && ledger.well_formed() ==> second.execute(
            first.execute(ledger),
        ).owners.dom().len() == ledger.owners.dom().len() + 1,
        first.execute(ledger).cars == ledger.cars,
{
}

/// Handing over a car that is there puts it into the hands of the new owner
/// and changes nothing else about it, nor any other record; handing it over
/// once more puts it into the hands of the second new owner.
pub proof fn lemma_change_car_owner_transfers(
    ledger: LedgerView,
    first: TxChangeCarOwnerView,
    second: TxChangeCarOwnerView,
)
    requires
        ledger.cars.contains_key(first.vin),
        first.vin == second.vin,
    ensures
        first.execute(ledger).cars[first.vin] == (CarView {
            owner: first.new_owner_pub_key,
            ..ledger.cars[first.vin]
        }),
        first.execute(ledger).cars == ledger.cars.insert(
            first.vin,
            first.execute(ledger).cars[first.vin],
        ),
        first.execute(ledger).owners == ledger.owners,
        second.execute(first.execute(ledger)).cars[first.vin] == (CarView {
            owner: second.new_owner_pub_key,
            ..ledger.cars[first.vin]
        }),
{
}

/// Handing over a car that is not there changes nothing: no record is made.
pub proof fn lemma_change_car_owner_absent(ledger: LedgerView, tx: TxChangeCarOwnerView)
    requires
        !ledger.cars.contains_key(tx.vin),
    ensures
        tx.execute(ledger) == ledger,
{
}

/// A transaction whose signature does not hold under the key that it names
/// leaves the ledger as it was, whatever it asks for.
pub proof fn lemma_unauthorized_changes_nothing(
    ledger: LedgerView,
    tx: TransactionView,
    check: SignatureCheck,
)
    requires
        !check.valid || check.public_key@ != tx.signer(),
    ensures
        tx.process(check, ledger) == ledger,
        tx.status(check, ledger) == Status::Rejected,
{
}

/// After a car was produced under a free identification number, the ledger
/// holds it under that number with the factory as its owner, and holds under
/// every other number what it held before.
pub proof fn lemma_produced_car_is_read(ledger: LedgerView, tx: TxProduceCarView, vin: Seq<char>)
    requires
        tx.applies(ledger),
    ensures
        tx.execute(ledger).cars.contains_key(tx.vin),
        tx.execute(ledger).cars[tx.vin].owner == tx.factory_pub_key,
        vin != tx.vin ==> tx.execute(ledger).cars.contains_key(vin) == ledger.cars.contains_key(
            vin,
        ),
        vin != tx.vin && ledger.cars.contains_key(vin) ==> tx.execute(ledger).cars[vin]
            == ledger.cars[vin],
        vin != tx.vin && ledger == LedgerView::empty() ==> !tx.execute(ledger).cars.contains_key(
            vin,
        ),
{
}

/// What a transaction does is decided by the one record that it is about,
/// and is done to that record only. So a host that keeps the ledger elsewhere
/// may execute a transaction against that record alone and write the record
/// back.
pub proof fn lemma_execute_is_local(ledger: LedgerView, tx: TransactionView)
    ensures
        tx.applies(ledger) == tx.applies(tx.reads(ledger)),
        !tx.applies(ledger) ==> tx.execute(ledger) == ledger,
        tx.applies(ledger) && tx is RegisterOwner ==> tx.execute(ledger) == (LedgerView {
            owners: ledger.owners.insert(tx.key(), tx.execute(tx.reads(ledger)).owners[tx.key()]),
            ..ledger
        }),
        tx.applies(ledger) && !(tx is RegisterOwner) ==> tx.execute(ledger) == (LedgerView {
            cars: ledger.cars.insert(tx.key(), tx.execute(tx.reads(ledger)).cars[tx.key()]),
            ..ledger
        }),
{
}

/// No transaction takes a record away, renames a car or touches anything of
/// a car but its owner, and none changes an owner that is registered.
pub proof fn lemma_records_stay(ledger: LedgerView, tx: TransactionView, key: Seq<char>)
    ensures
        ledger.cars.contains_key(key) ==> tx.execute(ledger).cars.contains_key(key),
        ledger.cars.contains_key(key) ==> tx.execute(ledger).cars[key] == (CarView {
            owner: tx.execute(ledger).cars[key].owner,
            ..ledger.cars[key]
        }),
        ledger.owners.contains_key(key) ==> tx.execute(ledger).owners.contains_key(key),
        ledger.owners.contains_key(key) ==> tx.execute(ledger).owners[key] == ledger.owners[key],
{
}

/// Every transaction keeps the ledger well formed: each record under its own
/// key, finitely many of them.
pub proof fn lemma_execute_keeps_well_formed(ledger: LedgerView, tx: TransactionView)
    requires
        ledger.well_formed(),
    ensures
        tx.execute(ledger).well_formed(),
{
}

/// A transaction by which a factory produces a car.
#[derive(Debug)]
pub struct TxProduceCar {
    vin: String,
    brand: String,
    model: String,
    color: String,
    year: u8,
    mileage: u16,
    factory_pub_key: PublicKey,
}

impl View for TxProduceCar {
    type V = TxProduceCarView;

    closed spec fn view(&self) -> TxProduceCarView {
        TxProduceCarView {
            vin: self.vin@,
            brand: self.brand@,
            model: self.model@,
            color: self.color@,
            year: self.year,
            mileage: self.mileage,
            factory_pub_key: self.factory_pub_key@,
        }
    }
}

impl TxProduceCar {
    /// A transaction with the given fields.
    pub fn new(
        vin: &str,
        brand: &str,
        model: &str,
        color: &str,
        year: u8,
        mileage: u16,
        factory_pub_key: &PublicKey,
    ) -> (tx: Self)
        ensures
            tx@ == (TxProduceCarView {
                vin: vin@,
                brand: brand@,
                model: model@,
                color: color@,
                year,
                mileage,
                factory_pub_key: factory_pub_key@,
            }),
    {
        TxProduceCar {
            vin: vin.to_owned(),
            brand: brand.to_owned(),
            model: model.to_owned(),
            color: color.to_owned(),
            year,
            mileage,
            factory_pub_key: *factory_pub_key,
        }
    }

    pub fn vin(&self) -> (vin: &str)
        ensures
            vin@ == self@.vin,
    {
        self.vin.as_str()
    }

    pub fn brand(&self) -> (brand: &str)
        ensures
            brand@ == self@.brand,
    {
        self.brand.as_str()
    }

    pub fn model(&self) -> (model: &str)
        ensures
            model@ == self@.model,
    {
        self.model.as_str()
    }

    pub fn color(&self) -> (color: &str)
        ensures
            color@ == self@.color,
    {
        self.color.as_str()
    }

    pub fn year(&self) -> (year: u8)
        ensures
            year == self@.year,
    {
        self.year
    }

    pub fn mileage(&self) -> (mileage: u16)
        ensures
            mileage == self@.mileage,
    {
        self.mileage
    }

    pub fn factory_pub_key(&self) -> (key: &PublicKey)
        ensures
            key@ == self@.factory_pub_key,
    {
        &self.factory_pub_key
    }

    /// Whether the host's check of the signature lets the transaction pass:
    /// it was made against the key of the factory, and the signature holds.
    pub fn verify(&self, check: &SignatureCheck) -> (ok: bool)
        ensures
            ok == self@.authorized(*check),
    {
        check.valid && check.public_key == self.factory_pub_key
    }

    /// Files the car in the hands of the factory, unless the view holds a car
    /// with this identification number already.
    pub fn execute(&self, view: &mut Fork) -> (status: Status)
        ensures
            final(view)@ == self@.execute(old(view)@),
            status == if self@.applies(old(view)@) {
                Status::Applied
            } else {
                Status::Skipped
            },
    {
        let mut schema = CarsSchema { view };
        let vin = self.vin();
        if schema.car(vin).is_none() {
            let car = Car::new(
                self.vin(),
                self.brand(),
                self.model(),
                self.color(),
                self.year(),
                self.mileage(),
                self.factory_pub_key(),
            );
            schema.cars().put(car);
            Status::Applied
        } else {
            Status::Skipped
        }
    }
}

impl Clone for TxProduceCar {
    fn clone(&self) -> (tx: Self)
        ensures
            tx@ == self@,
    {
        TxProduceCar {
            vin: self.vin.clone(),
            brand: self.brand.clone(),
            model: self.model.clone(),
            color: self.color.clone(),
            year: self.year,
            mileage: self.mileage,
            factory_pub_key: self.factory_pub_key,
        }
    }
}

impl PartialEq for TxProduceCar {
    fn eq(&self, other: &TxProduceCar) -> (equal: bool) {
        self.vin == other.vin && self.brand == other.brand && self.model == other.model
            && self.color == other.color && self.year == other.year && self.mileage
            == other.mileage && self.factory_pub_key == other.factory_pub_key
    }
}

impl Eq for TxProduceCar {

}

impl PartialEqSpecImpl for TxProduceCar {
    open spec fn obeys_eq_spec() -> bool {
        true
    }

    open spec fn eq_spec(&self, other: &TxProduceCar) -> bool {
        self@ == other@
    }
}

/// A transaction by which a car is handed to a new owner.
#[derive(Debug)]
pub struct TxChangeCarOwner {
    owner_pub_key: PublicKey,
    new_owner_pub_key: PublicKey,
    vin: String,
    seed: u64,
}

impl View for TxChangeCarOwner {
    type V = TxChangeCarOwnerView;

    closed spec fn view(&self) -> TxChangeCarOwnerView {
        TxChangeCarOwnerView {
            owner_pub_key: self.owner_pub_key@,
            new_owner_pub_key: self.new_owner_pub_key@,
            vin: self.vin@,
            seed: self.seed,
        }
    }
}

impl TxChangeCarOwner {
    /// A transaction with the given fields.
    pub fn new(
        owner_pub_key: &PublicKey,
        new_owner_pub_key: &PublicKey,
        vin: &str,
        seed: u64,
    ) -> (tx: Self)
        ensures
            tx@ == (TxChangeCarOwnerView {
                owner_pub_key: owner_pub_key@,
                new_owner_pub_key: new_owner_pub_key@,
                vin: vin@,
                seed,
            }),
    {
        TxChangeCarOwner {
            owner_pub_key: *owner_pub_key,
            new_owner_pub_key: *new_owner_pub_key,
            vin: vin.to_owned(),
            seed,
        }
    }

    pub fn owner_pub_key(&self) -> (key: &PublicKey)
        ensures
            key@ == self@.owner_pub_key,
    {
        &self.owner_pub_key
    }

    pub fn new_owner_pub_key(&self) -> (key: &PublicKey)
        ensures
            key@ == self@.new_owner_pub_key,
    {
        &self.new_owner_pub_key
    }

    pub fn vin(&self) -> (vin: &str)
        ensures
            vin@ == self@.vin,
    {
        self.vin.as_str()
    }

    pub fn seed(&self) -> (seed: u64)
        ensures
            seed == self@.seed,
    {
        self.seed
    }

    /// Whether the host's check of the signature lets the transaction pass:
    /// it was made against the key of the one who hands the car over, and the
    /// signature holds.
    pub fn verify(&self, check: &SignatureCheck) -> (ok: bool)
        ensures
            ok == self@.authorized(*check),
    {
        check.valid && check.public_key == self.owner_pub_key
    }

    /// Puts the car into the hands of the new owner, if the view holds a car
    /// with this identification number.
    pub fn execute(&self, view: &mut Fork) -> (status: Status)
        ensures
            final(view)@ == self@.execute(old(view)@),
            status == if self@.applies(old(view)@) {
                Status::Applied
            } else {
                Status::Skipped
            },
    {
        let mut schema = CarsSchema { view };
        let vin = self.vin();
        let car = schema.car(vin);
        if car.is_some() {
            schema.cars().put(car.unwrap().change_owner(self.new_owner_pub_key()));
            Status::Applied
        } else {
            Status::Skipped
        }
    }
}

impl Clone for TxChangeCarOwner {
    fn clone(&self) -> (tx: Self)
        ensures
            tx@ == self@,
    {
        TxChangeCarOwner {
            owner_pub_key: self.owner_pub_key,
            new_owner_pub_key: self.new_owner_pub_key,
            vin: self.vin.clone(),
            seed: self.seed,
        }
    }
}

impl PartialEq for TxChangeCarOwner {
    fn eq(&self, other: &TxChangeCarOwner) -> (equal: bool) {
        self.owner_pub_key == other.owner_pub_key && self.new_owner_pub_key
            == other.new_owner_pub_key && self.vin == other.vin && self.seed == other.seed
    }
}

impl Eq for TxChangeCarOwner {

}

impl PartialEqSpecImpl for TxChangeCarOwner {
    open spec fn obeys_eq_spec() -> bool {
        true
    }

    open spec fn eq_spec(&self, other: &TxChangeCarOwner) -> bool {
        self@ == other@
    }
}

/// A transaction by which an owner registers.
#[derive(Debug)]
pub struct TxRegisterOwner {
    name: String,
    pub_key: PublicKey,
}

impl View for TxRegisterOwner {
    type V = TxRegisterOwnerView;

    closed spec fn view(&self) -> TxRegisterOwnerView {
        TxRegisterOwnerView { name: self.name@, pub_key: self.pub_key@ }
    }
}

impl TxRegisterOwner {
    /// A transaction with the given fields.
    pub fn new(name: &str, pub_key: &PublicKey) -> (tx: Self)
        ensures
            tx@ == (TxRegisterOwnerView { name: name@, pub_key: pub_key@ }),
    {
        TxRegisterOwner { name: name.to_owned(), pub_key: *pub_key }
    }

    pub fn name(&self) -> (name: &str)
        ensures
            name@ == self@.name,
    {
        self.name.as_str()
    }

    pub fn pub_key(&self) -> (key: &PublicKey)
        ensures
            key@ == self@.pub_key,
    {
        &self.pub_key
    }

    /// Whether the host's check of the signature lets the transaction pass:
    /// it was made against the key of the owner, and the signature holds.
    pub fn verify(&self, check: &SignatureCheck) -> (ok: bool)
        ensures
            ok == self@.authorized(*check),
    {
        check.valid && check.public_key == self.pub_key
    }

    /// Files the owner, unless the view holds an owner with this key already.
    pub fn execute(&self, view: &mut Fork) -> (status: Status)
        ensures
            final(view)@ == self@.execute(old(view)@),
            status == if self@.applies(old(view)@) {
                Status::Applied
            } else {
                Status::Skipped
            },
    {
        let mut schema = OwnersSchema { view };
        let pub_key = self.pub_key();
        if schema.owner(pub_key).is_none() {
            let owner = Owner::new(self.name(), self.pub_key());
            schema.owners().put(owner);
            Status::Applied
        } else {
            Status::Skipped
        }
    }
}

impl Clone for TxRegisterOwner {
    fn clone(&self) -> (tx: Self)
        ensures
            tx@ == self@,
    {
        TxRegisterOwner {
            name: self.name.clone(),
            pub_key: self.pub_key,
        }
    }
}

impl PartialEq for TxRegisterOwner {
    fn eq(&self, other: &TxRegisterOwner) -> (equal: bool) {
        self.name == other.name && self.pub_key == other.pub_key
    }
}

impl Eq for TxRegisterOwner {

}

impl PartialEqSpecImpl for TxRegisterOwner {
    open spec fn obeys_eq_spec() -> bool {
        true
    }

    open spec fn eq_spec(&self, other: &TxRegisterOwner) -> bool {
        self@ == other@
    }
}

/// A transaction of any of the three kinds.
#[derive(Debug)]
pub enum Transaction {
    ProduceCar(TxProduceCar),
    ChangeCarOwner(TxChangeCarOwner),
    RegisterOwner(TxRegisterOwner),
}

impl View for Transaction {
    type V = TransactionView;

    open spec fn view(&self) -> TransactionView {
        match self {
            Transaction::ProduceCar(tx) => TransactionView::ProduceCar(tx@),
            Transaction::ChangeCarOwner(tx) => TransactionView::ChangeCarOwner(tx@),
            Transaction::RegisterOwner(tx) => TransactionView::RegisterOwner(tx@),
        }
    }
}

impl Clone for Transaction {
    fn clone(&self) -> (tx: Self)
        ensures
            tx@ == self@,
    {
        match self {
            Transaction::ProduceCar(tx) => Transaction::ProduceCar(tx.clone()),
            Transaction::ChangeCarOwner(tx) => Transaction::ChangeCarOwner(tx.clone()),
            Transaction::RegisterOwner(tx) => Transaction::RegisterOwner(tx.clone()),
        }
    }
}

impl PartialEq for Transaction {
    fn eq(&self, other: &Transaction) -> (equal: bool) {
        match (self, other) {
            (Transaction::ProduceCar(a), Transaction::ProduceCar(b)) => a == b,
            (Transaction::ChangeCarOwner(a), Transaction::ChangeCarOwner(b)) => a == b,
            (Transaction::RegisterOwner(a), Transaction::RegisterOwner(b)) => a == b,
            _ => false,
        }
    }
}

impl Eq for Transaction {

}

impl PartialEqSpecImpl for Transaction {
    open spec fn obeys_eq_spec() -> bool {
        true
    }

    open spec fn eq_spec(&self, other: &Transaction) -> bool {
        self@ == other@
    }
}

/// The message type under which the host carries a transaction of the given
/// content.
pub open spec fn message_type_of(tx: TransactionView) -> u16 {
    match tx {
        TransactionView::ProduceCar(_) => TX_PRODUCE_CAR_ID,
        TransactionView::ChangeCarOwner(_) => TX_CHANGE_CAR_OWNER_ID,
        TransactionView::RegisterOwner(_) => TX_REGISTER_OWNER_ID,
    }
}

impl Transaction {
    /// The message type under which the host carries the transaction.
    pub fn message_type(&self) -> (id: u16)
        ensures
            id == message_type_of(self@),
    {
        match self {
            Transaction::ProduceCar(_) => TX_PRODUCE_CAR_ID,
            Transaction::ChangeCarOwner(_) => TX_CHANGE_CAR_OWNER_ID,
            Transaction::RegisterOwner(_) => TX_REGISTER_OWNER_ID,
        }
    }

    /// The key that has to have signed the transaction: the one that the
    /// host is to check the signature against.
    pub fn signer(&self) -> (key: &PublicKey)
        ensures
            key@ == self@.signer(),
    {
        match self {
            Transaction::ProduceCar(tx) => tx.factory_pub_key(),
            Transaction::ChangeCarOwner(tx) => tx.owner_pub_key(),
            Transaction::RegisterOwner(tx) => tx.pub_key(),
        }
    }

    /// Whether the host's check of the signature lets the transaction pass.
    pub fn verify(&self, check: &SignatureCheck) -> (ok: bool)
        ensures
            ok == self@.authorized(*check),
    {
        match self {
            Transaction::ProduceCar(tx) => tx.verify(check),
            Transaction::ChangeCarOwner(tx) => tx.verify(check),
            Transaction::RegisterOwner(tx) => tx.verify(check),
        }
    }

    /// Executes the transaction against the view.
    pub fn execute(&self, view: &mut Fork) -> (status: Status)
        ensures
            final(view)@ == self@.execute(old(view)@),
            status == if self@.applies(old(view)@) {
                Status::Applied
            } else {
                Status::Skipped
            },
    {
        match self {
            Transaction::ProduceCar(tx) => tx.execute(view),
            Transaction::ChangeCarOwner(tx) => tx.execute(view),
            Transaction::RegisterOwner(tx) => tx.execute(view),
        }
    }

    /// Takes a transaction from receipt to its end: rejects it if the
    /// signature does not hold under the signer's key, and executes it
    /// against the view if it does.
    pub fn process(&self, check: &SignatureCheck, view: &mut Fork) -> (status: Status)
        ensures
            final(view)@ == self@.process(*check, old(view)@),
            status == self@.status(*check, old(view)@),
            !self@.authorized(*check) ==> final(view)@ == old(view)@ && status
                == Status::Rejected,
    {
        if self.verify(check) {
            self.execute(view)
        } else {
            Status::Rejected
        }
    }
}

} // verus!
