//! The state of the ledger: the store of cars and the store of owners, a view
//! of it that transactions work on, and the committed state that such views
//! are taken from.

use vstd::prelude::*;
use crate::storage::{keyed, MapIndex};
use crate::structs::{Car, CarView, Owner, OwnerView};

verus! {

/// What a ledger holds: the cars by vehicle identification number and the
/// owners by the hexadecimal text of their public key. The two stores do not
/// depend on each other: the owner of a car need not be registered.
pub struct LedgerView {
    pub cars: Map<Seq<char>, CarView>,
    pub owners: Map<Seq<char>, OwnerView>,
}

impl LedgerView {
    /// The ledger without any record.
    pub open spec fn empty() -> LedgerView {
        LedgerView { cars: Map::empty(), owners: Map::empty() }
    }

    /// Every record is filed under its own key, and there are finitely many.
    pub open spec fn well_formed(self) -> bool {
        &&& keyed::<Car>(self.cars)
        &&& keyed::<Owner>(self.owners)
        &&& self.cars.dom().finite()
        &&& self.owners.dom().finite()
    }
}

/// A view of the ledger that can be read and written: the state that a
/// transaction is executed against.
pub struct Fork {
    pub cars: MapIndex<Car>,
    pub owners: MapIndex<Owner>,
}

impl View for Fork {
    type V = LedgerView;

    open spec fn view(&self) -> LedgerView {
        LedgerView { cars: self.cars@, owners: self.owners@ }
    }
}

impl Fork {
    /// A view of a ledger without any record.
    pub fn new() -> (fork: Self)
        ensures
            fork@ == LedgerView::empty(),
    {
        Fork { cars: MapIndex::new(), owners: MapIndex::new() }
    }
}

impl Clone for Fork {
    fn clone(&self) -> (fork: Self)
        ensures
            fork@ == self@,
    {
        Fork { cars: self.cars.clone(), owners: self.owners.clone() }
    }
}

/// The committed state of the ledger. Readers and transactions work on views
/// taken from it; a view becomes the committed state when it is merged.
pub struct Blockchain {
    state: Fork,
}

impl View for Blockchain {
    type V = LedgerView;

    closed spec fn view(&self) -> LedgerView {
        self.state@
    }
}

impl Blockchain {
    /// A ledger without any record.
    pub fn new() -> (blockchain: Self)
        ensures
            blockchain@ == LedgerView::empty(),
    {
        Blockchain { state: Fork::new() }
    }

    /// A view of the committed state. Changes to it stay in the view until it
    /// is merged.
    pub fn fork(&self) -> (fork: Fork)
        ensures
            fork@ == self@,
    {
        self.state.clone()
    }

    /// Makes the state of `fork` the committed state.
    pub fn merge(&mut self, fork: Fork)
        ensures
            final(self)@ == fork@,
    {
        self.state = fork;
    }
}

} // verus!
