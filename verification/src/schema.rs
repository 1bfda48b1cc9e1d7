//! Access to the two stores of a view of the ledger. Nothing is validated
//! here: the rules are those of the transactions.

use vstd::prelude::*;
use crate::crypto::{hex_string, lemma_hex_string_injective, PublicKey};
use crate::ledger::Fork;
use crate::storage::MapIndex;
use crate::structs::{Car, Owner};

verus! {

/// The cars of a view.
pub struct CarsSchema<'a> {
    pub view: &'a mut Fork,
}

impl<'a> CarsSchema<'a> {
    /// The store of cars, keyed by vehicle identification number. What is
    /// done to the store is done to the view; the owners stay as they are.
    pub fn cars(&mut self) -> (cars: &mut MapIndex<Car>)
        ensures
            cars@ == old(self).view@.cars,
            final(self).view@.cars == final(cars)@,
            final(self).view@.owners == old(self).view@.owners,
            *final(final(self).view) == *final(old(self).view),
    {
        &mut self.view.cars
    }

    /// A copy of the car with the given vehicle identification number, if
    /// the view holds one. The view stays as it is.
    pub fn car(&mut self, vin: &str) -> (car: Option<Car>)
        ensures
            car is Some <==> old(self).view@.cars.contains_key(vin@),
            car matches Some(c) ==> c@ == old(self).view@.cars[vin@] && c@.vin == vin@,
            final(self).view@ == old(self).view@,
            *final(final(self).view) == *final(old(self).view),
    {
        self.cars().get(vin)
    }
}

/// The owners of a view.
pub struct OwnersSchema<'a> {
    pub view: &'a mut Fork,
}

impl<'a> OwnersSchema<'a> {
    /// The store of owners, keyed by the hexadecimal text of the public key.
    /// What is done to the store is done to the view; the cars stay as they
    /// are.
    pub fn owners(&mut self) -> (owners: &mut MapIndex<Owner>)
        ensures
            owners@ == old(self).view@.owners,
            final(self).view@.owners == final(owners)@,
            final(self).view@.cars == old(self).view@.cars,
            *final(final(self).view) == *final(old(self).view),
    {
        &mut self.view.owners
    }

    /// A copy of the owner with the given public key, if the view holds one.
    /// The view stays as it is.
    pub fn owner(&mut self, public_key: &PublicKey) -> (owner: Option<Owner>)
        ensures
            owner is Some <==> old(self).view@.owners.contains_key(hex_string(public_key@)),
            owner matches Some(o) ==> o@ == old(self).view@.owners[hex_string(public_key@)]
                && o@.public_key == public_key@,
            final(self).view@ == old(self).view@,
            *final(final(self).view) == *final(old(self).view),
    {
        let key = public_key.to_hex();
        let owner = self.owners().get(key.as_str());
        proof {
            if owner is Some {
                lemma_hex_string_injective(owner->0@.public_key, public_key@);
            }
        }
        owner
    }
}

} // verus!
