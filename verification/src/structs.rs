//! The two kinds of record that the ledger keeps: cars and owners.

use vstd::prelude::*;
use vstd::std_specs::cmp::PartialEqSpecImpl;
use crate::crypto::{hex_string, PublicKey};
use crate::storage::Record;

verus! {

/// What a car record holds.
pub struct CarView {
    /// Vehicle identification number: the key of the record.
    pub vin: Seq<char>,
    pub brand: Seq<char>,
    pub model: Seq<char>,
    pub color: Seq<char>,
    pub year: u8,
    pub mileage: u16,
    /// The bytes of the current owner's public key.
    pub owner: Seq<u8>,
}

impl CarView {
    /// The same car in the hands of `new_owner`.
    pub open spec fn change_owner(self, new_owner: Seq<u8>) -> CarView {
        CarView { owner: new_owner, ..self }
    }
}

/// What an owner record holds.
pub struct OwnerView {
    pub name: Seq<char>,
    /// The bytes of the owner's public key: the identity of the record.
    pub public_key: Seq<u8>,
}

/// A car. Once made, a value never changes; `change_owner` makes a new one.
#[derive(Debug)]
pub struct Car {
    vin: String,
    brand: String,
    model: String,
    color: String,
    year: u8,
    mileage: u16,
    owner: PublicKey,
}

impl View for Car {
    type V = CarView;

    closed spec fn view(&self) -> CarView {
        CarView {
            vin: self.vin@,
            brand: self.brand@,
            model: self.model@,
            color: self.color@,
            year: self.year,
            mileage: self.mileage,
            owner: self.owner@,
        }
    }
}

impl Car {
    /// A car with the given fields.
    pub fn new(
        vin: &str,
        brand: &str,
        model: &str,
        color: &str,
        year: u8,
        mileage: u16,
        owner: &PublicKey,
    ) -> (car: Self)
        ensures
            car@ == (CarView {
                vin: vin@,
                brand: brand@,
                model: model@,
                color: color@,
                year,
                mileage,
                owner: owner@,
            }),
    {
        Car {
            vin: vin.to_owned(),
            brand: brand.to_owned(),
            model: model.to_owned(),
            color: color.to_owned(),
            year,
            mileage,
            owner: *owner,
        }
    }

    pub fn vin(&self) -> (vin: &str)
        ensures
            vin@ == self@.vin,
    {
        self.vin.as_str()
    }

    pub fn brand(&self) -> (brand: &str)
        ensures
            brand@ == self@.brand,
    {
        self.brand.as_str()
    }

    pub fn model(&self) -> (model: &str)
        ensures
            model@ == self@.model,
    {
        self.model.as_str()
    }

    pub fn color(&self) -> (color: &str)
        ensures
            color@ == self@.color,
    {
        self.color.as_str()
    }

    pub fn year(&self) -> (year: u8)
        ensures
            year == self@.year,
    {
        self.year
    }

    pub fn mileage(&self) -> (mileage: u16)
        ensures
            mileage == self@.mileage,
    {
        self.mileage
    }

    pub fn owner(&self) -> (owner: &PublicKey)
        ensures
            owner@ == self@.owner,
    {
        &self.owner
    }

    /// The same car in the hands of `new_owner`: every other field is kept.
    pub fn change_owner(self, new_owner: &PublicKey) -> (car: Self)
        ensures
            car@ == self@.change_owner(new_owner@),
    {
        Car {
            vin: self.vin,
            brand: self.brand,
            model: self.model,
            color: self.color,
            year: self.year,
            mileage: self.mileage,
            owner: *new_owner,
        }
    }
}

impl Clone for Car {
    fn clone(&self) -> (car: Self)
        ensures
            car@ == self@,
    {
        Car {
            vin: self.vin.clone(),
            brand: self.brand.clone(),
            model: self.model.clone(),
            color: self.color.clone(),
            year: self.year,
            mileage: self.mileage,
            owner: self.owner,
        }
    }
}

impl Record for Car {
    /// A car is filed under its vehicle identification number.
    open spec fn key_of(content: CarView) -> Seq<char> {
        content.vin
    }

    fn key(&self) -> (key: String) {
        self.vin.clone()
    }

    fn duplicate(&self) -> (copy: Self) {
        self.clone()
    }
}

impl PartialEq for Car {
    fn eq(&self, other: &Car) -> (equal: bool) {
        self.vin == other.vin && self.brand == other.brand && self.model == other.model
            && self.color == other.color && self.year == other.year && self.mileage
            == other.mileage && self.owner == other.owner
    }
}

impl Eq for Car {

}

impl PartialEqSpecImpl for Car {
    open spec fn obeys_eq_spec() -> bool {
        true
    }

    open spec fn eq_spec(&self, other: &Car) -> bool {
        self@ == other@
    }
}

/// An owner. Once made, a value never changes.
#[derive(Debug)]
pub struct Owner {
    name: String,
    public_key: PublicKey,
}

impl View for Owner {
    type V = OwnerView;

    closed spec fn view(&self) -> OwnerView {
        OwnerView { name: self.name@, public_key: self.public_key@ }
    }
}

impl Owner {
    /// An owner with the given fields.
    pub fn new(name: &str, public_key: &PublicKey) -> (owner: Self)
        ensures
            owner@ == (OwnerView { name: name@, public_key: public_key@ }),
    {
        Owner { name: name.to_owned(), public_key: *public_key }
    }

    pub fn name(&self) -> (name: &str)
        ensures
            name@ == self@.name,
    {
        self.name.as_str()
    }

    pub fn public_key(&self) -> (public_key: &PublicKey)
        ensures
            public_key@ == self@.public_key,
    {
        &self.public_key
    }
}

impl Clone for Owner {
    fn clone(&self) -> (owner: Self)
        ensures
            owner@ == self@,
    {
        Owner { name: self.name.clone(), public_key: self.public_key }
    }
}

impl Record for Owner {
    /// An owner is filed under the hexadecimal text of the public key.
    open spec fn key_of(content: OwnerView) -> Seq<char> {
        hex_string(content.public_key)
    }

    fn key(&self) -> (key: String) {
        self.public_key.to_hex()
    }

    fn duplicate(&self) -> (copy: Self) {
        self.clone()
    }
}

impl PartialEq for Owner {
    fn eq(&self, other: &Owner) -> (equal: bool) {
        self.name == other.name && self.public_key == other.public_key
    }
}

impl Eq for Owner {

}

impl PartialEqSpecImpl for Owner {
    open spec fn obeys_eq_spec() -> bool {
        true
    }

    open spec fn eq_spec(&self, other: &Owner) -> bool {
        self@ == other@
    }
}

} // verus!
