use car_story_service::consts::{
    CARS_SERVICE_ID, CARS_SERVICE_NAME, TX_CHANGE_CAR_OWNER_ID, TX_PRODUCE_CAR_ID,
    TX_REGISTER_OWNER_ID,
};
use car_story_service::crypto::{PublicKey, SignatureCheck, PUBLIC_KEY_LENGTH};
use car_story_service::ledger::{Blockchain, Fork};
use car_story_service::schema::{CarsSchema, OwnersSchema};
use car_story_service::service::{CarsService, Error, TransactionKind};
use car_story_service::structs::{Car, Owner};
use car_story_service::transactions::{
    Status, Transaction, TxChangeCarOwner, TxProduceCar, TxRegisterOwner,
};

fn pk(byte: u8) -> PublicKey {
    PublicKey::new([byte; PUBLIC_KEY_LENGTH])
}

fn signed_by(public_key: &PublicKey) -> SignatureCheck {
    SignatureCheck { public_key: *public_key, valid: true }
}

fn forged_for(public_key: &PublicKey) -> SignatureCheck {
    SignatureCheck { public_key: *public_key, valid: false }
}

fn cars_of(fork: &Fork) -> Vec<Car> {
    fork.cars.values()
}

fn owners_of(fork: &Fork) -> Vec<Owner> {
    fork.owners.values()
}

#[test]
fn produce_car_files_the_car_with_the_factory_as_owner() {
    let factory = pk(1);
    let mut fork = Fork::new();
    let tx = TxProduceCar::new("VIN1", "Acme", "Roadster", "red", 17, 42_000, &factory);
    assert_eq!(tx.execute(&mut fork), Status::Applied);
    assert_eq!(
        cars_of(&fork),
        vec![Car::new("VIN1", "Acme", "Roadster", "red", 17, 42_000, &factory)]
    );
    assert!(owners_of(&fork).is_empty());
}

#[test]
fn produce_car_twice_keeps_the_first_car() {
    let factory = pk(1);
    let other = pk(2);
    let mut fork = Fork::new();
    let first = TxProduceCar::new("VIN1", "Acme", "Roadster", "red", 17, 42_000, &factory);
    let second = TxProduceCar::new("VIN1", "Apex", "Coupe", "blue", 18, 7, &other);
    assert_eq!(first.execute(&mut fork), Status::Applied);
    assert_eq!(second.execute(&mut fork), Status::Skipped);
    assert_eq!(first.execute(&mut fork), Status::Skipped);
    assert_eq!(
        cars_of(&fork),
        vec![Car::new("VIN1", "Acme", "Roadster", "red", 17, 42_000, &factory)]
    );
}

#[test]
fn produce_car_under_another_vin_adds_a_car() {
    let factory = pk(1);
    let mut fork = Fork::new();
    let first = TxProduceCar::new("VIN2", "Acme", "Roadster", "red", 17, 42_000, &factory);
    let second = TxProduceCar::new("VIN1", "Acme", "Roadster", "red", 17, 42_000, &factory);
    assert_eq!(first.execute(&mut fork), Status::Applied);
    assert_eq!(second.execute(&mut fork), Status::Applied);
    assert_eq!(
        cars_of(&fork),
        vec![
            Car::new("VIN1", "Acme", "Roadster", "red", 17, 42_000, &factory),
            Car::new("VIN2", "Acme", "Roadster", "red", 17, 42_000, &factory),
        ]
    );
}

#[test]
fn register_owner_files_the_owner() {
    let key = pk(7);
    let mut fork = Fork::new();
    let tx = TxRegisterOwner::new("Alice", &key);
    assert_eq!(tx.execute(&mut fork), Status::Applied);
    assert_eq!(owners_of(&fork), vec![Owner::new("Alice", &key)]);
    assert!(cars_of(&fork).is_empty());
    let mut schema = OwnersSchema { view: &mut fork };
    assert_eq!(schema.owner(&key), Some(Owner::new("Alice", &key)));
}

#[test]
fn register_owner_twice_keeps_the_first_name() {
    let key = pk(7);
    let mut fork = Fork::new();
    assert_eq!(TxRegisterOwner::new("Alice", &key).execute(&mut fork), Status::Applied);
    assert_eq!(TxRegisterOwner::new("Mallory", &key).execute(&mut fork), Status::Skipped);
    assert_eq!(TxRegisterOwner::new("Alice", &key).execute(&mut fork), Status::Skipped);
    assert_eq!(owners_of(&fork), vec![Owner::new("Alice", &key)]);
}

#[test]
fn register_owner_under_another_key_adds_an_owner() {
    let mut fork = Fork::new();
    assert_eq!(TxRegisterOwner::new("Bob", &pk(9)).execute(&mut fork), Status::Applied);
    assert_eq!(TxRegisterOwner::new("Bob", &pk(8)).execute(&mut fork), Status::Applied);
    assert_eq!(
        owners_of(&fork),
        vec![Owner::new("Bob", &pk(8)), Owner::new("Bob", &pk(9))]
    );
}

#[test]
fn change_owner_hands_the_car_over_and_over_again() {
    let k1 = pk(1);
    let k2 = pk(2);
    let k3 = pk(3);
    let mut fork = Fork::new();
    fork.cars.put(Car::new("VIN1", "Acme", "Roadster", "red", 17, 42_000, &k1));
    let tx = TxChangeCarOwner::new(&k1, &k2, "VIN1", 0);
    assert_eq!(tx.execute(&mut fork), Status::Applied);
    assert_eq!(
        cars_of(&fork),
        vec![Car::new("VIN1", "Acme", "Roadster", "red", 17, 42_000, &k2)]
    );
    let tx = TxChangeCarOwner::new(&k2, &k3, "VIN1", 1);
    assert_eq!(tx.execute(&mut fork), Status::Applied);
    assert_eq!(
        cars_of(&fork),
        vec![Car::new("VIN1", "Acme", "Roadster", "red", 17, 42_000, &k3)]
    );
}

#[test]
fn change_owner_leaves_the_other_cars_alone() {
    let k1 = pk(1);
    let k2 = pk(2);
    let mut fork = Fork::new();
    fork.cars.put(Car::new("VIN1", "Acme", "Roadster", "red", 17, 42_000, &k1));
    fork.cars.put(Car::new("VIN2", "Apex", "Coupe", "blue", 18, 7, &k1));
    fork.owners.put(Owner::new("Alice", &k1));
    assert_eq!(TxChangeCarOwner::new(&k1, &k2, "VIN2", 0).execute(&mut fork), Status::Applied);
    assert_eq!(
        cars_of(&fork),
        vec![
            Car::new("VIN1", "Acme", "Roadster", "red", 17, 42_000, &k1),
            Car::new("VIN2", "Apex", "Coupe", "blue", 18, 7, &k2),
        ]
    );
    assert_eq!(owners_of(&fork), vec![Owner::new("Alice", &k1)]);
}

#[test]
fn change_owner_of_a_missing_car_makes_no_record() {
    let k1 = pk(1);
    let k2 = pk(2);
    let mut fork = Fork::new();
    assert_eq!(TxChangeCarOwner::new(&k1, &k2, "VIN1", 0).execute(&mut fork), Status::Skipped);
    assert!(cars_of(&fork).is_empty());
    assert!(owners_of(&fork).is_empty());
    fork.cars.put(Car::new("VIN2", "Apex", "Coupe", "blue", 18, 7, &k1));
    assert_eq!(TxChangeCarOwner::new(&k1, &k2, "VIN1", 0).execute(&mut fork), Status::Skipped);
    assert_eq!(cars_of(&fork), vec![Car::new("VIN2", "Apex", "Coupe", "blue", 18, 7, &k1)]);
}

#[test]
fn change_owner_does_not_ask_who_owns_the_car() {
    let owner = pk(1);
    let stranger = pk(5);
    let mut fork = Fork::new();
    fork.cars.put(Car::new("VIN1", "Acme", "Roadster", "red", 17, 42_000, &owner));
    let tx = Transaction::ChangeCarOwner(TxChangeCarOwner::new(&stranger, &stranger, "VIN1", 0));
    assert_eq!(tx.process(&signed_by(&stranger), &mut fork), Status::Applied);
    assert_eq!(
        cars_of(&fork),
        vec![Car::new("VIN1", "Acme", "Roadster", "red", 17, 42_000, &stranger)]
    );
}

#[test]
fn change_owner_does_not_ask_whether_the_new_owner_is_registered() {
    let k1 = pk(1);
    let k2 = pk(2);
    let mut fork = Fork::new();
    fork.cars.put(Car::new("VIN1", "Acme", "Roadster", "red", 17, 42_000, &k1));
    assert_eq!(TxChangeCarOwner::new(&k1, &k2, "VIN1", 0).execute(&mut fork), Status::Applied);
    let mut schema = OwnersSchema { view: &mut fork };
    assert_eq!(schema.owner(&k2), None);
}

#[test]
fn transactions_keep_their_fields() {
    let k1 = pk(1);
    let k2 = pk(2);
    let tx = TxProduceCar::new("VIN1", "Acme", "Roadster", "red", 17, 42_000, &k1);
    assert_eq!(tx.vin(), "VIN1");
    assert_eq!(tx.brand(), "Acme");
    assert_eq!(tx.model(), "Roadster");
    assert_eq!(tx.color(), "red");
    assert_eq!(tx.year(), 17);
    assert_eq!(tx.mileage(), 42_000);
    assert_eq!(tx.factory_pub_key(), &k1);
    let tx = TxChangeCarOwner::new(&k1, &k2, "VIN1", u64::MAX);
    assert_eq!(tx.owner_pub_key(), &k1);
    assert_eq!(tx.new_owner_pub_key(), &k2);
    assert_eq!(tx.vin(), "VIN1");
    assert_eq!(tx.seed(), u64::MAX);
    let tx = TxRegisterOwner::new("Alice", &k2);
    assert_eq!(tx.name(), "Alice");
    assert_eq!(tx.pub_key(), &k2);
}

#[test]
fn each_transaction_names_its_signer() {
    let k1 = pk(1);
    let k2 = pk(2);
    let produce =
        Transaction::ProduceCar(TxProduceCar::new("VIN1", "Acme", "Roadster", "red", 1, 2, &k1));
    let change = Transaction::ChangeCarOwner(TxChangeCarOwner::new(&k1, &k2, "VIN1", 0));
    let register = Transaction::RegisterOwner(TxRegisterOwner::new("Alice", &k2));
    assert_eq!(produce.signer(), &k1);
    assert_eq!(change.signer(), &k1);
    assert_eq!(register.signer(), &k2);
}

#[test]
fn verify_asks_for_a_valid_signature_under_the_signer() {
    let k1 = pk(1);
    let k2 = pk(2);
    let produce = TxProduceCar::new("VIN1", "Acme", "Roadster", "red", 1, 2, &k1);
    assert!(produce.verify(&signed_by(&k1)));
    assert!(!produce.verify(&forged_for(&k1)));
    assert!(!produce.verify(&signed_by(&k2)));
    assert!(!produce.verify(&forged_for(&k2)));
    let change = TxChangeCarOwner::new(&k1, &k2, "VIN1", 0);
    assert!(change.verify(&signed_by(&k1)));
    assert!(!change.verify(&signed_by(&k2)));
    assert!(!change.verify(&forged_for(&k1)));
    let register = TxRegisterOwner::new("Alice", &k2);
    assert!(register.verify(&signed_by(&k2)));
    assert!(!register.verify(&signed_by(&k1)));
    assert!(!register.verify(&forged_for(&k2)));
    let any = Transaction::RegisterOwner(TxRegisterOwner::new("Alice", &k2));
    assert!(any.verify(&signed_by(&k2)));
    assert!(!any.verify(&signed_by(&k1)));
}

#[test]
fn a_rejected_transaction_changes_neither_store() {
    let k1 = pk(1);
    let k2 = pk(2);
    let mut fork = Fork::new();
    fork.cars.put(Car::new("VIN1", "Acme", "Roadster", "red", 17, 42_000, &k1));
    let txs = vec![
        Transaction::ProduceCar(TxProduceCar::new("VIN9", "Apex", "Coupe", "blue", 1, 2, &k1)),
        Transaction::ChangeCarOwner(TxChangeCarOwner::new(&k1, &k2, "VIN1", 0)),
        Transaction::RegisterOwner(TxRegisterOwner::new("Alice", &k1)),
    ];
    for tx in &txs {
        assert_eq!(tx.process(&forged_for(&k1), &mut fork), Status::Rejected);
        assert_eq!(tx.process(&signed_by(&k2), &mut fork), Status::Rejected);
        assert_eq!(
            cars_of(&fork),
            vec![Car::new("VIN1", "Acme", "Roadster", "red", 17, 42_000, &k1)]
        );
        assert!(owners_of(&fork).is_empty());
    }
    for tx in &txs {
        assert_eq!(tx.process(&signed_by(&k1), &mut fork), Status::Applied);
    }
    assert_eq!(cars_of(&fork).len(), 2);
    assert_eq!(owners_of(&fork), vec![Owner::new("Alice", &k1)]);
    for tx in &txs[..1] {
        assert_eq!(tx.process(&signed_by(&k1), &mut fork), Status::Skipped);
    }
}

#[test]
fn a_rejected_transaction_is_never_read_back() {
    let k = pk(4);
    let mut blockchain = Blockchain::new();
    let mut fork = blockchain.fork();
    let tx = Transaction::ProduceCar(TxProduceCar::new("ABC1", "Acme", "M", "red", 1, 2, &k));
    assert_eq!(tx.process(&forged_for(&k), &mut fork), Status::Rejected);
    blockchain.merge(fork);
    let api = car_story_service::api::CarsApi { blockchain: &blockchain };
    assert_eq!(api.get_car("ABC1"), None);
    assert!(api.get_cars().is_none());
}

#[test]
fn a_produced_car_is_read_back_and_no_other() {
    let k = pk(4);
    let mut blockchain = Blockchain::new();
    let mut fork = blockchain.fork();
    let tx = Transaction::ProduceCar(TxProduceCar::new("ABC1", "Acme", "M", "red", 1, 2, &k));
    assert_eq!(tx.process(&signed_by(&k), &mut fork), Status::Applied);
    blockchain.merge(fork);
    let api = car_story_service::api::CarsApi { blockchain: &blockchain };
    let car = api.get_car("ABC1").unwrap();
    assert_eq!(car.owner(), &k);
    assert_eq!(car, Car::new("ABC1", "Acme", "M", "red", 1, 2, &k));
    assert_eq!(api.get_car("ABC2"), None);
    assert_eq!(api.get_car("ABC"), None);
    assert_eq!(api.get_car("abc1"), None);
    assert_eq!(api.get_car(""), None);
}

#[test]
fn executing_through_the_enum_is_executing_the_transaction() {
    let k1 = pk(1);
    let k2 = pk(2);
    let mut fork = Fork::new();
    let produce =
        Transaction::ProduceCar(TxProduceCar::new("VIN1", "Acme", "Roadster", "red", 1, 2, &k1));
    let change = Transaction::ChangeCarOwner(TxChangeCarOwner::new(&k1, &k2, "VIN1", 0));
    let register = Transaction::RegisterOwner(TxRegisterOwner::new("Alice", &k2));
    assert_eq!(change.execute(&mut fork), Status::Skipped);
    assert_eq!(produce.execute(&mut fork), Status::Applied);
    assert_eq!(change.execute(&mut fork), Status::Applied);
    assert_eq!(register.execute(&mut fork), Status::Applied);
    assert_eq!(register.execute(&mut fork), Status::Skipped);
    let mut schema = CarsSchema { view: &mut fork };
    assert_eq!(schema.car("VIN1"), Some(Car::new("VIN1", "Acme", "Roadster", "red", 1, 2, &k2)));
}

#[test]
fn message_types_tell_the_kinds_apart() {
    let k1 = pk(1);
    let produce =
        Transaction::ProduceCar(TxProduceCar::new("VIN1", "Acme", "Roadster", "red", 1, 2, &k1));
    let change = Transaction::ChangeCarOwner(TxChangeCarOwner::new(&k1, &k1, "VIN1", 0));
    let register = Transaction::RegisterOwner(TxRegisterOwner::new("Alice", &k1));
    assert_eq!(produce.message_type(), TX_PRODUCE_CAR_ID);
    assert_eq!(change.message_type(), TX_CHANGE_CAR_OWNER_ID);
    assert_eq!(register.message_type(), TX_REGISTER_OWNER_ID);
    let service = CarsService;
    assert_eq!(service.tx_from_raw(produce.message_type()), Ok(TransactionKind::ProduceCar));
    assert_eq!(service.tx_from_raw(change.message_type()), Ok(TransactionKind::ChangeCarOwner));
    assert_eq!(service.tx_from_raw(register.message_type()), Ok(TransactionKind::RegisterOwner));
}

#[test]
fn unknown_message_types_are_refused() {
    let service = CarsService;
    assert_eq!(service.tx_from_raw(1), Ok(TransactionKind::ProduceCar));
    assert_eq!(service.tx_from_raw(2), Ok(TransactionKind::ChangeCarOwner));
    assert_eq!(service.tx_from_raw(3), Ok(TransactionKind::RegisterOwner));
    assert_eq!(service.tx_from_raw(0), Err(Error::IncorrectMessageType { message_type: 0 }));
    assert_eq!(service.tx_from_raw(4), Err(Error::IncorrectMessageType { message_type: 4 }));
    assert_eq!(
        service.tx_from_raw(u16::MAX),
        Err(Error::IncorrectMessageType { message_type: u16::MAX })
    );
}

#[test]
fn service_has_its_name_and_number() {
    let service = CarsService;
    assert_eq!(service.service_name(), "cars");
    assert_eq!(service.service_name(), CARS_SERVICE_NAME);
    assert_eq!(service.service_id(), 1);
    assert_eq!(service.service_id(), CARS_SERVICE_ID);
}

#[test]
fn a_transaction_needs_only_the_record_it_is_about() {
    let k1 = pk(1);
    let k2 = pk(2);
    let mut whole = Fork::new();
    whole.cars.put(Car::new("VIN1", "Acme", "Roadster", "red", 17, 42_000, &k1));
    whole.cars.put(Car::new("VIN2", "Apex", "Coupe", "blue", 18, 7, &k1));
    whole.owners.put(Owner::new("Alice", &k1));
    let mut part = Fork::new();
    part.cars.put(whole.cars.get("VIN2").unwrap());
    let tx = TxChangeCarOwner::new(&k1, &k2, "VIN2", 0);
    assert_eq!(tx.execute(&mut part), Status::Applied);
    assert_eq!(tx.execute(&mut whole), Status::Applied);
    assert_eq!(part.cars.get("VIN2"), whole.cars.get("VIN2"));
    assert_eq!(part.cars.len(), 1);
    assert_eq!(whole.cars.len(), 2);
    assert_eq!(
        whole.cars.get("VIN1"),
        Some(Car::new("VIN1", "Acme", "Roadster", "red", 17, 42_000, &k1))
    );
    let mut part = Fork::new();
    let tx = TxRegisterOwner::new("Mallory", &k1);
    assert_eq!(tx.execute(&mut part), Status::Applied);
    assert_eq!(tx.execute(&mut whole), Status::Skipped);
    part.owners.put(whole.owners.get(&k1.to_hex()).unwrap());
    assert_eq!(tx.execute(&mut part), Status::Skipped);
    assert_eq!(owners_of(&part), vec![Owner::new("Alice", &k1)]);
}

#[test]
fn transactions_are_equal_when_every_field_is() {
    let k1 = pk(1);
    let k2 = pk(2);
    let produce = TxProduceCar::new("VIN1", "Acme", "Roadster", "red", 17, 42_000, &k1);
    assert_eq!(produce, produce.clone());
    assert_ne!(produce, TxProduceCar::new("VIN2", "Acme", "Roadster", "red", 17, 42_000, &k1));
    assert_ne!(produce, TxProduceCar::new("VIN1", "Apex", "Roadster", "red", 17, 42_000, &k1));
    assert_ne!(produce, TxProduceCar::new("VIN1", "Acme", "Coupe", "red", 17, 42_000, &k1));
    assert_ne!(produce, TxProduceCar::new("VIN1", "Acme", "Roadster", "blue", 17, 42_000, &k1));
    assert_ne!(produce, TxProduceCar::new("VIN1", "Acme", "Roadster", "red", 18, 42_000, &k1));
    assert_ne!(produce, TxProduceCar::new("VIN1", "Acme", "Roadster", "red", 17, 42_001, &k1));
    assert_ne!(produce, TxProduceCar::new("VIN1", "Acme", "Roadster", "red", 17, 42_000, &k2));
    let change = TxChangeCarOwner::new(&k1, &k2, "VIN1", 5);
    assert_eq!(change, change.clone());
    assert_ne!(change, TxChangeCarOwner::new(&k2, &k2, "VIN1", 5));
    assert_ne!(change, TxChangeCarOwner::new(&k1, &k1, "VIN1", 5));
    assert_ne!(change, TxChangeCarOwner::new(&k1, &k2, "VIN2", 5));
    assert_ne!(change, TxChangeCarOwner::new(&k1, &k2, "VIN1", 6));
    let register = TxRegisterOwner::new("Alice", &k1);
    assert_eq!(register, register.clone());
    assert_ne!(register, TxRegisterOwner::new("Bob", &k1));
    assert_ne!(register, TxRegisterOwner::new("Alice", &k2));
    let any = Transaction::ProduceCar(produce.clone());
    assert_eq!(any, any.clone());
    assert_eq!(any, Transaction::ProduceCar(produce));
    assert_ne!(any, Transaction::ChangeCarOwner(change));
    assert_ne!(any, Transaction::RegisterOwner(register));
}
