[package]
name = "car_story_service"
version = "0.1.0"
edition = "2021"
publish = false

[dependencies]
exonum = "=0.4.0"
hex = "=0.3.2"
iron = "=0.6.1"
router = "=0.6.0"
bodyparser = "=0.8.0"
serde = "=1.0.229"
serde_derive = "=1.0.229"
serde_json = "=1.0.154"
