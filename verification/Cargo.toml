[package]
name = "lorawan_node"
version = "0.1.0"
edition = "2021"
publish = false

[dependencies]
rand = { version = "=0.9.5", default-features = false, features = ["std_rng"] }
defmt = "=1.2.0"
defmt-rtt = "=1.3.1"
embassy-executor = { version = "=0.10.0", features = ["defmt"] }
embassy-nrf = { version = "=0.11.0", features = ["nrf52840", "time-driver-rtc1", "gpiote", "defmt", "time"] }
embassy-time = { version = "=0.5.1", features = ["defmt"] }
embedded-hal-bus = { version = "=0.3.0", features = ["async"] }
lora-phy = { version = "=3.0.1", features = ["lorawan-radio"] }
lorawan-device = { version = "=0.12.2", default-features = false, features = ["default-crypto", "region-us915", "defmt"] }
panic-probe = { version = "=1.0.0", features = ["print-defmt"] }
