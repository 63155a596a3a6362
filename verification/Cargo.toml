[package]
name = "transient_solar_battery_simulation"
version = "0.1.0"
edition = "2021"

[dependencies]
fixed = "1"
cordic = "*"
chrono = "0.4"
