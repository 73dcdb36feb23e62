[package]
name = "delay_timer"
version = "0.11.1"
edition = "2021"
publish = false

[dependencies]
anyhow = "=1.0.104"
async-trait = "=0.1.92"
cron_clock = "=0.8.0"
dashmap = "5"
event-listener = "=2.5.3"
log = "=0.4.35"
lru = "=0.7.8"
rs-snowflake = "=0.6.0"
smol = "=1.3.0"
thiserror = "=1.0.69"
tokio = { version = "=1.54.1", features = ["full"] }

[dev-dependencies]
rand = "=0.8.8"
