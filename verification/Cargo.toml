[package]
name = "custom_datasource"
version = "0.1.0"
edition = "2021"
publish = false

[dependencies]
arrow = { version = "=59.3.2", default-features = false }
arrow-schema = "=59.3.2"
rand = "=0.9.5"
async-trait = "=0.1.92"
futures = "=0.3.34"
datafusion-common = { version = "=55.2.0", default-features = false }
datafusion-expr = { version = "=55.2.0", default-features = false }
datafusion-execution = { version = "=55.2.0", default-features = false }
datafusion-physical-expr = { version = "=55.2.0", default-features = false }
datafusion-physical-plan = { version = "=55.2.0", default-features = false }
datafusion-catalog = { version = "=55.2.0", default-features = false }
datafusion-session = { version = "=55.2.0", default-features = false }
