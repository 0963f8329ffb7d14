[package]
name = "ad_values"
version = "0.1.0"
edition = "2021"
publish = false

[dependencies]
base64 = "*"
bitflags = "*"
bitmask-enum = "*"
chrono = "*"
clap = { version = "*", features = ["derive"] }
from-to-repr = "*"
ldap3 = { version = "*", default-features = false }
num-bigint = "*"
regex = "*"
rpassword = "*"
serde = { version = "*", features = ["derive"] }
tokio = { version = "*", features = ["macros", "rt-multi-thread"] }
toml = "*"
uuid = "*"
