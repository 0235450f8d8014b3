[package]
name = "guid-create"
version = "0.5.0"
edition = "2021"
publish = false

[dependencies]
rand = "0.8"
serde = "1"
bytemuck = { version = "1", features = ["derive"] }
winapi = { version = "0.3", features = ["guiddef"] }

[dev-dependencies]
quickcheck = { version = "1", default-features = false }
