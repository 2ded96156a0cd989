[package]
name = "diffeq_sim"
version = "0.1.0"
edition = "2021"
publish = false

[dependencies]
serde = { version = "1", features = ["derive"] }
toml = "*"

[dev-dependencies]
nalgebra = "*"
ode_solvers = "*"
