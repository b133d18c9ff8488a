[package]
name = "vantage"
version = "0.1.0"
edition = "2021"
publish = false

[dependencies]
bytemuck = { version = "1", features = ["derive"] }
hashbrown = "*"
libc = "0.2"
libloading = "*"
libm = "0.2"
pliron = "*"
pliron-llvm = "*"
smallvec = "1"
spin = "*"
