[package]
name = "r2ox"
version = "0.1.0"
edition = "2021"
publish = false

[dependencies]
x86_64 = { version = "0.15", default-features = false, features = ["instructions"] }
log = "0.4"
spin = "0.9"
lazy_static = { version = "1", features = ["spin_no_std"] }
uart_16550 = "0.3"
pic8259 = "0.11"
volatile = "0.2"
limine = "0.5"
buddy_system_allocator = "0.9"
x86 = "0.52"
arrayvec = { version = "0.7", default-features = false }
