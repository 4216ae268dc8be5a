[package]
name = "bringup"
version = "0.1.0"
edition = "2021"
publish = false

[dependencies]
x86_64 = { version = "=0.15.5", default-features = false, features = ["instructions"] }
acpi = "=4.1.1"
pic8259 = { version = "=0.11.0", default-features = false }
limine = "=0.5.0"
spin = "=0.12.3"
uart_16550 = "=0.8.1"
linked_list_allocator = "=0.10.6"
lazy_static = "=1.5.1"
