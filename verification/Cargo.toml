[package]
name = "phoenix"
version = "0.1.0"
edition = "2021"
publish = false

[dependencies]
embedded-graphics = "=0.8.2"
goblin = "=0.10.7"
lazy_static = "=1.5.1"
linked_list_allocator = "=0.10.6"
multiboot2 = "=0.28.0"
pc-keyboard = "=0.9.0"
spin = "=0.12.3"
x86_64 = { version = "=0.15.5", default-features = false, features = ["instructions"] }
