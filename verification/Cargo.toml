[package]
name = "canvas_layout"
version = "0.1.0"
edition = "2021"
publish = false

[dependencies]
hash32 = "=0.2.1"
heapless = "=0.7.17"
log = "=0.4.34"
num-derive = "=0.3.3"
num-traits = "=0.2.19"
rkyv = "=0.4.3"
xous = "=0.9.71"
xous-api-names = "=0.9.72"
xous-ipc = "=0.9.63"
