[package]
name = "embedded_logic"
version = "0.1.0"
edition = "2021"
publish = false

[dependencies]
heapless = "=0.8.0"
hash32 = "=0.3.1"
nobcd = "=0.2.0"
rand = "=0.9.5"
libm = "=0.2.16"
log = "=0.4.35"
nb = "=1.1.0"
cortex-m = "=0.7.10"
cortex-m-rt = "=0.7.7"
rtt-target = "=0.6.2"
microbit-v2 = "=0.16.0"
lsm303agr = "=1.1.0"
tiny-led-matrix = "=1.0.2"
esp-idf-svc = "=0.53.0"
