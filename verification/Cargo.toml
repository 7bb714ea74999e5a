[package]
name = "conc_map_bench"
version = "0.1.0"
edition = "2021"
publish = false

[dependencies]
ahash = "=0.8.12"
bustle = "=0.5.1"
chashmap = "=2.2.2"
contrie = "=0.1.4"
crossbeam-epoch = "=0.9.21"
crossbeam-skiplist = "=0.1.3"
csv = "=1.4.0"
dashmap = "=6.2.1"
evmap = "=10.0.2"
flurry = "=0.5.2"
fxhash = "=0.2.1"
num_cpus = "=1.17.0"
papaya = "=0.1.9"
parking_lot = "=0.13.0"
plotters = { version = "=0.3.7", default-features = false, features = ["svg_backend", "line_series"] }
scc = "=2.4.0"
seize = "=0.3.3"
serde = { version = "=1.0.229", features = ["derive"] }
structopt = "=0.3.26"
tracing-subscriber = "=0.3.23"
