[package]
name = "raydiance"
version = "0.1.0"
edition = "2021"
publish = false

[dependencies]
anyhow = "1"
apng = "0.3"
approx = "0.5"
bitvec = "1"
bytemuck = { version = "1", features = ["derive"] }
clap = { version = "4", features = ["derive"] }
env_logger = "0.10"
hw-skymodel = "0.1"
image = { version = "0.24", default-features = false, features = ["png"] }
itertools = "0.10"
katex = "0.4"
log = "0.4"
nalgebra = "0.32"
palette = "0.7"
plotters = { version = "0.3", default-features = false, features = ["svg_backend", "line_series"] }
png = "0.17"
pulldown-cmark = { version = "0.9", default-features = false }
rand = "0.8"
rand_pcg = "0.3"
rayon = "1"
ron = "0.8"
serde = { version = "1", features = ["derive"] }
serde_json = "1"
time = { version = "0.3", features = ["formatting", "parsing"] }
tinytemplate = "1.2"
