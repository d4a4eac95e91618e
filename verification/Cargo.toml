[package]
name = "video_sampler"
version = "0.1.0"
edition = "2021"
publish = false

[dependencies]
rand = "=0.10.3"
png = "=0.18.1"
crossbeam-channel = "=0.5.17"
num_cpus = "=1.17.0"
gstreamer = "=0.16.7"
gstreamer-app = "=0.16.5"
