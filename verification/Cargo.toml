[package]
name = "pcd_tool"
version = "0.1.0"
edition = "2021"
publish = false

[dependencies]
approx = "=0.5.1"
clap = { version = "=4.6.7", features = ["derive"] }
eyre = "=0.6.14"
nalgebra = "=0.35.0"
pcd-rs = { version = "=0.13.0", features = ["derive"] }
rayon = "=1.12.0"
serde_json = "=1.0.151"
velodyne-lidar = { version = "=0.3.0", features = ["pcap"] }
