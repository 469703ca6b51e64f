[package]
name = "region_reference"
version = "0.1.0"
edition = "2021"
publish = false

[dependencies]
hdf5-sys = "0.7"
hdf5-types = "0.7"
ndarray = "0.14"
