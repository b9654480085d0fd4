[package]
name = "polars_geos"
version = "0.1.0"
edition = "2021"
publish = false

[dependencies]
geos = "*"
polars = "*"
