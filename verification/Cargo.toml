[package]
name = "spherekit"
version = "0.1.0"
edition = "2021"
publish = false

[dependencies]
d3_geo_rs = "*"
geo-types = "*"
geojson = "*"
ghx_constrained_delaunay = "*"
js-sys = "*"
nalgebra = "*"
sgp4 = "*"
wasm-bindgen = "*"
