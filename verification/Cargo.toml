[package]
name = "encoding"
version = "0.3.0"
edition = "2021"
publish = false

[dependencies]
encoding-index-singlebyte = "*"
encoding-index-korean = "*"
encoding-index-japanese = "*"
encoding-index-simpchinese = "*"
encoding-index-tradchinese = "*"
getopts = "*"
