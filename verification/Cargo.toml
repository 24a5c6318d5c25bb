[package]
name = "xml_attribute_diff"
version = "0.1.0"
edition = "2021"
publish = false

[dependencies]
quick-xml = "*"
clap = "*"
