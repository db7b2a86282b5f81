[package]
name = "xfrm"
version = "0.1.0"
edition = "2021"
publish = false

[dependencies]
futures = "*"
netlink-packet-core = "*"
netlink-packet-xfrm = "*"
netlink-proto = "*"
thiserror = "*"
