[package]
name = "btrfs-migrator"
version = "0.1.0"
edition = "2021"
publish = false

[dependencies]
dialoguer = "*"
fstab = "*"
glob = "*"
libbtrfsutil = "*"
qr2term = "*"
scopeguard = "*"
