[package]
name = "simple_ping"
version = "0.1.0"
edition = "2021"
publish = false

[dependencies]
ctrlc = "3"
etherparse = "0.9"
internet-checksum = "0.2"
socket2 = "0.3"
structopt = "0.3"
termcolor = "1"
