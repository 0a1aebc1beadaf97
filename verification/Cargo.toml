[package]
name = "chers"
version = "0.1.0"
edition = "2021"
publish = false

[dependencies]
pleco = "=0.5.0"
rand = "=0.9.5"
log = "=0.4.34"
log4rs = "=1.4.0"
vampirc-uci = "=0.11.1"
pgn-reader = "=0.26.0"
shakmaty = "=0.27.3"
