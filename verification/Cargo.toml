[package]
name = "support_tickets"
version = "0.1.0"
edition = "2021"
publish = false

[dependencies]
poise = "*"
async-trait = "*"
chrono = "*"
log = "*"
indoc = "*"
