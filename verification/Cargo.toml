[package]
name = "parse_wiktionary_de"
version = "0.1.0"
edition = "2021"
publish = false

[dependencies]
parse_wiki_text = "*"
serde = "1"
serde_derive = "1"
