[package]
name = "ntscrs-android"
version = "0.1.0"
edition = "2021"
publish = false

[dependencies]
jni = "0.21"
serde_json = "1"
