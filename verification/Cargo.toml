[package]
name = "data_store"
version = "0.1.0"
edition = "2021"
publish = false

[dependencies]
async-trait = "0.1"
aws-sdk-s3 = "1"
dotenv = "0.15"
zstd = "0.13"
