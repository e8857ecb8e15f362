[package]
name = "htsget_resolver"
version = "0.1.0"
edition = "2021"
publish = false

[dependencies]
regex = "1"
base64 = "0.22"
serde = { version = "1", features = ["derive"] }
serde_with = "3"
http = "1"
tokio = { version = "1", default-features = false, features = ["fs", "io-util"] }
futures = "0.3"
reqwest = { version = "0.12", default-features = false }
noodles = { version = "*", features = ["async", "bam", "bcf", "bgzf", "cram", "fasta", "vcf"] }
