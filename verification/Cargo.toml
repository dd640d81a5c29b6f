[package]
name = "store_scp"
version = "0.1.0"
edition = "2021"
publish = false

[dependencies]
dicom-core = "0.8"
dicom-dictionary-std = "0.8"
dicom-encoding = "0.8"
dicom-object = "0.8"
dicom-transfer-syntax-registry = "0.8"
dicom-ul = { version = "0.8", features = ["async"] }
snafu = "0.8"
tokio = { version = "1", features = ["net"] }
tracing = "0.1"
