[package]
name = "dicom_modules"
version = "0.1.0"
edition = "2021"
publish = false

[dependencies]
dicom-core = "0.6"
dicom-dictionary-std = "0.6"
dicom-object = "0.6"
thiserror = "1"
