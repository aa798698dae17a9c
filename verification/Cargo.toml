[package]
name = "mpu6050"
version = "0.1.0"
edition = "2021"
publish = false

[dependencies]
embedded-hal = "1"
linux-embedded-hal = "0.4"
i2cdev = "*"
libm = "*"
nalgebra = "*"
