[package]
name = "motif"
version = "0.1.0"
edition = "2021"
publish = false

[dependencies]
accesskit = "*"
core-graphics-types = "*"
foreign-types = "*"
glamour = "*"
image = { version = "*", default-features = false, features = ["png"] }
linebender_resource_handle = "*"
metal = "*"
objc = "*"
objc2 = "*"
objc2-app-kit = "*"
palette = "*"
parley = "*"
serde = { version = "*", features = ["derive"] }
serde_json = "*"
smallvec = "*"
swash = "*"
winit = { version = "*", default-features = false, features = ["rwh_06"] }
