[package]
name = "winit_view"
version = "0.1.0"
edition = "2021"
publish = false

# The GNUstep runtime lets a host without Apple's libraries build the bindings.
[dependencies]
icrate = { version = "=0.1.2", default-features = false, features = ["std", "Foundation", "Foundation_NSSet", "Foundation_NSThread", "gnustep-2-1"] }
objc2 = { version = "=0.5.3", default-features = false, features = ["std", "gnustep-2-1"] }
