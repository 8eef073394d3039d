[package]
name = "midi_fader"
version = "0.1.0"
edition = "2021"
publish = false

[dependencies]
arrayvec = "0.7"
byteorder = "1"
errno = "0.2"
failure = "0.1"
futures = "0.1"
glium = "0.23"
imgui = "0.0.22"
imgui-glium-renderer = "0.0.22"
imgui-winit-support = "0.0.22"
libc = "0.2"
mio = "0.6"
tokio = "0.1"
udev = "0.2"
