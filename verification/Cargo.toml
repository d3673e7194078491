[package]
name = "castor"
version = "0.1.0"
edition = "2021"
publish = false

[dependencies]
url = "2"
percent-encoding = "2"
native-tls = "0.2"
tempfile = "3"
open = "1"
toml = "0.5"
serde = "1"
serde_derive = "1"
dirs = "2"
gtk = "0.8"
gdk = "0.12"
gio = "0.8"
glib = "0.9"
pango = "0.8"

[dev-dependencies]
regex = "1"
