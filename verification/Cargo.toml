[package]
name = "offline_wallet"
version = "0.1.0"
edition = "2021"
publish = false

[dependencies]
aes-gcm = "=0.10.3"
argon2 = "=0.5.3"
base64 = "=0.22.1"
bip39 = "=2.2.2"
bitcoin = "=0.32.102"
bs58 = "=0.5.1"
ed25519-dalek = "=2.2.0"
ethers-core = "=2.0.14"
ethers-signers = "=2.0.14"
hex = "=0.4.3"
image = { version = "=0.24.9", default-features = false, features = ["png"] }
kaspa-addresses = "=0.15.0"
qrcode = { version = "=0.14.1", default-features = false }
rand = "=0.8.8"
secp256k1 = { version = "=0.29.1", features = ["global-context"] }
serde = { version = "=1.0.229", features = ["derive"] }
serde_json = "=1.0.154"
sha2 = "=0.10.9"
sha3 = "=0.10.9"
tiny-hderive = "=0.3.0"
# Not called by the wallet: kaspa-addresses 0.15 compiles against this
# release of wasm-bindgen and not against the later ones that it would
# otherwise be given.
wasm-bindgen = "=0.2.93"
zeroize = "=1.9.1"
