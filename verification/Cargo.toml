[package]
name = "assistant"
version = "0.1.0"
edition = "2021"
publish = false

[dependencies]
takecell = "=0.1.1"
teloxide = { version = "=0.12.2", features = ["macros", "ctrlc_handler"] }
tokio = { version = "=1.53.2", features = ["macros", "rt-multi-thread", "sync"] }
dptree = "=0.3.0"
reqwest = { version = "=0.11.27", features = ["json"] }
serde = { version = "1", features = ["derive"] }
serde_json = "1"
dotenv = "0.15"
diesel = { version = "=2.3.14", features = ["postgres", "r2d2"] }
linfa = "=0.7.1"
linfa-linear = "=0.7.1"
ndarray = "=0.15.6"
