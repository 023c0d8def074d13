[package]
name = "blog_core"
version = "0.1.0"
edition = "2021"
publish = false

[dependencies]
actix-cors = "*"
actix-web = { version = "4", default-features = false, features = ["macros"] }
bcrypt = "*"
chrono = { version = "0.4", features = ["serde"] }
deunicode = "1"
diesel = { version = "2", features = ["postgres", "r2d2", "chrono"] }
dotenv = "*"
env_logger = "*"
futures = "0.3"
jsonwebtoken = "9"
log = "0.4"
serde = { version = "1", features = ["derive"] }
serde_json = "1"
thiserror = "*"
