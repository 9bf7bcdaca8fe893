[package]
name = "lenso_projects"
version = "0.1.0"
edition = "2021"
publish = false

[dependencies]
futures = "*"
lenso = "*"
lenso-auth-sdk = "*"
lenso-capability-access-control = "*"
lenso-capability-agent-tool-provider = "*"
lenso-capability-auth = "*"
lenso-capability-data-export-source = "*"
lenso-capability-http-endpoint = "*"
lenso-capability-organization-membership = "*"
lenso-capability-retention-participant = "*"
lenso-capability-secrets = "*"
lenso-kernel = "*"
lenso-postgres-kit = "*"
serde = { version = "1", features = ["derive"] }
serde_json = "1"
sqlx = { version = "*", default-features = false, features = ["postgres", "runtime-tokio", "time", "json"] }
thiserror = "2"
time = { version = "0.3", features = ["formatting", "parsing"] }
uuid = { version = "1", features = ["v4"] }
zeroize = "1"
