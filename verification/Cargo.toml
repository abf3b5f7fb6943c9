[package]
name = "policy_server"
version = "0.1.0"
edition = "2021"
publish = false

[dependencies]
anyhow = "1"
axum = "=0.8.9"
axum-server = { version = "=0.7.3", default-features = false, features = ["tls-rustls-no-provider"] }
clap = { version = "4.5", features = ["cargo", "env"] }
clap-markdown = "0.1"
daemonize = "0.5"
inotify = "=0.11.5"
jemalloc_pprof = "0.6"
opentelemetry = { version = "0.27", default-features = false, features = ["metrics", "trace"] }
opentelemetry-otlp = { version = "0.27", features = ["tonic"] }
opentelemetry_sdk = { version = "0.27", features = ["rt-tokio"] }
pprof = { version = "0.14", features = ["prost-codec"] }
rayon = "1.10"
rustls = { version = "=0.23.46", default-features = false, features = ["ring", "logging", "std", "tls12"] }
rustls-pemfile = "=2.2.0"
rustls-pki-types = { version = "=1.15.1", features = ["alloc"] }
serde = { version = "1", features = ["derive"] }
serde_json = "1"
serde_yaml = "0.9"
tikv-jemallocator = { version = "0.6", features = ["profiling", "unprefixed_malloc_on_supported_platforms"] }
tokio = { version = "1.43", features = ["full"] }
tokio-stream = "0.1"
tower-http = { version = "0.6", features = ["trace"] }
tracing = "0.1"
tracing-opentelemetry = "0.28"
tracing-subscriber = { version = "0.3", features = ["ansi", "env-filter", "fmt", "json"] }

[dev-dependencies]
rcgen = "=0.13.2"
