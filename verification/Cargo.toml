[package]
name = "git_dive"
version = "0.1.0"
edition = "2021"
publish = false

[dependencies]
anstyle-stream = "*"
anyhow = "1"
clap = { version = "4", features = ["derive"] }
clap-verbosity-flag = "*"
concolor-clap = "*"
git2 = { version = "*", default-features = false }
git-config-env = "*"
proc-exit = "*"
shlex = "1"
