//! Bootstrap logic for a minikube based development environment: the rules that
//! decide what to create in the cluster, when the target pod counts as healthy,
//! how a command is framed for the pod, and how the host's files are edited.

pub mod addons;
pub mod bomb;
pub mod bootstrap;
pub mod cluster;
pub mod commands;
pub mod config;
pub mod connect;
pub mod dns;
pub mod downloads;
pub mod exec;
pub mod health;
pub mod host;
pub mod install;
pub mod monitor;
pub mod outside;
pub mod paths;
pub mod profile;
pub mod resource;
pub mod server;
pub mod text;
pub mod tls;
