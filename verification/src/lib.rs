//! Send and receive files between devices over the local network.
//!
//! The library holds the decisions of a small file-transfer server: it
//! parses and searches ports, picks the address to bind to, keeps the table
//! of files offered for download, plans the answers to uploads and downloads,
//! names archives and received files, and builds the texts that the server
//! prints. Sockets, the file system and the HTTP framework stay with the
//! program that uses it.

pub mod text;
pub mod port;
pub mod network;
pub mod config;
pub mod cli;
pub mod paths;
pub mod files;
pub mod http;
pub mod download;
pub mod upload;
pub mod qr;
pub mod server;
