//! Image ingestion core: the identity record, the image normaliser, the
//! metadata store worker's decisions and the upload and download sessions.

pub mod connection_type;
pub mod credentials;
pub mod db;
pub mod download_server;
pub mod normalizer;
pub mod paths;
pub mod upload_server;
