//! FTP transport: the connection planning for plain FTP, and the SFTP
//! client kept alongside it.
pub mod client;
pub mod sftp;
