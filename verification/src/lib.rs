pub mod address_book;
pub mod config;
pub mod config2;
pub mod credentials;
pub mod discovery;
pub mod error;
pub mod keys;
pub mod laws;
pub mod limits;
pub mod local_config;
pub mod options;
pub mod outside;
pub mod paths;
pub mod peer_config;
pub mod peer_files;
pub mod peer_flags;
pub mod permanent_password;
pub mod ranking;
pub mod sh;
pub mod status;
pub mod storage;
pub mod text;
pub mod text_map;
pub mod user_defaults;
