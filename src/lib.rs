pub mod blowfish;
pub mod buffer;
pub mod bytes;
pub mod digest;
pub mod md5;
pub mod pi_tables;
pub mod sha1;
