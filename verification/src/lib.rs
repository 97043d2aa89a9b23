pub mod download;
