pub mod catalog;
pub mod downloader;
