//! Kiosk Desktop: the rules of the desktop shell.

pub mod backend;
pub mod backend_laws;
pub mod boot;
pub mod boot_laws;
pub mod bundle;
pub mod calendar;
pub mod device_laws;
pub mod devices;
pub mod error;
pub mod http;
pub mod http_laws;
pub mod install_laws;
pub mod jar;
pub mod lifecycle;
pub mod log_laws;
pub mod logging;
pub mod number;
pub mod outside;
pub mod path;
pub mod reader_laws;
pub mod reply;
pub mod reply_laws;
pub mod secrets;
pub mod supervisor;
pub mod text;
pub mod text_laws;
