//! Coordination core of a small Wi-Fi weather clock: the pages it shows, the
//! state its workers share, the messages that change that state, and the
//! decisions each worker takes between two waits.

pub mod app;
pub mod clock;
pub mod config;
pub mod device;
pub mod display;
pub mod http_server;
pub mod qr;
pub mod state;
pub mod text;
pub mod weather;
pub mod wifi;
pub mod worker;
