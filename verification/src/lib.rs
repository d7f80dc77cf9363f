pub mod text;
pub mod clock;
pub mod history;
pub mod config;
pub mod gui;
pub mod winapi;
pub mod server;
pub mod relay;
pub mod tracker;
pub mod net;
