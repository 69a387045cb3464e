pub mod wire;
pub mod text;
pub mod protocol;
pub mod protocol_laws;
pub mod platform;
pub mod config;
pub mod server;
pub mod arith;
pub mod pointer;
pub mod keyboard;
pub mod keymap;
pub mod motion;
pub mod clipboard_sync;
pub mod lines;
pub mod tokens;
pub mod file_uri;
pub mod uri_list;
pub mod display;
pub mod clipboard_backend;
pub mod screen_size;
pub mod input_devices;
pub mod layout;
pub mod win_capture;
pub mod mac_input;
pub mod config_file;
pub mod client;
pub mod cli;
pub mod version;
pub mod file_transfer;
pub mod launch;
pub mod mac_capture;
pub mod batch;
pub mod linux_sink;
pub mod clipboard_commands;
pub mod win_sink;
pub mod monitor_layout;
pub mod linux_capture;
pub mod mac_clipboard;
pub mod uri_list_laws;
pub mod config_laws;
pub mod keyboard_laws;
pub mod mapping_laws;
