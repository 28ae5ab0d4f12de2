pub mod clipboard;
