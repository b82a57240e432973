//! Verified core of the Orbiscreen virtual second display.
pub mod text;
pub mod json;
pub mod capabilities;
pub mod config;
pub mod portal_state;
pub mod frame_pool;
pub mod hexid;
pub mod encode;
pub mod hub;
pub mod capture;
pub mod wlroots;
pub mod kwin;
pub mod kscreen;
pub mod doctor;
pub mod display;
pub mod input;
pub mod ui;
pub mod gui;
pub mod daemon;
