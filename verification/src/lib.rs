//! Lighting state engine for a single DMX universe driven over Art-Net.

pub mod animation;
pub mod artnet;
pub mod colour;
pub mod fixture;
pub mod loading;
pub mod model;
pub mod project;
pub mod router;
pub mod scene;
pub mod settings;
pub mod sorting;
pub mod tether_interface;
pub mod text;
pub mod ui;
