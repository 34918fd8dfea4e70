//! The verified core of a chat robot that connects orchestration loops with a
//! human operator over Telegram, Rocket.Chat or Matrix.

pub mod bot;
pub mod clock;
pub mod daemon;
pub mod events;
pub mod interact;
pub mod json;
pub mod lists;
pub mod matrix;
pub mod place;
pub mod rocketchat;
pub mod routing;
pub mod service;
pub mod table;
pub mod text;
pub mod yaml;
