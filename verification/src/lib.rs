//! The logic of a small real-time strategy demo, kept apart from the engine
//! and the window it is drawn in: the speed ladder, the demo map, the lobby's
//! seating rules, the minimap's pixel canvas, the input decisions, and the
//! texts the overlay shows.
pub mod time;
pub mod canvas;
pub mod minimap;
pub mod text;
pub mod map;
pub mod lobby;
pub mod lobby_view;
pub mod input;
pub mod render;
pub mod hud;
pub mod sound;
pub mod settings;
pub mod scenario;
pub mod playback;
pub mod replay;
pub mod debug;
pub mod setup;
pub mod ai;
pub mod content;
