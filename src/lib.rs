//! Lobby and roster assembly for a fixed-size card-game table.
pub mod auth;
pub mod lobby;
pub mod roster;
pub mod status;

pub use auth::{authenticate, name_from_bytes, AuthError, NAME_BUFFER_LEN, NAME_PROMPT};
pub use lobby::{Lobby, LobbyError, LobbyView};
pub use roster::{BuilderCount, NumeroJugadores, Table, TableBuilder};
pub use status::status_message;
