pub mod config;
pub mod game;
pub mod laws;
pub mod model;
pub mod requests;
pub mod storage;

pub use config::AppState;
pub use config::Config;
pub use model::Game;
pub use model::GameError;
pub use model::GameStatus;
pub use model::Move;
pub use model::Outcome;
pub use model::Player;
pub use model::PlayerID;
pub use requests::GameUpdateRequest;
pub use storage::Backend;
pub use storage::BackendError;
