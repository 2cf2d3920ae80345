//! The server core of a real-time multiplayer arena game: grid geometry,
//! the snake entity, the bot tiers, the per-room tick engine and its
//! message protocol, and the registry that binds join codes to rooms.
//! Everything the simulation decides is stated in the contracts here; the
//! embedding program only moves bytes, sockets and timers.

use vstd::prelude::*;

mod bot;
mod config;
mod engine;
mod error;
mod galaxy;
mod geometry;
mod metrics;
mod middleware;
mod registry;
mod rng;
mod room;
mod runner;
mod session;
mod snake;

pub use bot::bot_decision_ok;
pub use bot::easy_choice_ok;
pub use bot::hard_choice;
pub use bot::medium_choice;
pub use bot::valid_turns_spec;
pub use config::ServerConfig;
pub use engine::ClientMessage;
pub use engine::GameRoom;
pub use engine::Outbound;
pub use engine::ScoreSubmission;
pub use engine::ServerMessage;
pub use engine::all_ready;
pub use engine::round_over;
pub use engine::same_state;
pub use error::ErrorResponse;
pub use error::ServiceError;
pub use galaxy::GameStats;
pub use galaxy::GemType;
pub use galaxy::Move;
pub use geometry::Direction;
pub use geometry::Point;
pub use metrics::MetricsCollector;
pub use middleware::RateLimiter;
pub use middleware::RateLimiterMiddleware;
pub use middleware::RequestId;
pub use middleware::RequestIdMiddleware;
pub use middleware::SecurityHeaders;
pub use middleware::SecurityHeadersMiddleware;
pub use registry::GameSpeed;
pub use registry::MapSize;
pub use registry::RoomCodeEntry;
pub use registry::RoomInfo;
pub use registry::RoomManager;
pub use registry::RoomSettings;
pub use registry::generate_room_code;
pub use registry::is_code_char;
pub use room::ActivePowerUp;
pub use room::BotDifficulty;
pub use room::GamePhase;
pub use room::GameState;
pub use room::Player;
pub use room::PowerUp;
pub use room::PowerUpType;
pub use runner::CodeRunner;
pub use runner::ContainerManager;
pub use runner::ExecutionRequest;
pub use runner::ExecutionResult;
pub use runner::Language;
pub use runner::SecurityConfig;
pub use runner::truncate_output;
pub use session::HeartbeatAction;
pub use session::heartbeat_action;
pub use snake::Snake;

verus! {

} // verus!
