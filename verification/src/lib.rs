//! Core of a chat-command bot: a command parser driven by a trigger grammar,
//! a registry of plugins loaded from dynamic modules, and a dispatcher that
//! routes each inbound command through built-in commands and the plugin chain.

pub mod dispatch;
pub mod messages;
pub mod parser;
pub mod plugin;
pub mod registry;
pub mod state;
pub mod text;

pub use messages::HandleError;
pub use plugin::Plugin;
pub use state::State;
pub use messages::HandleResult;
pub use messages::InboundMessage;
pub use messages::Message;
pub use messages::OutboundMessage;
pub use messages::PluginError;
pub use messages::Room;
pub use messages::Source;
pub use messages::User;
