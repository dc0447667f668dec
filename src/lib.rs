//! Detection of token contract addresses in chat messages, throttling of
//! repeated notifications, and the decision logic around metadata lookups.
pub mod text;
pub mod extract;
pub mod throttle;
pub mod amount;
pub mod token;
pub mod resolver;
pub mod config;
pub mod reply;
pub mod pipeline;
