//! A bounded, newest-first list of short text messages, shared between
//! concurrent requests, and the rules that map requests onto it.
pub mod message_list;
pub mod state;
pub mod router;

pub use message_list::MessageList;
pub use message_list::MAX_MESSAGE_COUNT;
pub use message_list::MAX_MESSAGE_LEN_CHARS;
pub use router::respond;
pub use router::route;
pub use router::Reply;
pub use router::ReplyBody;
pub use router::Route;
pub use state::State;
