//! A peer-to-peer chat session core: the event model and its wire form, and
//! the decisions of the connector, the sender, the receiver loop and the
//! shutdown coordinator, each as a state machine that the surrounding
//! program drives with the outcomes of its transport calls.

pub mod event;
pub mod wire;
pub mod receiver;
pub mod connector;
pub mod sender;
pub mod board;
pub mod shutdown;
