//! A bridge between a message source and a receipt printer: a session state
//! machine that keeps one connection alive and hands every inbound text message,
//! in order, to a print sink that renders it as a ticket.

pub mod device;
pub mod laws;
pub mod session;
pub mod sink;
pub mod ticket;
