//! Bridge logic for a desktop shell that talks to a local backend service:
//! the backend's fixed address, and the interpretation of a health probe's
//! outcome into the message reported to the caller.

pub mod bridge;
pub mod decimal;
