//! Decisions of a picture-of-the-day downloader: where pictures are saved,
//! how each one is named, and a session that drives one run step by step
//! while the caller performs the network and disk work it asks for.
pub mod naming;
pub mod session;
pub mod runs;
