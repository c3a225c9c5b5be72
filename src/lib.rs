//! Client core of a terminal music-sharing application: the song transfer
//! frame codec, the event multiplexer's and audio ingest task's decisions, the
//! jitter buffer in front of playback, and the client's selection state.
pub mod client;
pub mod codec;
pub mod events;
pub mod jitter;
pub mod raw_audio;
