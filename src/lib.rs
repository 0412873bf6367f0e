//! Client library for a cloud service that manages audio players and their
//! content cards: credential lifecycle, the device-authorization handshake,
//! and the audio upload-and-transcode pipeline, each as verified decisions
//! over plain values. The transport that carries the requests lives outside.

pub mod auth;
pub mod client;
pub mod model;
pub mod mqtt;
pub mod token;
pub mod upload;
