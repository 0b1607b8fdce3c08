//! Client library for the Pocketcasts podcast-hosting service.
//!
//! The library holds the request/response mapping layer: building the
//! outbound requests (URLs, bodies, authentication headers) and mapping
//! each HTTP status and decoded response body to a domain value or a
//! typed failure. The transport itself (sockets, TLS) and the JSON
//! decoding of wire bodies are external collaborators; they hand this
//! library plain values and take plain values back.
pub mod api;
pub mod client;
pub mod episode;
pub mod error;
pub mod http;
pub mod podcast;
pub mod responses;
pub mod session;
pub mod user;

pub use client::PocketcastClient;
pub use episode::Episode;
pub use error::PocketcastError;
pub use podcast::DiscoverPodcast;
pub use podcast::Podcast;
pub use responses::SearchPodcast;
pub use user::PocketcastUser;
