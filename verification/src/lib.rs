//! The composition-and-replication core of a multiplayer world server.
//!
//! An entity ([`game_object::GameObject`]) is an ordered list of components, assembled from the
//! capability tags of its template ([`game_object::composition`]). The world registry
//! ([`state::State`]) owns the live entities, issues identifiers from partitions that cannot
//! overlap ([`ids`]), and keeps one session per connection. Incoming messages are dispatched by
//! [`state::State::on_msg`] according to the state of the session.
//!
//! The core touches nothing outside itself. What a handler wants delivered is queued on a
//! [`connection::Connection`]; what a handler wants logged is noted in the registry; and work
//! that only the surrounding program can do, such as asking the credential service or storage,
//! is handed back to the caller as a [`messages::Pending`] request, whose outcome the caller
//! returns through [`state::State::on_reply`].
//!
//! Every function states what it does over mathematical values: the view of a registry is a
//! [`state::StateView`], the view of an entity a [`game_object::GameObjectView`], the view of a
//! connection a [`connection::ConnectionView`]. What a handler does to these three is one
//! function from the values before to the values after. The laws that the library states of
//! itself are the proof functions whose names begin with `lemma_`.
pub mod math;
pub mod ids;
pub mod error;
pub mod text;
pub mod replica;
pub mod services;
pub mod messages;
pub mod models;
pub mod connection;
pub mod templates;
pub mod game_object;
pub mod state;
pub mod commands;
pub mod listeners;
