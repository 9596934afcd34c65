//! The verified core of a small content backend: account registration and
//! login, and create / read / update / delete over a "content" entity.
//!
//! A request is resolved to a route ([`routes`]) and handed to its handler
//! ([`handlers`]). A handler does no input or output: it names the statement
//! that the database is to run ([`gateway`]) and is taken up again with the
//! answer. Passwords go through bcrypt ([`credentials`]). What the statements
//! mean is fixed on a model of the two tables, which an in-memory gateway
//! implements ([`store`], [`service`]); what follows for the handlers is
//! proved in [`laws`].

pub mod clock;
pub mod credentials;
pub mod gateway;
pub mod handlers;
pub mod laws;
pub mod models;
pub mod response;
pub mod routes;
pub mod service;
pub mod store;
