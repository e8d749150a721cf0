//! Decision core of a minimal user service: one liveness endpoint and one
//! user-creation endpoint backed by a relational table. The creation path
//! runs an unfiltered existence probe and then a conditional insert, with
//! no transaction around the pair, and maps the outcome of each step to an
//! HTTP status. All of that mapping lives here, verified; the HTTP server,
//! the connection pool and the database calls themselves are outside
//! collaborators that feed plain outcomes in and carry plain values out.

pub mod handler;
pub mod model;
