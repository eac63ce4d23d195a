//! Adapter between a REST-style build cache client and the GitHub Actions
//! cache service.
//!
//! A cache client speaks plain HTTP: `HEAD`, `GET`, `PUT` and `DELETE` on a
//! path. Each request becomes exactly one operation against the cache backend,
//! and the backend's answer becomes a status code and, for `GET`, a body.

pub mod error;
pub mod ghac;
pub mod model;
pub mod policy;
pub mod verbs;
