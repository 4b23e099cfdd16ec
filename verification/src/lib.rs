//! The verified core of a small document-blending service.
//!
//! - [`ingress`]: the credential check at the entrance;
//! - [`staging`]: the in-memory store of uploaded documents, with the laws
//!   that hold of every order in which uploads and drains can reach it;
//! - [`blend`]: the decisions of one blend cycle, from the drain to the
//!   answer;
//! - [`todo`] and [`stuff`]: the two small resources served beside it;
//! - [`handlers`]: what each request does, the check first;
//! - [`headers`] and [`text`]: the calls into `hyper` and `std` that are
//!   taken on trust, and [`status`]: the statuses of the answers.
//!
//! Nothing here reads the environment, takes a lock or talks to the
//! network: the service around this library does, and hands in plain
//! values.

pub mod blend;
pub mod ingress;
pub mod handlers;
pub mod headers;
pub mod staging;
pub mod status;
pub mod stuff;
pub mod text;
pub mod todo;
