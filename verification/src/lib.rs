//! The bookkeeping core of a position-based rigid-body and particle solver.
//!
//! Every number the solver works on is a binary32 value. This crate holds such
//! a value as its 32-bit encoding ([`scalar::Scalar`]) and decides everything
//! that does not need arithmetic on it: how a world is built from its
//! description, which bodies a constraint may move, in which order contacts
//! are looked for, when a solved frame is fit to be kept, and what a snapshot
//! of the world shows. The arithmetic itself is done by the embedding program
//! and handed in as plain values.

pub mod collider;
pub mod constraint;
pub mod contact;
pub mod motion;
pub mod particle;
pub mod read;
pub mod rigid_body;
pub mod run;
pub mod scalar;
pub mod shape;
pub mod vector;
pub mod world;
pub mod write;
