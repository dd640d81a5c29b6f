//! Storage service class provider for one association.
//!
//! A peer that performs a move operation pushes composite objects over an
//! association that has already been negotiated. This library holds the
//! decisions of the receiving side: how the fragments of a P-DATA PDU are
//! told apart and put together, how a storage request is read from a
//! command set, how the received object becomes a file with its meta group
//! and its name, what the response says, and how the association ends.
//!
//! The library performs no input or output. [`session::Session`] takes each
//! PDU as a value and answers with the actions that the caller has to
//! perform, in order. Data sets are decoded and encoded by the DICOM object
//! codec, behind the functions of [`codec`]. What holds of the loop as a
//! whole is stated and proved in [`laws`].

pub mod codec;
pub mod command;
pub mod error;
pub mod laws;
pub mod limits;
pub mod negotiation;
pub mod pdu;
pub mod session;
pub mod store;
pub mod uids;
