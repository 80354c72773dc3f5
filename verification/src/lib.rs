//! Escrow engine for a freelance marketplace.
//!
//! A client opens a `Deal` against a freelancer's published `Gig`, funding an
//! escrow holding with the agreed offer plus a protocol fee.  The freelancer
//! accepts, and the engagement either completes — splitting the held funds
//! exactly among freelancer, optional referrer and treasury — or is cancelled
//! before acceptance, refunding the client in full.  Every transition and
//! every unit of escrowed funds is accounted for by the contracts here.

pub mod config;
pub mod deal;
pub mod errors;
pub mod fees;
pub mod gig;
pub mod registry;
