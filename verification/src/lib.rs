//! A client for the FOAAS phrase service with the network left out.
//!
//! A call is one `GET` on `https://foaas.com/<path>/<arg>/...` that asks for
//! JSON, followed by reading a two-field reply. This crate holds every
//! decision of such a call: which URL a route and its arguments make, which
//! reply status lets the body count, and what response the caller is handed,
//! a failure included. Sending the request and decoding the body are left to
//! the caller, who passes in what came of them.

pub mod endpoint;
pub mod exchange;
pub mod failure;
pub mod response;
pub mod routes;
pub mod status;

pub use endpoint::{render, Route, ACCEPT, ACCEPT_JSON, HOST};
pub use exchange::{check_status, decoded};
pub use failure::Failure;
pub use response::{get_message, report, ApiResponse};
pub use routes::{
    absolutely, anyway, asshole, awesome, back, bag, ballmer, bday, because, blackadder, bm,
    bucket, bus, bye, caniuse, chainsaw, cocksplat, cool, cup, dalton, dense, deraadt, diabetes,
    do_something, donut, dumbledore, equity, even, everyone, everything, family, fascinating,
    fewer, field, flying, ftfy, fts, fyyff, gfy, give, greed, holy_grail, horse, idea,
    immensity, ing, jingle_bells, keep, keep_calm, king, legend, life, linus, logs, look,
    looking, low_poly, madison, maybe, me, mornin, no, nugget, off, off_with, outside,
    particular, pink, problem, programmer, pulp, question, rats_arse, retard, ridiculous,
    rockstar, rtfm, sake, shakespeare, shit, shutup, single, thanks, that, think, thinking,
    this, thumbs, too, tucker, understand, waste, what, xmas, yeah, yoda, you, zayn, zero,
};
pub use status::Status;
