//! Request resolution and conditional rendering for a gateway that serves
//! manual pages over HTTP.
//!
//! - [`resolve`]: finds the section of a bare page name, by its suffix or by
//!   probing candidate sections in a fixed priority order.
//! - [`pipeline`]: renders `/{section}/{name}.html`, answering 304 to fresh
//!   clients and redirecting aliases without formatting them.
//! - [`dates`]: HTTP dates in and out.
//! - [`reply`]: replies and failure statuses.
//!
//! Each step function returns what to do next; the caller performs that
//! input or output and hands the result to the next step.
pub mod dates;
pub mod pipeline;
pub mod reply;
pub mod resolve;
pub mod text;
