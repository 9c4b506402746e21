//! What holds of every run of a stream, whatever the caller sends it.
//!
//! A run is a sequence of events handed to a stream that starts idle. The
//! laws speak of the actions that the stream hands back over the whole run:
//! of the records among them, of the requests that open and close the
//! session, and of the exchange of requests and answers in between.

pub mod exchange;
pub mod records;
pub mod run;
pub mod session;
