//! A resumable interpreter for declarative browser-automation scripts.
//!
//! A script is a list of [`WebCommand`]s. The interpreter never talks to a
//! browser itself: it hands out one [`Action`] at a time, the caller performs
//! it on its browser session and hands back a [`Reply`], and the interpreter
//! decides what happens next.
//!
//! ```text
//! let (mut run, mut action) = Interpreter::start(&script);
//! while !matches!(action, Action::Finish { .. }) {
//!     let reply = session.perform(action);
//!     (run, action) = run.resume(reply);
//! }
//! ```
//!
//! The modules, from the ground up:
//!
//! - [`command`], [`session`], [`error`]: the vocabulary of scripts, of the
//!   conversation with the session, and of failure;
//! - [`protocol`]: what one command says to the session;
//! - [`machine`]: the state machine that runs lists and loops of commands;
//! - [`semantics`]: what a run is, told without a machine, and the proof
//!   that the machine does just that;
//! - [`laws`]: what holds of every run;
//! - [`interpreter`]: the executable interpreter, proved to move as the
//!   machine does.

pub mod command;
pub mod error;
pub mod interpreter;
pub mod laws;
pub mod machine;
pub mod protocol;
pub mod semantics;
pub mod session;

pub use command::{CommandType, Seconds, WebCommand};
pub use error::{ErrorKind, RunError, SessionError};
pub use interpreter::Interpreter;
pub use session::{Action, ElementHandle, Reply};
