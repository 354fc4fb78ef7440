//! Checkout planning and execution.
//!
//! A structural diff between two versions of a directory tree is classified
//! into a [`plan::CheckoutPlan`]: files to remove, files whose content must be
//! rewritten, and files that only need their executable bit flipped. The
//! [`engine::Engine`] then decides, step by step, which of those actions to
//! hand out next, while it keeps the number of operations in flight bounded,
//! gives up at the first failure, and hands over the progress counters only
//! once everything is done.
//!
//! The engine is a state machine. [`machine`] defines it over mathematical
//! values; [`machine_laws`] and [`order_laws`] state what holds of every
//! checkout; [`plan_laws`] states what holds of every plan; and [`tree`]
//! shows that the plan of a diff, carried out, turns the left tree of the
//! diff into the right one.
//!
//! Beside the checkout stand a few small pieces that decide for code which
//! talks to the outside: [`disabled`], a blobstore that is switched off;
//! [`retry`], when a failed query is sent again; and [`sendfd`], what is sent
//! and done when file descriptors pass between processes.

pub mod disabled;
pub mod engine;
pub mod machine;
pub mod machine_laws;
pub mod order_laws;
pub mod plan;
pub mod plan_laws;
pub mod retry;
pub mod sendfd;
pub mod stats;
pub mod tree;
pub mod types;
pub mod window;
