//! Orchestration core of the Apollo assistant.
//!
//! The crate decides; it performs no I/O. A query is classified, handlers are
//! selected and their outcomes are collected into one response; a strategy is
//! executed action by action with failures isolated; a portfolio is watched for
//! drift. Wherever the work needs a handler, a venue or the profile store, the
//! library hands out the next request and takes the outcome back as an event.
//!
//! Amounts of money are whole cents, weights are parts per million and
//! confidences are basis points, so that every rule is exact.
//!
//! - [`router`] classifies a query, selects its agents and synthesizes the response.
//! - [`dispatch`] says which handler to invoke next and isolates failures.
//! - [`executor`] chooses the venue call for an action.
//! - [`engine`] executes a strategy and reports on it.
//! - [`monitor`] measures drift and decides on rebalancing.
//! - [`generator`] sets holdings against a target and plans the actions.
//! - [`running`] keeps two executions of one strategy apart.
//! - [`agents`], [`strategy`], [`profile`], [`plaid`] hold the data.
//! - [`text`] and [`opaque`] hold what is taken on trust from outside.

pub mod agents;
pub mod dispatch;
pub mod engine;
pub mod executor;
pub mod generator;
pub mod monitor;
pub mod opaque;
pub mod plaid;
pub mod profile;
pub mod router;
pub mod running;
pub mod strategy;
pub mod text;
