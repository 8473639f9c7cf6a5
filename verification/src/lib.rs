use vstd::prelude::*;

pub mod archiver;
pub mod generator;
pub mod nats_utils;
pub mod relay;
pub mod server;
pub mod sse;
pub mod subject;
pub mod text;

verus! {
}
