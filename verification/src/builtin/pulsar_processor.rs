//! A processor that sends each message to a Pulsar topic. Each instance's
//! Pulsar producer is named `<instance name>-<number>`, numbered by
//! `get_new_id`.

pub use crate::builtin::naming::get_new_id;
