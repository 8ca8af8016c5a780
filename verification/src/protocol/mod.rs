//! The two wire formats: JSON envelopes on the Ext lane and compact binary
//! frames on the Hot lane.

pub mod hot;
pub mod text;
