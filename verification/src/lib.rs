//! Identity, distance-metric, error-taxonomy and wire-encoding core of a
//! peer-to-peer overlay routing layer.
//!
//! The crate provides four components: a fixed-width address type
//! ([`name_type::NameType`]) with an XOR proximity metric, a three-tier error
//! taxonomy ([`error`]), a tagged binary wire envelope ([`wire`]), and an
//! example network record that composes the three ([`put_data_response`]).

pub mod error;
pub mod name_type;
pub mod put_data_response;
pub mod wire;
