//! Fluxora: token streaming, a stream factory with treasury policy, and a
//! multi-signature governance module, modelled as verified state machines.

pub mod accrual;
pub mod address;
pub mod index;
pub mod stream_types;
pub mod stream;
pub mod stream_lifecycle;
pub mod stream_schedule;
pub mod stream_withdraw;
pub mod stream_batch;
pub mod stream_create;
pub mod stream_templates;
pub mod stream_admin;
pub mod stream_delegated;
pub mod factory;
pub mod governance;
pub mod stream_laws;
pub mod xdr;
