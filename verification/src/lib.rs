//! Telemetry sampler for a Kerberos key distribution daemon: the rules by
//! which probes are bound, counter tables are read and statistics are
//! published, stated and proved over plain values.

pub mod attach;
pub mod cycle;
pub mod probe;
pub mod sampler;
pub mod stat;
pub mod table;

pub use sampler::Krb5kdc;
