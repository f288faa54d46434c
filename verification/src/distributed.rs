//! Distributed coordination: TiKV configuration, errors and the circuit
//! breaker that guards calls to the cluster.

pub mod tikv;
