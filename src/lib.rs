//! Per-node accelerator health detection and isolation decisions.
//!
//! The library holds the verified core of the agent: the detection tiers
//! (as functions from device observations to detection results), the
//! per-device health state machine, the scheduler's dispatch decisions, the
//! healer's plans, configuration, and the grammars of the vendor tools'
//! output (`npu-smi` tables, kernel XID records, device logs, process lists).
pub mod text;
pub mod clock;
pub mod device;
pub mod detection;
pub mod detectors;
pub mod state_machine;
pub mod health_manager;
pub mod laws;
pub mod healing;
pub mod scheduler;
pub mod node_ops;
pub mod config;
pub mod mock;
pub mod ascend;
pub mod xid;
pub mod scan;
pub mod dmesg;
pub mod npu_smi;
pub mod device_log;
pub mod procs;
