//! Orchestration and diagnostics around an external executable packer:
//! argument construction, invocation sequencing, output classification,
//! size reporting and candidate-file selection, each with a verified contract.

pub mod text;
pub mod size;
pub mod request;
pub mod args;
pub mod lines;
pub mod diagnostics;
pub mod failure;
pub mod invocation;
pub mod scan;
pub mod tool;
pub mod icons;
