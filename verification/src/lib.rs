//! The decisions of a program that shows how many bytes written to the stdin
//! of a pseudoconsole reach a bash running under WSL.

pub mod bash;
pub mod conpty;
pub mod count;
pub mod decimal;
pub mod heredoc;
pub mod number_laws;
pub mod pipe;
pub mod pump;
pub mod pump_laws;
pub mod report;
pub mod report_laws;
pub mod repro;
pub mod run_laws;
pub mod script_laws;
pub mod spawn;
pub mod status;
pub mod step_laws;
pub mod system_laws;
pub mod wide;
