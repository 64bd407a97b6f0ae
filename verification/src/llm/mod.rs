pub mod honesty_gate;
pub mod tutor;
pub mod daemon_waker;
