pub mod capture;
pub mod sidecar_lifecycle;
