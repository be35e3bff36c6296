//! Data models shared by the rendering pipeline and its callers.
pub mod logo;
pub mod qr_code;
