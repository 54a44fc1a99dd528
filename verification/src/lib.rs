//! A broker for virtual Xbox-360-style game controllers.
//!
//! Remote devices drive virtual pads on a host machine: each live remote
//! connection owns one pad, identified by a small reusable integer ID.
//! This crate holds the verified core of that service: the reusable ID
//! pool, the session broker that applies requests strictly in order, the
//! pad state and its fixed-layout driver report, the driver error kinds,
//! and the pure parts of the surrounding web plumbing (the WebSocket
//! accept key and the QR-code image for the connection page).

pub mod broker;
pub mod buttons;
pub mod error;
pub mod handshake;
pub mod pool;
pub mod qr;
pub mod state;
pub mod target;

pub use broker::Broker;
pub use broker::PadRequest;
pub use buttons::X360Buttons;
pub use error::Error;
pub use pool::IdPool;
pub use state::X360NotificationData;
pub use state::X360State;
pub use state::XusbReport;
pub use target::Client;
pub use target::NotificationHandle;
pub use target::Target;
pub use target::X360;
