//! The messages that go to the broker and come from it.

pub mod device_state;
pub mod lookup;
pub mod publish;
pub mod session;
pub mod z2m;
