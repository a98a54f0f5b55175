//! License checking for the VideoPOS desktop shell: the license record, its
//! expiry rule, the license server's request and reply formats, the
//! validity check as a state machine, and the small decisions of start-up.

pub mod api;
pub mod clock;
pub mod json;
pub mod license;
pub mod manager;
pub mod network;
pub mod startup;
pub mod text;
pub mod validity;
