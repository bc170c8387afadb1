//! Input-and-movement-intent layer for a 2D platformer client.
//!
//! Each engine frame, the host samples the keyboard and hands this library a
//! plain snapshot of the relevant keys; the library turns that snapshot into
//! semantic player intents: horizontal movement, jump request, fast-fall,
//! dash direction and dash trigger. It also decides the lifecycle of the
//! on-screen aim marker from the cursor's in-window state.

mod cursor;
mod dash;
mod keys;
mod movement;

pub use cursor::AimMarkerAction;
pub use cursor::CursorFrame;
pub use cursor::cursor_frame;
pub use dash::Dash;
pub use dash::DashDirection;
pub use dash::DashTimer;
pub use keys::KeySnapshot;
pub use keys::just_pressed;
pub use movement::Movement;
