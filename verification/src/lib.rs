//! A verified core for an immediate-mode combo box: a single-line text field
//! paired with a filterable, clickable suggestion popup.
//!
//! Each frame the control is rebuilt from caller-owned data; all cross-frame
//! state (focus, popup visibility, cursor) lives in the host's retained
//! store, addressed by the popup identity. The library decides, per frame,
//! which rows are shown, what a click commits to the text buffer, and what
//! the control asks of the host; the host performs the rendering.

pub mod dropdown;
pub mod filter;
pub mod identity;
