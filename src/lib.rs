//! The decisions behind a set of custom-drawn widgets for an immediate-mode interface: the
//! colors of buttons, switches, tab bars and server rows, the state of switches, dropdowns
//! and tab bars from frame to frame, and the lists, flags and labels of a server selector.
//! Painting, layout and input are left to the host interface.
pub mod button;
pub mod color;
pub mod dropdown;
pub mod exit_selector;
pub mod switch;
pub mod tab_bar;
pub mod text;

pub use button::{derive_style, Button, ButtonLook, ButtonSize, ButtonStyle, ButtonVariant};
pub use color::{disable_color, hsl_to_rgb, increase_opacity, Color, Stroke};
pub use dropdown::{Dropdown, DropdownEvents, DropdownOutcome};
pub use exit_selector::{
    load_percent, load_to_color, numerify, to_flag, ExitDescriptor, ExitSelector, Tier, TierBadge,
};
pub use switch::Switch;
pub use tab_bar::{TabBar, TabBarItem};
