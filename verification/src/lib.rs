//! Compositional core of a terminal-oriented ASCII rendering engine:
//! drawable elements that emit styled character positions, containers for
//! composing and toggling such elements, and collision queries over their
//! emitted positions.

pub mod colchar;
pub mod colour;
pub mod containers;
pub mod element;
pub mod modifier;
pub mod point;
pub mod utils;
pub mod vec2d;

pub use colchar::ColChar;
pub use colour::Colour;
pub use containers::{CollisionContainer, PixelContainer, VisibilityToggle};
pub use element::ViewElement;
pub use modifier::Modifier;
pub use point::Point;
pub use vec2d::Vec2D;
