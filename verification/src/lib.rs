//! Foundational 2D geometric primitives: coordinates, point sequences,
//! axis-aligned bounding rectangles, and the winding order (clockwise or
//! counter-clockwise) of closed rings, with verified contracts for each
//! operation.

pub mod coordinate;
pub mod line_string;
pub mod rect;
pub mod winding_order;

pub use coordinate::Coordinate;
pub use coordinate::Point;
pub use line_string::LineString;
pub use rect::Rect;
pub use winding_order::Points;
pub use winding_order::Winding;
pub use winding_order::WindingOrder;
