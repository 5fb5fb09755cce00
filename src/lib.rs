//! A small planar polygon kernel: rings of points and three polygon
//! variants (simple, with holes, convex) with their conversions and
//! construction from loosely shaped coordinate data.
pub mod error;
pub mod from_points;
pub mod order;
pub mod path;
pub mod polygon;
pub mod ring;
pub mod tolerance;

pub use error::GeometryError;
pub use from_points::{FromPoint, FromPoints};
pub use polygon::{ConvexPolygon, SimplePolygon, SinglePolygon};
pub use order::lexicographic;
pub use path::{point_list_plan, point_lists_plan, polygon_plan, DrawPlan, PathCommand};
pub use ring::{coordinate_pairs, coordinate_rings, copy_ring};
pub use tolerance::AlmostEqual;
