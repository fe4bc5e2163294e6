//! A retained-mode 2D scene model for a UI toolkit: geometry, drawing
//! primitives, the painter's context that projects them into device pixels,
//! the glyph cache and atlas allocator, and the batching rules that a
//! renderer backend follows. Around that core: accessibility data, cheap
//! strings, and the decisions of the debugging server and its client.
//!
//! Coordinates and colors are generic over their scalar. The library does
//! arithmetic through the scalar's operators and states results exactly for
//! scalars whose operators are specified, such as the primitive integers.

pub mod accessibility;
pub mod arc_str;
pub mod atlas;
pub mod cache;
pub mod cli;
pub mod color;
pub mod context;
pub mod debug;
pub mod elements;
pub mod geometry;
pub mod glyph;
pub mod renderer;
pub mod scene;
pub mod shared_string;
pub mod text;

pub use accessibility::AccessId;
pub use accessibility::AccessNode;
pub use accessibility::AccessRole;
pub use accessibility::AccessTree;
pub use accessibility::FocusManager;
pub use arc_str::ArcStr;
pub use atlas::AtlasRegion;
pub use atlas::GlyphAtlas;
pub use atlas::Placement;
pub use cache::GlyphCache;
pub use cache::RasterizedGlyph;
pub use color::Srgba;
pub use context::DrawContext;
pub use geometry::Axis;
pub use geometry::Corners;
pub use geometry::DevicePixels;
pub use geometry::DevicePoint;
pub use geometry::DeviceRect;
pub use geometry::DeviceSize;
pub use geometry::Edges;
pub use geometry::LogicalPixels;
pub use geometry::Point;
pub use geometry::Rect;
pub use geometry::ScaleFactor;
pub use geometry::Size;
pub use geometry::Vector;
pub use glyph::GlyphKey;
pub use linebender_resource_handle::FontData;
pub use renderer::DebugRenderer;
pub use renderer::QuadInstance;
pub use renderer::Renderer;
pub use scene::GlyphInstance;
pub use scene::Quad;
pub use scene::Scene;
pub use scene::TextRun;
pub use shared_string::SharedString;
pub use text::GlyphRun;
pub use text::GlyphRunWithFont;
pub use text::PositionedGlyph;
pub use text::TextLayout;
