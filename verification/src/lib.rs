//! Layout of a chart on a rectangular canvas.
//!
//! A canvas is shrunk by its margins and by the rows a title takes, then split
//! into a central plot region and up to four label regions, one for each side.
//! The plot region is then bound to a two-axis coordinate system whose vertical
//! pixel range runs bottom-up.

pub mod area;
pub mod builder;
pub mod context;
pub mod coord;
pub mod label;
pub mod laws;
pub mod split;
pub mod style;

pub use area::Rect;
pub use builder::{ChartBuilder, LayoutError, LayoutRequest, Margin};
pub use context::{ChartContext, SeriesAnno};
pub use coord::{PlotArea, RangedCoord};
pub use label::{LabelAreaPosition, LabelAreaSpec, LabelAreas, LayoutResult};
pub use style::{RGBColor, TextStyle, Title};
