//! An organization as a graph of typed entities and relationships, and its
//! rendering as a DOT document.
//!
//! The model lives in [`model`] and [`weight`], the options of a rendering in
//! [`config`]. [`style`] resolves what each node and edge is drawn with,
//! [`dot`] writes the document. [`render`] and [`storage`] are the interfaces
//! to the two collaborators of a host application: the engine that draws a
//! DOT document and the place where documents are kept.
pub mod config;
pub mod dot;
pub mod entity_map;
pub mod model;
pub mod render;
pub mod storage;
pub mod style;
pub mod text;
pub mod weight;

pub use config::{ColorConfig, DotConfig, NodeShapeConfig};
pub use entity_map::EntityMap;
pub use model::{
    DisplayAttributes, EdgeDisplayAttributes, EntityType, NodesByType, Organization, Person,
    ProductionSystem, ProgressMetric, Project, ProjectStatus, PropertyItem, PropertyType, Purpose,
    RelationType, Relationship, SystemStatus, ID,
};
pub use render::{Error, ErrorInfo, ErrorLevel, GVizProvider, GraphVizable, RenderError};
pub use storage::{PlatformStorage, StorageProvider};
pub use weight::EdgeWeight;
