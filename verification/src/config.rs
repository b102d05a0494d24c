//! Options of DOT generation: layout, shapes, and default colours.
use vstd::prelude::*;

verus! {

/// The DOT shape of a node, by the kind of its entity.
#[derive(Clone, Debug)]
pub struct NodeShapeConfig {
    pub purpose: &'static str,
    pub person: &'static str,
    pub project: &'static str,
    pub production: &'static str,
    pub property: &'static str,
}

/// What contracts say of the shapes, with texts as sequences of characters.
pub struct NodeShapeView {
    pub purpose: Seq<char>,
    pub person: Seq<char>,
    pub project: Seq<char>,
    pub production: Seq<char>,
    pub property: Seq<char>,
}

impl View for NodeShapeConfig {
    type V = NodeShapeView;

    open spec fn view(&self) -> NodeShapeView {
        NodeShapeView {
            purpose: self.purpose@,
            person: self.person@,
            project: self.project@,
            production: self.production@,
            property: self.property@,
        }
    }
}

impl NodeShapeConfig {
    /// The shapes of the default configuration.
    pub open spec fn default_view() -> NodeShapeView {
        NodeShapeView {
            purpose: "ellipse"@,
            person: "box"@,
            project: "component"@,
            production: "cylinder"@,
            property: "folder"@,
        }
    }
}

impl Default for NodeShapeConfig {
    fn default() -> (shapes: Self)
        ensures
            shapes@ == NodeShapeConfig::default_view(),
    {
        NodeShapeConfig {
            purpose: "ellipse",
            person: "box",
            project: "component",
            production: "cylinder",
            property: "folder",
        }
    }
}

/// The fill colour of a node that sets none of its own: by kind, and for
/// projects and production systems by status.
#[derive(Clone, Debug)]
pub struct ColorConfig {
    pub purpose: &'static str,
    pub person: &'static str,
    pub project_planning: &'static str,
    pub project_active: &'static str,
    pub project_completed: &'static str,
    pub project_onhold: &'static str,
    pub production_operational: &'static str,
    pub production_maintenance: &'static str,
    pub production_degraded: &'static str,
    pub production_offline: &'static str,
    pub property: &'static str,
}

/// What contracts say of the colours, with texts as sequences of characters.
pub struct ColorView {
    pub purpose: Seq<char>,
    pub person: Seq<char>,
    pub project_planning: Seq<char>,
    pub project_active: Seq<char>,
    pub project_completed: Seq<char>,
    pub project_onhold: Seq<char>,
    pub production_operational: Seq<char>,
    pub production_maintenance: Seq<char>,
    pub production_degraded: Seq<char>,
    pub production_offline: Seq<char>,
    pub property: Seq<char>,
}

impl View for ColorConfig {
    type V = ColorView;

    open spec fn view(&self) -> ColorView {
        ColorView {
            purpose: self.purpose@,
            person: self.person@,
            project_planning: self.project_planning@,
            project_active: self.project_active@,
            project_completed: self.project_completed@,
            project_onhold: self.project_onhold@,
            production_operational: self.production_operational@,
            production_maintenance: self.production_maintenance@,
            production_degraded: self.production_degraded@,
            production_offline: self.production_offline@,
            property: self.property@,
        }
    }
}

impl ColorConfig {
    /// The colours of the default configuration.
    pub open spec fn default_view() -> ColorView {
        ColorView {
            purpose: "lightblue"@,
            person: "lightgreen"@,
            project_planning: "lightyellow"@,
            project_active: "lightcyan"@,
            project_completed: "lightgray"@,
            project_onhold: "orange"@,
            production_operational: "green"@,
            production_maintenance: "yellow"@,
            production_degraded: "orange"@,
            production_offline: "red"@,
            property: "wheat"@,
        }
    }
}

impl Default for ColorConfig {
    fn default() -> (colors: Self)
        ensures
            colors@ == ColorConfig::default_view(),
    {
        ColorConfig {
            purpose: "lightblue",
            person: "lightgreen",
            project_planning: "lightyellow",
            project_active: "lightcyan",
            project_completed: "lightgray",
            project_onhold: "orange",
            production_operational: "green",
            production_maintenance: "yellow",
            production_degraded: "orange",
            production_offline: "red",
            property: "wheat",
        }
    }
}

/// The options of one rendering.
#[derive(Clone, Debug)]
pub struct DotConfig {
    /// Group the entities into one cluster per kind. Used only where the
    /// tiered layout is off.
    pub use_subgraphs: bool,
    /// The direction of the graph: `TB`, `LR`, `BT` or `RL`.
    pub rankdir: &'static str,
    /// Append the status to the labels of projects and production systems.
    pub show_status: bool,
    pub node_shapes: NodeShapeConfig,
    pub colors: ColorConfig,
    /// Arrange the entities in tiers. Takes precedence over `use_subgraphs`.
    pub use_hierarchical_layout: bool,
    /// Open the document with the fixed header of the organization template
    /// in place of the one that carries the name and direction.
    pub use_template_mode: bool,
}

/// What contracts say of the options of a rendering, with texts as sequences of characters.
pub struct DotConfigView {
    pub use_subgraphs: bool,
    pub rankdir: Seq<char>,
    pub show_status: bool,
    pub node_shapes: NodeShapeView,
    pub colors: ColorView,
    pub use_hierarchical_layout: bool,
    pub use_template_mode: bool,
}

impl View for DotConfig {
    type V = DotConfigView;

    open spec fn view(&self) -> DotConfigView {
        DotConfigView {
            use_subgraphs: self.use_subgraphs,
            rankdir: self.rankdir@,
            show_status: self.show_status,
            node_shapes: self.node_shapes@,
            colors: self.colors@,
            use_hierarchical_layout: self.use_hierarchical_layout,
            use_template_mode: self.use_template_mode,
        }
    }
}

impl DotConfig {
    /// The default configuration: tiered layout, top to bottom, with status.
    pub open spec fn default_view() -> DotConfigView {
        DotConfigView {
            use_subgraphs: true,
            rankdir: "TB"@,
            show_status: true,
            node_shapes: NodeShapeConfig::default_view(),
            colors: ColorConfig::default_view(),
            use_hierarchical_layout: true,
            use_template_mode: false,
        }
    }
}

impl Default for DotConfig {
    fn default() -> (config: Self)
        ensures
            config@ == DotConfig::default_view(),
    {
        DotConfig {
            use_subgraphs: true,
            rankdir: "TB",
            show_status: true,
            node_shapes: NodeShapeConfig::default(),
            colors: ColorConfig::default(),
            use_hierarchical_layout: true,
            use_template_mode: false,
        }
    }
}

} // verus!
