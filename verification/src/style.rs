//! Resolution of the attributes that a node or an edge is drawn with: what the
//! entity sets itself comes first, then the defaults of its status and kind.
use crate::config::{DotConfig, DotConfigView};
use crate::entity_map::lookup;
use crate::model::{
    DisplayAttributes, DisplayView, EntityType, Organization, OrganizationView, Person,
    PersonView, ProductionSystem, ProductionSystemView, ProgressMetric, ProgressMetricView,
    Project, ProjectStatus, ProjectView, PropertyItem, PropertyItemView, Purpose, PurposeView,
    Relationship, RelationshipView, SystemStatus,
};
use crate::text::{has_infix, truncate, truncate_seq};
use crate::weight::{opt_weight, EdgeWeight};
use vstd::prelude::*;

verus! {

/// The attributes of one node statement, before escaping.
#[derive(Clone, Debug)]
pub struct NodeAttributes {
    pub label: String,
    pub shape: &'static str,
    pub fillcolor: String,
}

/// What contracts say of the attributes of a node statement, with texts as sequences of characters.
pub struct NodeAttributesView {
    pub label: Seq<char>,
    pub shape: Seq<char>,
    pub fillcolor: Seq<char>,
}

impl View for NodeAttributes {
    type V = NodeAttributesView;

    open spec fn view(&self) -> NodeAttributesView {
        NodeAttributesView { label: self.label@, shape: self.shape@, fillcolor: self.fillcolor@ }
    }
}

/// The attributes of one edge statement, before escaping.
#[derive(Clone, Debug)]
pub struct EdgeAttributes {
    pub label: &'static str,
    pub style: String,
    pub color: String,
    pub xlabel: Option<String>,
    pub weight: Option<EdgeWeight>,
}

/// What contracts say of the attributes of an edge statement, with texts as
/// sequences of characters.
pub struct EdgeAttributesView {
    pub label: Seq<char>,
    pub style: Seq<char>,
    pub color: Seq<char>,
    pub xlabel: Option<Seq<char>>,
    pub weight: Option<Seq<char>>,
}

impl View for EdgeAttributes {
    type V = EdgeAttributesView;

    open spec fn view(&self) -> EdgeAttributesView {
        EdgeAttributesView {
            label: self.label@,
            style: self.style@,
            color: self.color@,
            xlabel: crate::model::opt_text(self.xlabel),
            weight: opt_weight(self.weight),
        }
    }
}

/// The longest purpose label that is not cut.
pub const PURPOSE_LABEL_MAX: usize = 30;

/// The text that an entity sets itself, or else the fallback.
pub open spec fn own_or(own: Option<Seq<char>>, fallback: Seq<char>) -> Seq<char> {
    match own {
        Some(text) => text,
        None => fallback,
    }
}

/// A status in square brackets, as shown in labels.
pub open spec fn status_tag(status_name: Seq<char>) -> Seq<char> {
    "["@ + status_name + "]"@
}

/// A label with the status below it where the configuration shows statuses.
pub open spec fn with_status(base: Seq<char>, status_name: Seq<char>, show_status: bool) -> Seq<
    char,
> {
    if show_status {
        base + "\n"@ + status_tag(status_name)
    } else {
        base
    }
}

/// The label of a person: the name, and the title below it where there is one.
pub open spec fn person_caption(name: Seq<char>, title: Seq<char>) -> Seq<char> {
    if title.len() == 0 {
        name
    } else {
        name + "\n"@ + title
    }
}

/// The default fill colour of a project, by its status.
pub open spec fn project_status_color(status: ProjectStatus, config: DotConfigView) -> Seq<char> {
    match status {
        ProjectStatus::Planning => config.colors.project_planning,
        ProjectStatus::Active => config.colors.project_active,
        ProjectStatus::Completed => config.colors.project_completed,
        ProjectStatus::OnHold => config.colors.project_onhold,
    }
}

/// The default fill colour of a production system, by its status.
pub open spec fn system_status_color(status: SystemStatus, config: DotConfigView) -> Seq<char> {
    match status {
        SystemStatus::Operational => config.colors.production_operational,
        SystemStatus::Maintenance => config.colors.production_maintenance,
        SystemStatus::Degraded => config.colors.production_degraded,
        SystemStatus::Offline => config.colors.production_offline,
    }
}

/// The fill colour of a progress metric that sets none.
pub open spec fn progress_default_color() -> Seq<char> {
    "lightblue"@
}

/// The label of a purpose: its own label or else its description, cut to 30
/// characters.
pub open spec fn purpose_label(p: PurposeView) -> Seq<char> {
    own_or(p.display.label_override, truncate_seq(p.description, PURPOSE_LABEL_MAX as nat))
}

/// The label of a person: its own label or else the name, with the title
/// below it where there is one.
pub open spec fn person_label(p: PersonView) -> Seq<char> {
    own_or(p.display.label_override, person_caption(p.name, p.title))
}

/// The label of a project: its own label or else its name, with the status
/// below where statuses are shown.
pub open spec fn project_label(p: ProjectView, show_status: bool) -> Seq<char> {
    with_status(own_or(p.display.label_override, p.name), p.status.name_text(), show_status)
}

/// The label of a production system: its own label or else its name, with
/// the status below where statuses are shown.
pub open spec fn production_label(s: ProductionSystemView, show_status: bool) -> Seq<char> {
    with_status(own_or(s.display.label_override, s.name), s.status.name_text(), show_status)
}

/// The label of a property item: its own label or else its name.
pub open spec fn property_label(item: PropertyItemView) -> Seq<char> {
    own_or(item.display.label_override, item.name)
}

/// The label of a progress metric: its own label or else its name.
pub open spec fn progress_label(metric: ProgressMetricView) -> Seq<char> {
    own_or(metric.display.label_override, metric.name)
}

/// What the node of a purpose is drawn with. The label is the purpose's own
/// label or else its description cut to 30 characters; the colour is its own
/// or else that of purposes.
pub open spec fn purpose_attributes(p: PurposeView, config: DotConfigView) -> NodeAttributesView {
    NodeAttributesView {
        label: purpose_label(p),
        shape: config.node_shapes.purpose,
        fillcolor: own_or(p.display.color, config.colors.purpose),
    }
}

/// What the node of a person is drawn with. The label is the person's own
/// label or else name and title; the colour is its own or else that of people.
pub open spec fn person_attributes(p: PersonView, config: DotConfigView) -> NodeAttributesView {
    NodeAttributesView {
        label: person_label(p),
        shape: config.node_shapes.person,
        fillcolor: own_or(p.display.color, config.colors.person),
    }
}

/// What the node of a project is drawn with. The label is the project's own
/// label or else its name, with the status below where statuses are shown;
/// the colour is its own or else that of its status.
pub open spec fn project_attributes(p: ProjectView, config: DotConfigView) -> NodeAttributesView {
    NodeAttributesView {
        label: project_label(p, config.show_status),
        shape: config.node_shapes.project,
        fillcolor: own_or(p.display.color, project_status_color(p.status, config)),
    }
}

/// What the node of a production system is drawn with. The label is the
/// system's own label or else its name, with the status below where statuses
/// are shown; the colour is its own or else that of its status.
pub open spec fn production_attributes(
    s: ProductionSystemView,
    config: DotConfigView,
) -> NodeAttributesView {
    NodeAttributesView {
        label: production_label(s, config.show_status),
        shape: config.node_shapes.production,
        fillcolor: own_or(s.display.color, system_status_color(s.status, config)),
    }
}

/// What the node of a property item is drawn with. The label is the item's
/// own label or else its name; the colour is its own or else that of property.
pub open spec fn property_attributes(
    item: PropertyItemView,
    config: DotConfigView,
) -> NodeAttributesView {
    NodeAttributesView {
        label: property_label(item),
        shape: config.node_shapes.property,
        fillcolor: own_or(item.display.color, config.colors.property),
    }
}

/// What the node of a progress metric is drawn with. The label is the
/// metric's own label or else its name; the shape is that of people; the
/// colour is its own or else a fixed one.
pub open spec fn progress_attributes(
    metric: ProgressMetricView,
    config: DotConfigView,
) -> NodeAttributesView {
    NodeAttributesView {
        label: progress_label(metric),
        shape: config.node_shapes.person,
        fillcolor: own_or(metric.display.color, progress_default_color()),
    }
}

/// What the edge of a relationship is drawn with. The label names the kind
/// of the relation; the style is the edge's own or else solid, the colour its
/// own or else black; its own label and weight are kept as they are.
pub open spec fn edge_attributes(rel: RelationshipView) -> EdgeAttributesView {
    EdgeAttributesView {
        label: rel.predicate.name_text(),
        style: own_or(rel.display.style, "solid"@),
        color: own_or(rel.display.color, "black"@),
        xlabel: rel.display.label,
        weight: rel.display.weight,
    }
}

/// Label truncation: a purpose that sets no label of its own and whose
/// description has more than 30 characters is labelled with the first 27 of
/// them and `...`, 30 characters in all; one whose description has at most 30
/// characters is labelled with the description unchanged.
pub proof fn lemma_purpose_label_truncated(p: PurposeView, config: DotConfigView)
    requires
        p.display.label_override is None,
    ensures
        p.description.len() > 30 ==> {
            let label = purpose_attributes(p, config).label;
            &&& label.len() == 30
            &&& label.take(27) == p.description.take(27)
            &&& label.skip(27) == "..."@
        },
        p.description.len() <= 30 ==> purpose_attributes(p, config).label == p.description,
{
    reveal_strlit("...");
    if p.description.len() > 30 {
        let label = purpose_attributes(p, config).label;
        assert(label =~= p.description.take(27) + "..."@);
        assert(label.take(27) =~= p.description.take(27));
        assert(label.skip(27) =~= "..."@);
    }
}

/// A label with the status shown holds the status in square brackets.
pub proof fn lemma_status_tag_shown(base: Seq<char>, status_name: Seq<char>)
    ensures
        has_infix(with_status(base, status_name, true), status_tag(status_name)),
{
    reveal_strlit("\n");
    let label = with_status(base, status_name, true);
    let tag = status_tag(status_name);
    let at = base.len() as int + 1;
    assert(label.subrange(at, at + tag.len()) =~= tag);
}

/// Status toggling for projects: with statuses shown the label holds the
/// project's status in square brackets, whatever the status; with statuses
/// hidden the label is the project's own label or name and nothing else, so
/// it holds the bracketed status only where that text does.
pub proof fn lemma_project_status_toggle(p: ProjectView, config: DotConfigView)
    ensures
        config.show_status ==> has_infix(
            project_attributes(p, config).label,
            status_tag(p.status.name_text()),
        ),
        !config.show_status ==> project_attributes(p, config).label == own_or(
            p.display.label_override,
            p.name,
        ),
        !config.show_status && !has_infix(
            own_or(p.display.label_override, p.name),
            status_tag(p.status.name_text()),
        ) ==> !has_infix(project_attributes(p, config).label, status_tag(p.status.name_text())),
{
    lemma_status_tag_shown(own_or(p.display.label_override, p.name), p.status.name_text());
}

/// Status toggling for production systems: with statuses shown the label
/// holds the system's status in square brackets, whatever the status; with
/// statuses hidden the label is the system's own label or name and nothing
/// else, so it holds the bracketed status only where that text does.
pub proof fn lemma_production_status_toggle(s: ProductionSystemView, config: DotConfigView)
    ensures
        config.show_status ==> has_infix(
            production_attributes(s, config).label,
            status_tag(s.status.name_text()),
        ),
        !config.show_status ==> production_attributes(s, config).label == own_or(
            s.display.label_override,
            s.name,
        ),
        !config.show_status && !has_infix(
            own_or(s.display.label_override, s.name),
            status_tag(s.status.name_text()),
        ) ==> !has_infix(production_attributes(s, config).label, status_tag(s.status.name_text())),
{
    lemma_status_tag_shown(own_or(s.display.label_override, s.name), s.status.name_text());
}

/// Whether a configuration gives the four project statuses four different
/// colours.
pub open spec fn project_colors_distinct(config: DotConfigView) -> bool {
    forall|a: ProjectStatus, b: ProjectStatus|
        a != b ==> #[trigger] project_status_color(a, config) != #[trigger] project_status_color(
            b,
            config,
        )
}

/// Whether a configuration gives the four system statuses four different
/// colours.
pub open spec fn system_colors_distinct(config: DotConfigView) -> bool {
    forall|a: SystemStatus, b: SystemStatus|
        a != b ==> #[trigger] system_status_color(a, config) != #[trigger] system_status_color(
            b,
            config,
        )
}

/// Default colour of a project: one that sets no colour of its own is filled
/// with the colour that the configuration gives to its status and, where the
/// configuration keeps the statuses apart, with the colour of no other status.
pub proof fn lemma_project_default_color(
    p: ProjectView,
    config: DotConfigView,
    other: ProjectStatus,
)
    requires
        p.display.color is None,
    ensures
        project_attributes(p, config).fillcolor == project_status_color(p.status, config),
        project_colors_distinct(config) && other != p.status ==> project_attributes(
            p,
            config,
        ).fillcolor != project_status_color(other, config),
{
}

/// Default colour of a production system: one that sets no colour of its own
/// is filled with the colour that the configuration gives to its status and,
/// where the configuration keeps the statuses apart, with the colour of no
/// other status.
pub proof fn lemma_production_default_color(
    s: ProductionSystemView,
    config: DotConfigView,
    other: SystemStatus,
)
    requires
        s.display.color is None,
    ensures
        production_attributes(s, config).fillcolor == system_status_color(s.status, config),
        system_colors_distinct(config) && other != s.status ==> production_attributes(
            s,
            config,
        ).fillcolor != system_status_color(other, config),
{
}

/// The default configuration keeps the statuses apart: no two project
/// statuses and no two system statuses share a colour.
pub proof fn lemma_default_colors_distinct()
    ensures
        project_colors_distinct(DotConfig::default_view()),
        system_colors_distinct(DotConfig::default_view()),
{
    reveal_strlit("lightyellow");
    reveal_strlit("lightcyan");
    reveal_strlit("lightgray");
    reveal_strlit("orange");
    reveal_strlit("green");
    reveal_strlit("yellow");
    reveal_strlit("red");
    let config = DotConfig::default_view();
    assert("lightyellow"@.len() == 11 && "lightcyan"@.len() == 9 && "orange"@.len() == 6);
    assert("lightcyan"@[5] == 'c' && "lightgray"@[5] == 'g');
    assert("green"@.len() == 5 && "yellow"@.len() == 6 && "red"@.len() == 3);
    assert("yellow"@[0] == 'y' && "orange"@[0] == 'o');
    assert forall|a: ProjectStatus, b: ProjectStatus| a != b implies #[trigger] project_status_color(
        a,
        config,
    ) != #[trigger] project_status_color(b, config) by {}
    assert forall|a: SystemStatus, b: SystemStatus| a != b implies #[trigger] system_status_color(
        a,
        config,
    ) != #[trigger] system_status_color(b, config) by {}
}

/// The text that an entity sets itself, or else the fallback.
pub fn text_or(own: &Option<String>, fallback: &str) -> (text: String)
    ensures
        text@ == own_or(crate::model::opt_text(*own), fallback@),
{
    match own {
        Some(t) => t.clone(),
        None => String::from_str(fallback),
    }
}

/// Appends the status suffix to a label where the configuration asks for it.
fn append_status(label: String, status_name: &str, show_status: bool) -> (out: String)
    ensures
        out@ == with_status(label@, status_name@, show_status),
{
    let mut out = label;
    if show_status {
        let mut tag = String::from_str("[");
        tag.append(status_name);
        tag.append("]");
        out.append("\n");
        out.append(tag.as_str());
    }
    out
}

impl Purpose {
    /// The label of the purpose.
    pub fn label(&self) -> (label: String)
        ensures
            label@ == purpose_label(self@),
    {
        match &self.display.label_override {
            Some(l) => l.clone(),
            None => truncate(self.description.as_str(), PURPOSE_LABEL_MAX),
        }
    }
}

impl Person {
    /// The label of the person.
    pub fn label(&self) -> (label: String)
        ensures
            label@ == person_label(self@),
    {
        match &self.display.label_override {
            Some(l) => l.clone(),
            None => {
                let mut caption = self.name.clone();
                if !self.title.as_str().is_empty() {
                    caption.append("\n");
                    caption.append(self.title.as_str());
                }
                caption
            },
        }
    }
}

impl Project {
    /// The label of the project, with or without its status.
    pub fn label(&self, show_status: bool) -> (label: String)
        ensures
            label@ == project_label(self@, show_status),
    {
        let base = text_or(&self.display.label_override, self.name.as_str());
        append_status(base, self.status.name(), show_status)
    }
}

impl ProductionSystem {
    /// The label of the production system, with or without its status.
    pub fn label(&self, show_status: bool) -> (label: String)
        ensures
            label@ == production_label(self@, show_status),
    {
        let base = text_or(&self.display.label_override, self.name.as_str());
        append_status(base, self.status.name(), show_status)
    }
}

impl PropertyItem {
    /// The label of the property item.
    pub fn label(&self) -> (label: String)
        ensures
            label@ == property_label(self@),
    {
        text_or(&self.display.label_override, self.name.as_str())
    }
}

impl ProgressMetric {
    /// The label of the progress metric.
    pub fn label(&self) -> (label: String)
        ensures
            label@ == progress_label(self@),
    {
        text_or(&self.display.label_override, self.name.as_str())
    }
}

/// An entity that is drawn as a node.
pub trait DotNode: View + Sized {
    /// The attributes that the node of an entity is drawn with.
    spec fn attributes(v: Self::V, config: DotConfigView) -> NodeAttributesView;

    /// Resolves the label, shape and fill colour of the entity's node.
    fn resolve(&self, config: &DotConfig) -> (attrs: NodeAttributes)
        ensures
            attrs@ == Self::attributes(self@, config@),
    ;
}

impl DotNode for Purpose {
    open spec fn attributes(v: PurposeView, config: DotConfigView) -> NodeAttributesView {
        purpose_attributes(v, config)
    }

    fn resolve(&self, config: &DotConfig) -> (attrs: NodeAttributes) {
        NodeAttributes {
            label: self.label(),
            shape: config.node_shapes.purpose,
            fillcolor: text_or(&self.display.color, config.colors.purpose),
        }
    }
}

impl DotNode for Person {
    open spec fn attributes(v: PersonView, config: DotConfigView) -> NodeAttributesView {
        person_attributes(v, config)
    }

    fn resolve(&self, config: &DotConfig) -> (attrs: NodeAttributes) {
        NodeAttributes {
            label: self.label(),
            shape: config.node_shapes.person,
            fillcolor: text_or(&self.display.color, config.colors.person),
        }
    }
}

impl DotNode for Project {
    open spec fn attributes(v: ProjectView, config: DotConfigView) -> NodeAttributesView {
        project_attributes(v, config)
    }

    fn resolve(&self, config: &DotConfig) -> (attrs: NodeAttributes) {
        let status_color = match self.status {
            ProjectStatus::Planning => config.colors.project_planning,
            ProjectStatus::Active => config.colors.project_active,
            ProjectStatus::Completed => config.colors.project_completed,
            ProjectStatus::OnHold => config.colors.project_onhold,
        };
        NodeAttributes {
            label: self.label(config.show_status),
            shape: config.node_shapes.project,
            fillcolor: text_or(&self.display.color, status_color),
        }
    }
}

impl DotNode for ProductionSystem {
    open spec fn attributes(v: ProductionSystemView, config: DotConfigView) -> NodeAttributesView {
        production_attributes(v, config)
    }

    fn resolve(&self, config: &DotConfig) -> (attrs: NodeAttributes) {
        let status_color = match self.status {
            SystemStatus::Operational => config.colors.production_operational,
            SystemStatus::Maintenance => config.colors.production_maintenance,
            SystemStatus::Degraded => config.colors.production_degraded,
            SystemStatus::Offline => config.colors.production_offline,
        };
        NodeAttributes {
            label: self.label(config.show_status),
            shape: config.node_shapes.production,
            fillcolor: text_or(&self.display.color, status_color),
        }
    }
}

impl DotNode for PropertyItem {
    open spec fn attributes(v: PropertyItemView, config: DotConfigView) -> NodeAttributesView {
        property_attributes(v, config)
    }

    fn resolve(&self, config: &DotConfig) -> (attrs: NodeAttributes) {
        NodeAttributes {
            label: self.label(),
            shape: config.node_shapes.property,
            fillcolor: text_or(&self.display.color, config.colors.property),
        }
    }
}

impl DotNode for ProgressMetric {
    open spec fn attributes(v: ProgressMetricView, config: DotConfigView) -> NodeAttributesView {
        progress_attributes(v, config)
    }

    fn resolve(&self, config: &DotConfig) -> (attrs: NodeAttributes) {
        NodeAttributes {
            label: self.label(),
            shape: config.node_shapes.person,
            fillcolor: text_or(&self.display.color, "lightblue"),
        }
    }
}

/// Resolves the attributes of the edge of a relationship.
pub fn resolve_edge(rel: &Relationship) -> (attrs: EdgeAttributes)
    ensures
        attrs@ == edge_attributes(rel@),
{
    EdgeAttributes {
        label: rel.predicate.name(),
        style: text_or(&rel.display.style, "solid"),
        color: text_or(&rel.display.color, "black"),
        xlabel: match &rel.display.label {
            Some(l) => Some(l.clone()),
            None => None,
        },
        weight: match &rel.display.weight {
            Some(w) => Some(w.clone()),
            None => None,
        },
    }
}

/// The label of the entity of the given kind stored under `id`, as its node
/// shows it with statuses shown: for a purpose its own label or else its
/// description cut to 30 characters; for a person its own label or else the
/// name, with the title below it where there is one; for a project or a
/// production system its own label or else its name, with the status in
/// brackets below; for a property item its own label or else its name. Empty
/// where the collection of that kind stores nothing under `id`.
pub open spec fn stored_label(org: OrganizationView, id: Seq<char>, entity_type: EntityType) -> Seq<
    char,
> {
    match entity_type {
        EntityType::Purpose => match lookup(org.purposes, id) {
            Some(p) => purpose_label(p),
            None => Seq::empty(),
        },
        EntityType::Person => match lookup(org.people, id) {
            Some(p) => person_label(p),
            None => Seq::empty(),
        },
        EntityType::Project => match lookup(org.projects, id) {
            Some(p) => project_label(p, true),
            None => Seq::empty(),
        },
        EntityType::ProductionSystem => match lookup(org.production_systems, id) {
            Some(s) => production_label(s, true),
            None => Seq::empty(),
        },
        EntityType::Property => match lookup(org.property_items, id) {
            Some(item) => property_label(item),
            None => Seq::empty(),
        },
    }
}

/// The label that is looked up is the label that is drawn: for an entity that
/// the organization stores, the stored label is the label of its node in a
/// rendering that shows statuses. A person without a title is labelled with
/// the name alone.
pub proof fn lemma_stored_label_is_node_label(
    org: OrganizationView,
    id: Seq<char>,
    config: DotConfigView,
)
    requires
        config.show_status,
    ensures
        lookup(org.purposes, id) matches Some(p) ==> stored_label(org, id, EntityType::Purpose)
            == purpose_attributes(p, config).label,
        lookup(org.people, id) matches Some(p) ==> stored_label(org, id, EntityType::Person)
            == person_attributes(p, config).label,
        lookup(org.projects, id) matches Some(p) ==> stored_label(org, id, EntityType::Project)
            == project_attributes(p, config).label,
        lookup(org.production_systems, id) matches Some(s) ==> stored_label(
            org,
            id,
            EntityType::ProductionSystem,
        ) == production_attributes(s, config).label,
        lookup(org.property_items, id) matches Some(item) ==> stored_label(
            org,
            id,
            EntityType::Property,
        ) == property_attributes(item, config).label,
        lookup(org.people, id) matches Some(p) ==> (p.title.len() == 0
            && p.display.label_override is None ==> stored_label(org, id, EntityType::Person)
            == p.name),
{
}

impl Organization {
    /// The label of the entity of the given kind stored under `id`; empty
    /// where there is none. Statuses are shown.
    pub fn get_node_label(&self, id: &str, entity_type: &EntityType) -> (label: String)
        ensures
            label@ == stored_label(self@, id@, *entity_type),
    {
        match entity_type {
            EntityType::Purpose => match self.purposes.find(id) {
                Some(p) => p.label(),
                None => String::new(),
            },
            EntityType::Person => match self.people.find(id) {
                Some(p) => p.label(),
                None => String::new(),
            },
            EntityType::Project => match self.projects.find(id) {
                Some(p) => p.label(true),
                None => String::new(),
            },
            EntityType::ProductionSystem => match self.production_systems.find(id) {
                Some(s) => s.label(true),
                None => String::new(),
            },
            EntityType::Property => match self.property_items.find(id) {
                Some(item) => item.label(),
                None => String::new(),
            },
        }
    }
}

} // verus!
