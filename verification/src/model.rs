//! The organization graph: entities, relationships between them, and the
//! display overlays that each may carry.
use crate::entity_map::{entry_ids, lemma_entry_ids, texts, EntityMap};
use crate::weight::{opt_weight, EdgeWeight};
use vstd::prelude::*;

verus! {

/// The identifier of an entity. It is the name of the entity's node in DOT.
pub type ID = String;

/// The view of an optional text.
pub open spec fn opt_text(o: Option<String>) -> Option<Seq<char>> {
    match o {
        Some(s) => Some(s@),
        None => None,
    }
}

/// Visual attributes of a node. A field that is `None` leaves the choice to
/// the defaults of the entity's type and status.
#[derive(Clone, Debug)]
pub struct DisplayAttributes {
    pub color: Option<String>,
    pub shape: Option<String>,
    pub style: Option<String>,
    pub label_override: Option<String>,
}

/// What contracts say of the display attributes of a node, with texts as sequences of characters.
pub struct DisplayView {
    pub color: Option<Seq<char>>,
    pub shape: Option<Seq<char>>,
    pub style: Option<Seq<char>>,
    pub label_override: Option<Seq<char>>,
}

impl View for DisplayAttributes {
    type V = DisplayView;

    open spec fn view(&self) -> DisplayView {
        DisplayView {
            color: opt_text(self.color),
            shape: opt_text(self.shape),
            style: opt_text(self.style),
            label_override: opt_text(self.label_override),
        }
    }
}

impl Default for DisplayAttributes {
    /// Nothing set: every choice is left to the defaults.
    fn default() -> (d: Self)
        ensures
            d.color is None,
            d.shape is None,
            d.style is None,
            d.label_override is None,
    {
        DisplayAttributes { color: None, shape: None, style: None, label_override: None }
    }
}

/// A reason for which the organization exists.
#[derive(Clone, Debug)]
pub struct Purpose {
    pub id: ID,
    pub description: String,
    pub display: DisplayAttributes,
}

/// What contracts say of a purpose, with texts as sequences of characters.
pub struct PurposeView {
    pub id: Seq<char>,
    pub description: Seq<char>,
    pub display: DisplayView,
}

impl View for Purpose {
    type V = PurposeView;

    open spec fn view(&self) -> PurposeView {
        PurposeView { id: self.id@, description: self.description@, display: self.display@ }
    }
}

/// A member of the organization.
#[derive(Clone, Debug)]
pub struct Person {
    pub id: ID,
    pub name: String,
    pub title: String,
    pub display: DisplayAttributes,
}

/// What contracts say of a person, with texts as sequences of characters.
pub struct PersonView {
    pub id: Seq<char>,
    pub name: Seq<char>,
    pub title: Seq<char>,
    pub display: DisplayView,
}

impl View for Person {
    type V = PersonView;

    open spec fn view(&self) -> PersonView {
        PersonView { id: self.id@, name: self.name@, title: self.title@, display: self.display@ }
    }
}

/// How far a project has come.
#[derive(Clone, Copy, Debug, PartialEq, Eq, Structural)]
pub enum ProjectStatus {
    Planning,
    Active,
    Completed,
    OnHold,
}

impl ProjectStatus {
    /// The status as written in labels.
    pub open spec fn name_text(self) -> Seq<char> {
        match self {
            ProjectStatus::Planning => "Planning"@,
            ProjectStatus::Active => "Active"@,
            ProjectStatus::Completed => "Completed"@,
            ProjectStatus::OnHold => "OnHold"@,
        }
    }

    /// The status as written in labels.
    pub fn name(&self) -> (text: &'static str)
        ensures
            text@ == self.name_text(),
    {
        match self {
            ProjectStatus::Planning => "Planning",
            ProjectStatus::Active => "Active",
            ProjectStatus::Completed => "Completed",
            ProjectStatus::OnHold => "OnHold",
        }
    }
}

/// Work that the organization has taken on.
#[derive(Clone, Debug)]
pub struct Project {
    pub id: ID,
    pub name: String,
    pub status: ProjectStatus,
    pub display: DisplayAttributes,
}

/// What contracts say of a project, with texts as sequences of characters.
pub struct ProjectView {
    pub id: Seq<char>,
    pub name: Seq<char>,
    pub status: ProjectStatus,
    pub display: DisplayView,
}

impl View for Project {
    type V = ProjectView;

    open spec fn view(&self) -> ProjectView {
        ProjectView { id: self.id@, name: self.name@, status: self.status, display: self.display@ }
    }
}

/// The state of a system in production.
#[derive(Clone, Copy, Debug, PartialEq, Eq, Structural)]
pub enum SystemStatus {
    Operational,
    Maintenance,
    Degraded,
    Offline,
}

impl SystemStatus {
    /// The status as written in labels.
    pub open spec fn name_text(self) -> Seq<char> {
        match self {
            SystemStatus::Operational => "Operational"@,
            SystemStatus::Maintenance => "Maintenance"@,
            SystemStatus::Degraded => "Degraded"@,
            SystemStatus::Offline => "Offline"@,
        }
    }

    /// The status as written in labels.
    pub fn name(&self) -> (text: &'static str)
        ensures
            text@ == self.name_text(),
    {
        match self {
            SystemStatus::Operational => "Operational",
            SystemStatus::Maintenance => "Maintenance",
            SystemStatus::Degraded => "Degraded",
            SystemStatus::Offline => "Offline",
        }
    }
}

/// A system that the organization runs.
#[derive(Clone, Debug)]
pub struct ProductionSystem {
    pub id: ID,
    pub name: String,
    pub status: SystemStatus,
    pub display: DisplayAttributes,
}

/// What contracts say of a production system, with texts as sequences of characters.
pub struct ProductionSystemView {
    pub id: Seq<char>,
    pub name: Seq<char>,
    pub status: SystemStatus,
    pub display: DisplayView,
}

impl View for ProductionSystem {
    type V = ProductionSystemView;

    open spec fn view(&self) -> ProductionSystemView {
        ProductionSystemView {
            id: self.id@,
            name: self.name@,
            status: self.status,
            display: self.display@,
        }
    }
}

/// The kind of a property item.
#[derive(Clone, Copy, Debug, PartialEq, Eq, Structural)]
pub enum PropertyType {
    Physical,
    Intellectual,
    Financial,
}

/// Something that the organization owns.
#[derive(Clone, Debug)]
pub struct PropertyItem {
    pub id: ID,
    pub name: String,
    pub property_type: PropertyType,
    pub display: DisplayAttributes,
}

/// What contracts say of a property item, with texts as sequences of characters.
pub struct PropertyItemView {
    pub id: Seq<char>,
    pub name: Seq<char>,
    pub property_type: PropertyType,
    pub display: DisplayView,
}

impl View for PropertyItem {
    type V = PropertyItemView;

    open spec fn view(&self) -> PropertyItemView {
        PropertyItemView {
            id: self.id@,
            name: self.name@,
            property_type: self.property_type,
            display: self.display@,
        }
    }
}

/// A measure by which progress is followed. It is drawn in the tiered layout only.
#[derive(Clone, Debug)]
pub struct ProgressMetric {
    pub id: ID,
    pub name: String,
    pub metric_type: String,
    pub display: DisplayAttributes,
}

/// What contracts say of a progress metric, with texts as sequences of characters.
pub struct ProgressMetricView {
    pub id: Seq<char>,
    pub name: Seq<char>,
    pub metric_type: Seq<char>,
    pub display: DisplayView,
}

impl View for ProgressMetric {
    type V = ProgressMetricView;

    open spec fn view(&self) -> ProgressMetricView {
        ProgressMetricView {
            id: self.id@,
            name: self.name@,
            metric_type: self.metric_type@,
            display: self.display@,
        }
    }
}

/// The collection that an entity named by a relationship belongs to.
#[derive(Clone, Copy, Debug, PartialEq, Eq, Structural, Hash)]
pub enum EntityType {
    Purpose,
    Person,
    Project,
    ProductionSystem,
    Property,
}

/// The kind of a relationship.
#[derive(Clone, Copy, Debug, PartialEq, Eq, Structural)]
pub enum RelationType {
    WorksOn,
    Manages,
    Leads,
    Serves,
    DependsOn,
    Uses,
    TransitionsTo,
    Maintains,
    Requires,
    Supports,
    PartOf,
}

impl RelationType {
    /// The kind as written in edge labels.
    pub open spec fn name_text(self) -> Seq<char> {
        match self {
            RelationType::WorksOn => "WorksOn"@,
            RelationType::Manages => "Manages"@,
            RelationType::Leads => "Leads"@,
            RelationType::Serves => "Serves"@,
            RelationType::DependsOn => "DependsOn"@,
            RelationType::Uses => "Uses"@,
            RelationType::TransitionsTo => "TransitionsTo"@,
            RelationType::Maintains => "Maintains"@,
            RelationType::Requires => "Requires"@,
            RelationType::Supports => "Supports"@,
            RelationType::PartOf => "PartOf"@,
        }
    }

    /// The kind as written in edge labels.
    pub fn name(&self) -> (text: &'static str)
        ensures
            text@ == self.name_text(),
    {
        match self {
            RelationType::WorksOn => "WorksOn",
            RelationType::Manages => "Manages",
            RelationType::Leads => "Leads",
            RelationType::Serves => "Serves",
            RelationType::DependsOn => "DependsOn",
            RelationType::Uses => "Uses",
            RelationType::TransitionsTo => "TransitionsTo",
            RelationType::Maintains => "Maintains",
            RelationType::Requires => "Requires",
            RelationType::Supports => "Supports",
            RelationType::PartOf => "PartOf",
        }
    }
}

/// Visual attributes of an edge. A field that is `None` leaves the choice to
/// the defaults: solid, black, no label of its own, no weight.
#[derive(Clone, Debug)]
pub struct EdgeDisplayAttributes {
    pub color: Option<String>,
    pub style: Option<String>,
    pub label: Option<String>,
    pub weight: Option<EdgeWeight>,
}

/// What contracts say of the display attributes of an edge, with texts as sequences of characters.
pub struct EdgeDisplayView {
    pub color: Option<Seq<char>>,
    pub style: Option<Seq<char>>,
    pub label: Option<Seq<char>>,
    pub weight: Option<Seq<char>>,
}

impl View for EdgeDisplayAttributes {
    type V = EdgeDisplayView;

    open spec fn view(&self) -> EdgeDisplayView {
        EdgeDisplayView {
            color: opt_text(self.color),
            style: opt_text(self.style),
            label: opt_text(self.label),
            weight: opt_weight(self.weight),
        }
    }
}

impl Default for EdgeDisplayAttributes {
    /// Nothing set: every choice is left to the defaults.
    fn default() -> (d: Self)
        ensures
            d.color is None,
            d.style is None,
            d.label is None,
            d.weight is None,
    {
        EdgeDisplayAttributes { color: None, style: None, label: None, weight: None }
    }
}

/// A directed edge of the graph: subject, predicate, object.
#[derive(Clone, Debug)]
pub struct Relationship {
    pub subject_id: ID,
    pub subject_type: EntityType,
    pub predicate: RelationType,
    pub object_id: ID,
    pub object_type: EntityType,
    pub display: EdgeDisplayAttributes,
}

/// What contracts say of a relationship, with texts as sequences of characters.
pub struct RelationshipView {
    pub subject_id: Seq<char>,
    pub subject_type: EntityType,
    pub predicate: RelationType,
    pub object_id: Seq<char>,
    pub object_type: EntityType,
    pub display: EdgeDisplayView,
}

impl View for Relationship {
    type V = RelationshipView;

    open spec fn view(&self) -> RelationshipView {
        RelationshipView {
            subject_id: self.subject_id@,
            subject_type: self.subject_type,
            predicate: self.predicate,
            object_id: self.object_id@,
            object_type: self.object_type,
            display: self.display@,
        }
    }
}

/// An organization: its entities by kind, each kind keyed by identifier, and
/// the relationships between them in the order in which they are drawn.
pub struct Organization {
    pub name: String,
    pub purposes: EntityMap<Purpose>,
    pub people: EntityMap<Person>,
    pub projects: EntityMap<Project>,
    pub progress_metrics: EntityMap<ProgressMetric>,
    pub production_systems: EntityMap<ProductionSystem>,
    pub property_items: EntityMap<PropertyItem>,
    pub relationships: Vec<Relationship>,
}

/// What contracts say of an organization: each collection as its entries
/// in order, texts as sequences of characters.
pub struct OrganizationView {
    pub name: Seq<char>,
    pub purposes: Seq<(Seq<char>, PurposeView)>,
    pub people: Seq<(Seq<char>, PersonView)>,
    pub projects: Seq<(Seq<char>, ProjectView)>,
    pub progress_metrics: Seq<(Seq<char>, ProgressMetricView)>,
    pub production_systems: Seq<(Seq<char>, ProductionSystemView)>,
    pub property_items: Seq<(Seq<char>, PropertyItemView)>,
    pub relationships: Seq<RelationshipView>,
}

impl View for Organization {
    type V = OrganizationView;

    open spec fn view(&self) -> OrganizationView {
        OrganizationView {
            name: self.name@,
            purposes: self.purposes@,
            people: self.people@,
            projects: self.projects@,
            progress_metrics: self.progress_metrics@,
            production_systems: self.production_systems@,
            property_items: self.property_items@,
            relationships: self.relationships@.map_values(|r: Relationship| r@),
        }
    }
}

/// The identifiers of an organization's entities, grouped by kind.
pub struct NodesByType<'a> {
    pub purposes: Vec<&'a str>,
    pub people: Vec<&'a str>,
    pub projects: Vec<&'a str>,
    pub production_systems: Vec<&'a str>,
    pub property_items: Vec<&'a str>,
}

/// What contracts say of the identifiers grouped by kind, with texts as sequences of characters.
pub struct NodesByTypeView {
    pub purposes: Seq<Seq<char>>,
    pub people: Seq<Seq<char>>,
    pub projects: Seq<Seq<char>>,
    pub production_systems: Seq<Seq<char>>,
    pub property_items: Seq<Seq<char>>,
}

impl NodesByTypeView {
    /// The identifiers of one kind.
    pub open spec fn of(self, entity_type: EntityType) -> Seq<Seq<char>> {
        match entity_type {
            EntityType::Purpose => self.purposes,
            EntityType::Person => self.people,
            EntityType::Project => self.projects,
            EntityType::ProductionSystem => self.production_systems,
            EntityType::Property => self.property_items,
        }
    }
}

impl<'a> View for NodesByType<'a> {
    type V = NodesByTypeView;

    open spec fn view(&self) -> NodesByTypeView {
        NodesByTypeView {
            purposes: texts(self.purposes@),
            people: texts(self.people@),
            projects: texts(self.projects@),
            production_systems: texts(self.production_systems@),
            property_items: texts(self.property_items@),
        }
    }
}

impl<'a> NodesByType<'a> {
    /// The identifiers of one kind; `None` for a kind without entities.
    pub fn get(&self, entity_type: &EntityType) -> (ids: Option<&Vec<&'a str>>)
        ensures
            match ids {
                Some(list) => list@.len() > 0 && texts(list@) == self@.of(*entity_type),
                None => self@.of(*entity_type).len() == 0,
            },
    {
        let list = match entity_type {
            EntityType::Purpose => &self.purposes,
            EntityType::Person => &self.people,
            EntityType::Project => &self.projects,
            EntityType::ProductionSystem => &self.production_systems,
            EntityType::Property => &self.property_items,
        };
        if list.len() > 0 {
            Some(list)
        } else {
            None
        }
    }
}

/// The identifiers of an organization's entities, by kind, each kind in the
/// order of its collection.
pub open spec fn ids_by_type(org: OrganizationView) -> NodesByTypeView {
    NodesByTypeView {
        purposes: entry_ids(org.purposes),
        people: entry_ids(org.people),
        projects: entry_ids(org.projects),
        production_systems: entry_ids(org.production_systems),
        property_items: entry_ids(org.property_items),
    }
}

impl Organization {
    /// The identifiers of all entities, grouped by kind.
    pub fn nodes_by_type(&self) -> (groups: NodesByType<'_>)
        ensures
            groups@ == ids_by_type(self@),
    {
        proof {
            lemma_entry_ids(&self.purposes);
            lemma_entry_ids(&self.people);
            lemma_entry_ids(&self.projects);
            lemma_entry_ids(&self.production_systems);
            lemma_entry_ids(&self.property_items);
        }
        NodesByType {
            purposes: self.purposes.keys(),
            people: self.people.keys(),
            projects: self.projects.keys(),
            production_systems: self.production_systems.keys(),
            property_items: self.property_items.keys(),
        }
    }
}

} // verus!
