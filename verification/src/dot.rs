//! The DOT emitter: node and edge statements, the three layouts, and the
//! document as a whole.
//!
//! Each piece of the document has a spec function that says what its text is,
//! and a function that builds that text. The `write_` functions append a piece
//! to a document under construction.
use crate::config::{DotConfig, DotConfigView};
use crate::entity_map::{entry_ids, lemma_entry_ids, EntityMap};
use crate::model::{
    Organization, OrganizationView, Person, ProductionSystem, ProgressMetric, Project,
    PropertyItem, Purpose, Relationship, RelationshipView,
};
use crate::style::{
    edge_attributes, person_attributes, production_attributes, progress_attributes,
    project_attributes, property_attributes, purpose_attributes, resolve_edge, DotNode,
    EdgeAttributes, EdgeAttributesView, NodeAttributes, NodeAttributesView,
};
use crate::text::{
    concat_all, escape_seq, lemma_concat_all_step, lemma_read_extends, lemma_read_quoted,
    lemma_read_shifted, push_escaped, push_quoted, quoted, read_quoted_at,
};
use crate::weight::{opt_weight, EdgeWeight};
use vstd::prelude::*;

verus! {

/// The statement of one node: its identifier, then label, shape and fill
/// colour. Identifier, label and colour stand between quotes, escaped.
pub open spec fn node_statement(id: Seq<char>, attrs: NodeAttributesView) -> Seq<char> {
    "    "@ + quoted(id) + " [label="@ + quoted(attrs.label) + ", shape="@ + attrs.shape
        + ", fillcolor="@ + quoted(attrs.fillcolor) + "];\n"@
}

/// Builds the statement of one node.
pub fn render_node(id: &str, attrs: &NodeAttributes) -> (line: String)
    ensures
        line@ == node_statement(id@, attrs@),
{
    let mut line = String::from_str("    ");
    push_quoted(&mut line, id);
    line.append(" [label=");
    push_quoted(&mut line, attrs.label.as_str());
    line.append(", shape=");
    line.append(attrs.shape);
    line.append(", fillcolor=");
    push_quoted(&mut line, attrs.fillcolor.as_str());
    line.append("];\n");
    line
}

/// Escaping round trip for node statements: a reader of DOT strings gets
/// back the identifier, the label and the colour exactly as they were put
/// in, whatever characters they hold, and each string ends where the
/// statement closes it.
pub proof fn lemma_node_statement_reads_back(id: Seq<char>, attrs: NodeAttributesView)
    ensures
        ({
            let text = node_statement(id, attrs);
            let before_id = "    "@;
            let before_label = before_id + quoted(id) + " [label="@;
            let before_color = before_label + quoted(attrs.label) + ", shape="@ + attrs.shape
                + ", fillcolor="@;
            &&& read_quoted_at(text, before_id.len() as int) == Some(
                (id, before_id.len() as int + quoted(id).len()),
            )
            &&& read_quoted_at(text, before_label.len() as int) == Some(
                (attrs.label, before_label.len() as int + quoted(attrs.label).len()),
            )
            &&& read_quoted_at(text, before_color.len() as int) == Some(
                (attrs.fillcolor, before_color.len() as int + quoted(attrs.fillcolor).len()),
            )
        }),
{
    let none = Seq::<char>::empty();
    let before_id = "    "@;
    let with_id = before_id + quoted(id);
    let before_label = with_id + " [label="@;
    let with_label = before_label + quoted(attrs.label);
    let before_color = with_label + ", shape="@ + attrs.shape + ", fillcolor="@;
    let with_color = before_color + quoted(attrs.fillcolor);
    lemma_read_quoted(before_id, id, none);
    lemma_read_quoted(before_label, attrs.label, none);
    lemma_read_quoted(before_color, attrs.fillcolor, none);
    assert(with_id + none =~= with_id);
    assert(with_label + none =~= with_label);
    assert(with_color + none =~= with_color);
    let at_id = before_id.len() as int;
    lemma_read_extends(with_id, " [label="@, at_id);
    lemma_read_extends(before_label, quoted(attrs.label), at_id);
    lemma_read_extends(with_label, ", shape="@, at_id);
    lemma_read_extends(with_label + ", shape="@, attrs.shape, at_id);
    lemma_read_extends(with_label + ", shape="@ + attrs.shape, ", fillcolor="@, at_id);
    lemma_read_extends(before_color, quoted(attrs.fillcolor), at_id);
    lemma_read_extends(with_color, "];\n"@, at_id);
    let at_label = before_label.len() as int;
    lemma_read_extends(with_label, ", shape="@, at_label);
    lemma_read_extends(with_label + ", shape="@, attrs.shape, at_label);
    lemma_read_extends(with_label + ", shape="@ + attrs.shape, ", fillcolor="@, at_label);
    lemma_read_extends(before_color, quoted(attrs.fillcolor), at_label);
    lemma_read_extends(with_color, "];\n"@, at_label);
    lemma_read_extends(with_color, "];\n"@, before_color.len() as int);
}

/// The node statement of the entity stored under `id`.
pub open spec fn entity_statement<T: DotNode>(id: Seq<char>, v: T::V, config: DotConfigView) -> Seq<
    char,
> {
    node_statement(id, T::attributes(v, config))
}

/// Appends the node statement of one entity.
pub fn write_entity_node<T: DotNode>(dot: &mut String, id: &str, entity: &T, config: &DotConfig)
    ensures
        final(dot)@ == old(dot)@ + entity_statement::<T>(id@, entity@, config@),
{
    let attrs = entity.resolve(config);
    let line = render_node(id, &attrs);
    dot.append(line.as_str());
}

/// Appends the node statement of a purpose.
pub fn write_purpose_node(dot: &mut String, id: &str, purpose: &Purpose, config: &DotConfig)
    ensures
        final(dot)@ == old(dot)@ + node_statement(id@, purpose_attributes(purpose@, config@)),
{
    write_entity_node(dot, id, purpose, config);
}

/// Appends the node statement of a person.
pub fn write_person_node(dot: &mut String, id: &str, person: &Person, config: &DotConfig)
    ensures
        final(dot)@ == old(dot)@ + node_statement(id@, person_attributes(person@, config@)),
{
    write_entity_node(dot, id, person, config);
}

/// Appends the node statement of a project.
pub fn write_project_node(dot: &mut String, id: &str, project: &Project, config: &DotConfig)
    ensures
        final(dot)@ == old(dot)@ + node_statement(id@, project_attributes(project@, config@)),
{
    write_entity_node(dot, id, project, config);
}

/// Appends the node statement of a production system.
pub fn write_production_node(
    dot: &mut String,
    id: &str,
    system: &ProductionSystem,
    config: &DotConfig,
)
    ensures
        final(dot)@ == old(dot)@ + node_statement(id@, production_attributes(system@, config@)),
{
    write_entity_node(dot, id, system, config);
}

/// Appends the node statement of a property item.
pub fn write_property_node(dot: &mut String, id: &str, item: &PropertyItem, config: &DotConfig)
    ensures
        final(dot)@ == old(dot)@ + node_statement(id@, property_attributes(item@, config@)),
{
    write_entity_node(dot, id, item, config);
}

/// Appends the node statement of a progress metric.
pub fn write_progress_node(dot: &mut String, id: &str, metric: &ProgressMetric, config: &DotConfig)
    ensures
        final(dot)@ == old(dot)@ + node_statement(id@, progress_attributes(metric@, config@)),
{
    write_entity_node(dot, id, metric, config);
}

/// The node statements of a collection, one per entry, in the collection's order.
pub open spec fn node_lines<T: DotNode>(
    entries: Seq<(Seq<char>, T::V)>,
    config: DotConfigView,
) -> Seq<Seq<char>> {
    Seq::new(entries.len(), |i: int| entity_statement::<T>(entries[i].0, entries[i].1, config))
}

/// Appends the node statements of a collection.
pub fn write_nodes<T: DotNode>(dot: &mut String, map: &EntityMap<T>, config: &DotConfig)
    ensures
        final(dot)@ == old(dot)@ + concat_all(node_lines::<T>(map@, config@)),
{
    let n = map.len();
    let ghost lines = node_lines::<T>(map@, config@);
    let mut block = String::new();
    let mut i: usize = 0;
    while i < n
        invariant
            map.wf(),
            n == map.ids().len(),
            i <= n,
            lines == node_lines::<T>(map@, config@),
            block@ == concat_all(lines.take(i as int)),
        decreases n - i,
    {
        write_entity_node(&mut block, map.key_at(i), map.value_at(i), config);
        proof {
            lemma_concat_all_step(lines, i as int);
        }
        i = i + 1;
    }
    assert(lines.take(n as int) =~= lines);
    dot.append(block.as_str());
}

/// An edge without attributes, after the given indentation. The tiered layout
/// uses such edges, which the graph's defaults make invisible, to order the
/// nodes; they stand for no relationship.
pub open spec fn plain_edge(indent: Seq<char>, from: Seq<char>, to: Seq<char>) -> Seq<char> {
    indent + quoted(from) + " -> "@ + quoted(to) + ";\n"@
}

/// Builds an edge without attributes.
pub fn render_plain_edge(indent: &str, from: &str, to: &str) -> (line: String)
    ensures
        line@ == plain_edge(indent@, from@, to@),
{
    let mut line = String::from_str(indent);
    push_quoted(&mut line, from);
    line.append(" -> ");
    push_quoted(&mut line, to);
    line.append(";\n");
    line
}

/// The edges that chain the nodes of one tier: from each identifier to the
/// next. A tier of fewer than two nodes has none.
pub open spec fn chain_lines(ids: Seq<Seq<char>>) -> Seq<Seq<char>> {
    Seq::new(
        if ids.len() >= 1 {
            (ids.len() - 1) as nat
        } else {
            0
        },
        |i: int| plain_edge("    "@, ids[i], ids[i + 1]),
    )
}

/// Appends the edges that chain the nodes of one tier.
pub fn write_chain<T>(dot: &mut String, map: &EntityMap<T>)
    ensures
        final(dot)@ == old(dot)@ + concat_all(chain_lines(map.ids())),
{
    let n = map.len();
    let ghost lines = chain_lines(map.ids());
    let mut block = String::new();
    let mut i: usize = 0;
    while i + 1 < n
        invariant
            map.wf(),
            n == map.ids().len(),
            i <= lines.len(),
            lines == chain_lines(map.ids()),
            block@ == concat_all(lines.take(i as int)),
        decreases n - i,
    {
        let line = render_plain_edge("    ", map.key_at(i), map.key_at(i + 1));
        block.append(line.as_str());
        proof {
            lemma_concat_all_step(lines, i as int);
        }
        i = i + 1;
    }
    assert(lines.take(i as int) =~= lines);
    dot.append(block.as_str());
}

/// The opening of one tier of the tiered layout: a comment, then a filled
/// cluster with its title.
pub open spec fn tier_open(title: Seq<char>, name: Seq<char>, fill: Seq<char>) -> Seq<char> {
    "  // "@ + title + " cluster\n"@ + "  subgraph cluster_"@ + name + " {\n"@ + "    label=\""@
        + title + "\";\n"@ + "    style=filled;\n"@ + "    fillcolor="@ + fill + ";\n"@
}

/// One tier of the tiered layout: a cluster that holds the nodes of one kind
/// and the chain that orders them.
pub open spec fn tier_text<T: DotNode>(
    title: Seq<char>,
    name: Seq<char>,
    fill: Seq<char>,
    entries: Seq<(Seq<char>, T::V)>,
    config: DotConfigView,
) -> Seq<char> {
    tier_open(title, name, fill) + concat_all(node_lines::<T>(entries, config)) + concat_all(
        chain_lines(entry_ids(entries)),
    ) + "  }\n"@ + "\n"@
}

fn render_tier_open(title: &str, name: &str, fill: &str) -> (block: String)
    ensures
        block@ == tier_open(title@, name@, fill@),
{
    let mut block = String::from_str("  // ");
    block.append(title);
    block.append(" cluster\n");
    block.append("  subgraph cluster_");
    block.append(name);
    block.append(" {\n");
    block.append("    label=\"");
    block.append(title);
    block.append("\";\n");
    block.append("    style=filled;\n");
    block.append("    fillcolor=");
    block.append(fill);
    block.append(";\n");
    block
}

/// Builds one tier of the tiered layout.
pub fn render_tier<T: DotNode>(
    title: &str,
    name: &str,
    fill: &str,
    map: &EntityMap<T>,
    config: &DotConfig,
) -> (block: String)
    ensures
        block@ == tier_text::<T>(title@, name@, fill@, map@, config@),
{
    let mut block = render_tier_open(title, name, fill);
    write_nodes(&mut block, map, config);
    write_chain(&mut block, map);
    block.append("  }\n");
    block.append("\n");
    proof {
        lemma_entry_ids(map);
    }
    block
}

/// One member of a group of nodes that share a rank.
pub open spec fn rank_member(id: Seq<char>) -> Seq<char> {
    quoted(id) + "; "@
}

/// The members of a rank group, one per identifier.
pub open spec fn rank_members(ids: Seq<Seq<char>>) -> Seq<Seq<char>> {
    Seq::new(ids.len(), |i: int| rank_member(ids[i]))
}

/// The group that puts all the given nodes on one rank. No nodes, no group.
pub open spec fn rank_row(ids: Seq<Seq<char>>) -> Seq<char> {
    if ids.len() == 0 {
        Seq::empty()
    } else {
        "  { rank=same; "@ + concat_all(rank_members(ids)) + "}\n"@
    }
}

fn render_rank_member(id: &str) -> (member: String)
    ensures
        member@ == rank_member(id@),
{
    let mut member = String::new();
    push_quoted(&mut member, id);
    member.append("; ");
    assert(Seq::<char>::empty() + quoted(id@) =~= quoted(id@));
    member
}

/// Builds the group that puts all the nodes of a collection on one rank.
pub fn render_rank_row<T>(map: &EntityMap<T>) -> (row: String)
    ensures
        row@ == rank_row(map.ids()),
{
    let n = map.len();
    if n == 0 {
        return String::new();
    }
    let ghost members = rank_members(map.ids());
    let mut list = String::new();
    let mut i: usize = 0;
    while i < n
        invariant
            map.wf(),
            n == map.ids().len(),
            i <= n,
            members == rank_members(map.ids()),
            list@ == concat_all(members.take(i as int)),
        decreases n - i,
    {
        let member = render_rank_member(map.key_at(i));
        list.append(member.as_str());
        proof {
            lemma_concat_all_step(members, i as int);
        }
        i = i + 1;
    }
    assert(members.take(n as int) =~= members);
    let mut row = String::from_str("  { rank=same; ");
    row.append(list.as_str());
    row.append("}\n");
    row
}

/// The first node of a collection as a member of a rank group; nothing for an
/// empty collection.
pub open spec fn first_member(ids: Seq<Seq<char>>) -> Seq<char> {
    if ids.len() == 0 {
        Seq::empty()
    } else {
        rank_member(ids[0])
    }
}

/// The group that puts the first person, the first project and the first
/// progress metric on one rank. Where all three collections are empty there
/// is no group.
pub open spec fn middle_row(
    people: Seq<Seq<char>>,
    projects: Seq<Seq<char>>,
    metrics: Seq<Seq<char>>,
) -> Seq<char> {
    if people.len() == 0 && projects.len() == 0 && metrics.len() == 0 {
        Seq::empty()
    } else {
        "  { rank=same; "@ + first_member(people) + first_member(projects) + first_member(metrics)
            + "}\n"@
    }
}

fn render_first_member<T>(map: &EntityMap<T>) -> (member: String)
    ensures
        member@ == first_member(map.ids()),
{
    if map.len() > 0 {
        render_rank_member(map.key_at(0))
    } else {
        String::new()
    }
}

/// Builds the group that aligns the first nodes of the middle tiers.
pub fn render_middle_row(
    people: &EntityMap<Person>,
    projects: &EntityMap<Project>,
    metrics: &EntityMap<ProgressMetric>,
) -> (row: String)
    ensures
        row@ == middle_row(people.ids(), projects.ids(), metrics.ids()),
{
    if people.is_empty() && projects.is_empty() && metrics.is_empty() {
        return String::new();
    }
    let mut row = String::from_str("  { rank=same; ");
    row.append(render_first_member(people).as_str());
    row.append(render_first_member(projects).as_str());
    row.append(render_first_member(metrics).as_str());
    row.append("}\n");
    row
}

/// The edge that puts the purposes above the middle tiers: from the first
/// purpose to the first person or, where there is no person, to the first
/// project.
pub open spec fn purpose_link(
    purposes: Seq<Seq<char>>,
    people: Seq<Seq<char>>,
    projects: Seq<Seq<char>>,
) -> Seq<char> {
    if purposes.len() > 0 && people.len() > 0 {
        plain_edge("  "@, purposes[0], people[0])
    } else if purposes.len() > 0 && projects.len() > 0 {
        plain_edge("  "@, purposes[0], projects[0])
    } else {
        Seq::empty()
    }
}

/// The edge that puts the production systems below the projects: from the
/// last project to the first system.
pub open spec fn production_link(projects: Seq<Seq<char>>, systems: Seq<Seq<char>>) -> Seq<char> {
    if projects.len() > 0 && systems.len() > 0 {
        plain_edge("  "@, projects.last(), systems[0])
    } else {
        Seq::empty()
    }
}

/// The edge that puts the property items at the bottom: to the first item
/// from the last person or, where there is no person, from the last system.
pub open spec fn property_link(
    people: Seq<Seq<char>>,
    systems: Seq<Seq<char>>,
    items: Seq<Seq<char>>,
) -> Seq<char> {
    if items.len() > 0 && people.len() > 0 {
        plain_edge("  "@, people.last(), items[0])
    } else if items.len() > 0 && systems.len() > 0 {
        plain_edge("  "@, systems.last(), items[0])
    } else {
        Seq::empty()
    }
}

/// The edges that order the tiers from top to bottom.
pub open spec fn tier_order(org: OrganizationView) -> Seq<char> {
    purpose_link(entry_ids(org.purposes), entry_ids(org.people), entry_ids(org.projects))
        + production_link(entry_ids(org.projects), entry_ids(org.production_systems))
        + property_link(
        entry_ids(org.people),
        entry_ids(org.production_systems),
        entry_ids(org.property_items),
    )
}

fn render_purpose_link(
    purposes: &EntityMap<Purpose>,
    people: &EntityMap<Person>,
    projects: &EntityMap<Project>,
) -> (line: String)
    ensures
        line@ == purpose_link(purposes.ids(), people.ids(), projects.ids()),
{
    if purposes.len() > 0 && people.len() > 0 {
        render_plain_edge("  ", purposes.key_at(0), people.key_at(0))
    } else if purposes.len() > 0 && projects.len() > 0 {
        render_plain_edge("  ", purposes.key_at(0), projects.key_at(0))
    } else {
        String::new()
    }
}

fn render_production_link(
    projects: &EntityMap<Project>,
    systems: &EntityMap<ProductionSystem>,
) -> (line: String)
    ensures
        line@ == production_link(projects.ids(), systems.ids()),
{
    let n = projects.len();
    if n > 0 && systems.len() > 0 {
        render_plain_edge("  ", projects.key_at(n - 1), systems.key_at(0))
    } else {
        String::new()
    }
}

fn render_property_link(
    people: &EntityMap<Person>,
    systems: &EntityMap<ProductionSystem>,
    items: &EntityMap<PropertyItem>,
) -> (line: String)
    ensures
        line@ == property_link(people.ids(), systems.ids(), items.ids()),
{
    let p = people.len();
    let s = systems.len();
    if items.len() > 0 && p > 0 {
        render_plain_edge("  ", people.key_at(p - 1), items.key_at(0))
    } else if items.len() > 0 && s > 0 {
        render_plain_edge("  ", systems.key_at(s - 1), items.key_at(0))
    } else {
        String::new()
    }
}

/// The attributes of the graph and of its edges in the tiered layout.
pub open spec fn tier_preamble() -> Seq<char> {
    "  graph [newrank=true, nodesep=0.3, ranksep=0.5, splines=false];\n"@
        + "  edge [style=invis, weight=10];\n"@ + "\n"@
}

/// The rank groups of the tiered layout: all purposes on one rank, the first
/// nodes of the middle tiers on one, all property items on one.
pub open spec fn alignment(org: OrganizationView) -> Seq<char> {
    "  // Horizontal alignment\n"@ + rank_row(entry_ids(org.purposes)) + middle_row(
        entry_ids(org.people),
        entry_ids(org.projects),
        entry_ids(org.progress_metrics),
    ) + rank_row(entry_ids(org.property_items)) + "\n"@
}

/// The six tiers of the tiered layout, from purposes down to property.
pub open spec fn tiers(org: OrganizationView, config: DotConfigView) -> Seq<char> {
    tier_text::<Purpose>("Purpose"@, "purpose"@, "lightgray"@, org.purposes, config)
        + tier_text::<Person>("People"@, "people"@, "lightyellow"@, org.people, config)
        + tier_text::<Project>("Projects"@, "projects"@, "lightgreen"@, org.projects, config)
        + tier_text::<ProgressMetric>(
        "Progress"@,
        "progress"@,
        "lightpink"@,
        org.progress_metrics,
        config,
    ) + tier_text::<ProductionSystem>(
        "Production"@,
        "production"@,
        "lightcyan"@,
        org.production_systems,
        config,
    ) + tier_text::<PropertyItem>("Property"@, "property"@, "lightgray"@, org.property_items, config)
}

/// The body of the document in the tiered layout.
pub open spec fn hierarchical_text(org: OrganizationView, config: DotConfigView) -> Seq<char> {
    tier_preamble() + tiers(org, config) + alignment(org) + "  // Vertical tier ordering\n"@
        + tier_order(org)
}

/// One cluster of the clustered layout: a dashed box around the nodes of one
/// kind. An empty collection gets no cluster.
pub open spec fn cluster_text<T: DotNode>(
    title: Seq<char>,
    name: Seq<char>,
    entries: Seq<(Seq<char>, T::V)>,
    config: DotConfigView,
) -> Seq<char> {
    if entries.len() == 0 {
        Seq::empty()
    } else {
        "  subgraph cluster_"@ + name + " {\n"@ + "    label=\""@ + title + "\";\n"@
            + "    style=dashed;\n"@ + concat_all(node_lines::<T>(entries, config)) + "  }\n"@
            + "\n"@
    }
}

/// Builds one cluster of the clustered layout.
pub fn render_cluster<T: DotNode>(
    title: &str,
    name: &str,
    map: &EntityMap<T>,
    config: &DotConfig,
) -> (block: String)
    ensures
        block@ == cluster_text::<T>(title@, name@, map@, config@),
{
    if map.is_empty() {
        return String::new();
    }
    let mut block = String::from_str("  subgraph cluster_");
    block.append(name);
    block.append(" {\n");
    block.append("    label=\"");
    block.append(title);
    block.append("\";\n");
    block.append("    style=dashed;\n");
    write_nodes(&mut block, map, config);
    block.append("  }\n");
    block.append("\n");
    block
}

/// The body of the document in the clustered layout: one cluster per kind
/// that has entities.
pub open spec fn subgraphs_text(org: OrganizationView, config: DotConfigView) -> Seq<char> {
    cluster_text::<Purpose>("Purpose"@, "purpose"@, org.purposes, config) + cluster_text::<Person>(
        "People"@,
        "people"@,
        org.people,
        config,
    ) + cluster_text::<Project>("Projects"@, "projects"@, org.projects, config)
        + cluster_text::<ProductionSystem>(
        "Production"@,
        "production"@,
        org.production_systems,
        config,
    ) + cluster_text::<PropertyItem>("Property"@, "property"@, org.property_items, config)
}

/// The body of the document in the flat layout: the node statements of the
/// five kinds, one kind after the other, without grouping.
pub open spec fn flat_text(org: OrganizationView, config: DotConfigView) -> Seq<char> {
    concat_all(node_lines::<Purpose>(org.purposes, config)) + concat_all(
        node_lines::<Person>(org.people, config),
    ) + concat_all(node_lines::<Project>(org.projects, config)) + concat_all(
        node_lines::<ProductionSystem>(org.production_systems, config),
    ) + concat_all(node_lines::<PropertyItem>(org.property_items, config))
}

/// The part of an edge statement that carries the edge's own label.
pub open spec fn xlabel_part(xlabel: Option<Seq<char>>) -> Seq<char> {
    match xlabel {
        Some(text) => ", xlabel="@ + quoted(text),
        None => Seq::empty(),
    }
}

/// The part of an edge statement that carries the edge's weight.
pub open spec fn weight_part(weight: Option<Seq<char>>) -> Seq<char> {
    match weight {
        Some(w) => ", weight="@ + w,
        None => Seq::empty(),
    }
}

/// The two ends of an edge, with the arrow between them.
pub open spec fn edge_ends(from: Seq<char>, to: Seq<char>) -> Seq<char> {
    "  "@ + quoted(from) + " -> "@ + quoted(to)
}

/// The attributes of an edge in square brackets: the kind of the relation as
/// label, style and colour, and the edge's own label and weight where set.
pub open spec fn edge_attribute_list(attrs: EdgeAttributesView) -> Seq<char> {
    " [label="@ + quoted(attrs.label) + ", style="@ + escape_seq(attrs.style) + ", color="@
        + quoted(attrs.color) + xlabel_part(attrs.xlabel) + weight_part(attrs.weight) + "];\n"@
}

/// The statement of one edge: its two ends, then its attributes.
pub open spec fn edge_statement(from: Seq<char>, to: Seq<char>, attrs: EdgeAttributesView) -> Seq<
    char,
> {
    edge_ends(from, to) + edge_attribute_list(attrs)
}

/// Escaping round trip for the ends of an edge: a reader of DOT strings gets
/// back both identifiers exactly as they were put in.
pub proof fn lemma_edge_ends_read_back(from: Seq<char>, to: Seq<char>)
    ensures
        ({
            let text = edge_ends(from, to);
            let before_from = "  "@;
            let before_to = before_from + quoted(from) + " -> "@;
            &&& read_quoted_at(text, before_from.len() as int) == Some(
                (from, before_from.len() as int + quoted(from).len()),
            )
            &&& read_quoted_at(text, before_to.len() as int) == Some((to, text.len() as int))
        }),
{
    let none = Seq::<char>::empty();
    let before_from = "  "@;
    let with_from = before_from + quoted(from);
    let before_to = with_from + " -> "@;
    let with_to = before_to + quoted(to);
    lemma_read_quoted(before_from, from, none);
    lemma_read_quoted(before_to, to, none);
    assert(with_from + none =~= with_from);
    assert(with_to + none =~= with_to);
    lemma_read_extends(with_from, " -> "@, before_from.len() as int);
    lemma_read_extends(before_to, quoted(to), before_from.len() as int);
}

/// Escaping round trip for the attributes of an edge: a reader of DOT strings
/// gets back the label, the colour and, where there is one, the edge's own
/// label exactly as they were put in.
pub proof fn lemma_edge_attributes_read_back(attrs: EdgeAttributesView)
    ensures
        ({
            let text = edge_attribute_list(attrs);
            let before_label = " [label="@;
            let before_color = before_label + quoted(attrs.label) + ", style="@ + escape_seq(
                attrs.style,
            ) + ", color="@;
            let before_xlabel = before_color + quoted(attrs.color) + ", xlabel="@;
            &&& read_quoted_at(text, before_label.len() as int) == Some(
                (attrs.label, before_label.len() as int + quoted(attrs.label).len()),
            )
            &&& read_quoted_at(text, before_color.len() as int) == Some(
                (attrs.color, before_color.len() as int + quoted(attrs.color).len()),
            )
            &&& attrs.xlabel matches Some(own) ==> read_quoted_at(
                text,
                before_xlabel.len() as int,
            ) == Some((own, before_xlabel.len() as int + quoted(own).len()))
        }),
{
    let none = Seq::<char>::empty();
    let before_label = " [label="@;
    let with_label = before_label + quoted(attrs.label);
    let before_color = with_label + ", style="@ + escape_seq(attrs.style) + ", color="@;
    let with_color = before_color + quoted(attrs.color);
    let with_xlabel = with_color + xlabel_part(attrs.xlabel);
    let with_weight = with_xlabel + weight_part(attrs.weight);
    lemma_read_quoted(before_label, attrs.label, none);
    lemma_read_quoted(before_color, attrs.color, none);
    assert(with_label + none =~= with_label);
    assert(with_color + none =~= with_color);
    let at_label = before_label.len() as int;
    lemma_read_extends(with_label, ", style="@, at_label);
    lemma_read_extends(with_label + ", style="@, escape_seq(attrs.style), at_label);
    lemma_read_extends(with_label + ", style="@ + escape_seq(attrs.style), ", color="@, at_label);
    lemma_read_extends(before_color, quoted(attrs.color), at_label);
    lemma_read_extends(with_color, xlabel_part(attrs.xlabel), at_label);
    lemma_read_extends(with_xlabel, weight_part(attrs.weight), at_label);
    lemma_read_extends(with_weight, "];\n"@, at_label);
    let at_color = before_color.len() as int;
    lemma_read_extends(with_color, xlabel_part(attrs.xlabel), at_color);
    lemma_read_extends(with_xlabel, weight_part(attrs.weight), at_color);
    lemma_read_extends(with_weight, "];\n"@, at_color);
    if let Some(own) = attrs.xlabel {
        let before_xlabel = with_color + ", xlabel="@;
        lemma_read_quoted(before_xlabel, own, none);
        assert(before_xlabel + quoted(own) + none =~= before_xlabel + quoted(own));
        assert(before_xlabel + quoted(own) =~= with_xlabel);
        let at_xlabel = before_xlabel.len() as int;
        lemma_read_extends(with_xlabel, weight_part(attrs.weight), at_xlabel);
        lemma_read_extends(with_weight, "];\n"@, at_xlabel);
    }
}

/// Escaping round trip for edge statements: a reader of DOT strings gets
/// back the two ends, the label, the colour and, where there is one, the
/// edge's own label exactly as they were put in, whatever characters they
/// hold, and each string ends where the statement closes it.
pub proof fn lemma_edge_statement_reads_back(
    from: Seq<char>,
    to: Seq<char>,
    attrs: EdgeAttributesView,
)
    ensures
        ({
            let text = edge_statement(from, to, attrs);
            let before_from = "  "@;
            let before_to = before_from + quoted(from) + " -> "@;
            let before_label = edge_ends(from, to) + " [label="@;
            let before_color = before_label + quoted(attrs.label) + ", style="@ + escape_seq(
                attrs.style,
            ) + ", color="@;
            let before_xlabel = before_color + quoted(attrs.color) + ", xlabel="@;
            &&& read_quoted_at(text, before_from.len() as int) == Some(
                (from, before_from.len() as int + quoted(from).len()),
            )
            &&& read_quoted_at(text, before_to.len() as int) == Some(
                (to, before_to.len() as int + quoted(to).len()),
            )
            &&& read_quoted_at(text, before_label.len() as int) == Some(
                (attrs.label, before_label.len() as int + quoted(attrs.label).len()),
            )
            &&& read_quoted_at(text, before_color.len() as int) == Some(
                (attrs.color, before_color.len() as int + quoted(attrs.color).len()),
            )
            &&& attrs.xlabel matches Some(own) ==> read_quoted_at(
                text,
                before_xlabel.len() as int,
            ) == Some((own, before_xlabel.len() as int + quoted(own).len()))
        }),
{
    let ends = edge_ends(from, to);
    let list = edge_attribute_list(attrs);
    lemma_edge_ends_read_back(from, to);
    lemma_edge_attributes_read_back(attrs);
    let in_list_label = " [label="@;
    let in_list_color = in_list_label + quoted(attrs.label) + ", style="@ + escape_seq(attrs.style)
        + ", color="@;
    let in_list_xlabel = in_list_color + quoted(attrs.color) + ", xlabel="@;
    lemma_read_extends(ends, list, "  "@.len() as int);
    lemma_read_extends(ends, list, ("  "@ + quoted(from) + " -> "@).len() as int);
    lemma_read_shifted(ends, list, in_list_label.len() as int);
    lemma_read_shifted(ends, list, in_list_color.len() as int);
    lemma_read_shifted(ends, list, in_list_xlabel.len() as int);
}

fn render_xlabel_part(xlabel: &Option<String>) -> (part: String)
    ensures
        part@ == xlabel_part(crate::model::opt_text(*xlabel)),
{
    match xlabel {
        Some(text) => {
            let mut part = String::from_str(", xlabel=");
            push_quoted(&mut part, text.as_str());
            part
        },
        None => String::new(),
    }
}

fn render_weight_part(weight: &Option<EdgeWeight>) -> (part: String)
    ensures
        part@ == weight_part(opt_weight(*weight)),
{
    match weight {
        Some(w) => {
            let mut part = String::from_str(", weight=");
            part.append(w.as_str());
            part
        },
        None => String::new(),
    }
}

fn render_edge_attribute_list(attrs: &EdgeAttributes) -> (list: String)
    ensures
        list@ == edge_attribute_list(attrs@),
{
    let mut list = String::from_str(" [label=");
    push_quoted(&mut list, attrs.label);
    list.append(", style=");
    push_escaped(&mut list, attrs.style.as_str());
    list.append(", color=");
    push_quoted(&mut list, attrs.color.as_str());
    list.append(render_xlabel_part(&attrs.xlabel).as_str());
    list.append(render_weight_part(&attrs.weight).as_str());
    list.append("];\n");
    list
}

/// Builds the statement of one edge.
pub fn render_edge(from: &str, to: &str, attrs: &EdgeAttributes) -> (line: String)
    ensures
        line@ == edge_statement(from@, to@, attrs@),
{
    let mut line = String::from_str("  ");
    push_quoted(&mut line, from);
    line.append(" -> ");
    push_quoted(&mut line, to);
    line.append(render_edge_attribute_list(attrs).as_str());
    line
}

/// The edge statement of a relationship.
pub open spec fn relationship_statement(rel: RelationshipView) -> Seq<char> {
    edge_statement(rel.subject_id, rel.object_id, edge_attributes(rel))
}

/// The edge statements of the relationships, one each, in their order.
pub open spec fn edge_lines(rels: Seq<RelationshipView>) -> Seq<Seq<char>> {
    Seq::new(rels.len(), |i: int| relationship_statement(rels[i]))
}

/// The header of the organization template.
pub const TEMPLATE_HEADER: &'static str =
    "digraph Organization {\n    graph [\n        newrank = true,\n        nodesep = 0.3,\n        ranksep = 0.5,\n        splines = false\n    ]\n\n    node [\n        shape = box,\n        style = filled,\n        fillcolor = lightblue\n    ]\n\n    edge [\n        weight = 10\n    ]\n\n";

/// The opening of the document: in template mode the template's fixed
/// header, else the graph's direction, its name as label, and its attributes.
pub open spec fn header_text(name: Seq<char>, config: DotConfigView) -> Seq<char> {
    if config.use_template_mode {
        TEMPLATE_HEADER@
    } else {
        "digraph organization {\n"@ + "  rankdir="@ + config.rankdir + ";\n"@
            + "  node [style=filled];\n"@ + "  label="@ + quoted(name) + ";\n"@
            + "  labelloc=t;\n"@ + "  compound=true;\n"@ + "  newrank=true;\n"@ + "\n"@
    }
}

/// Builds the opening of the document.
pub fn render_header(name: &str, config: &DotConfig) -> (header: String)
    ensures
        header@ == header_text(name@, config@),
{
    if config.use_template_mode {
        String::from_str(TEMPLATE_HEADER)
    } else {
        let mut header = String::from_str("digraph organization {\n");
        header.append("  rankdir=");
        header.append(config.rankdir);
        header.append(";\n");
        header.append("  node [style=filled];\n");
        header.append("  label=");
        push_quoted(&mut header, name);
        header.append(";\n");
        header.append("  labelloc=t;\n");
        header.append("  compound=true;\n");
        header.append("  newrank=true;\n");
        header.append("\n");
        header
    }
}

/// The body of the document under the layout that the configuration selects:
/// tiered before clustered before flat.
pub open spec fn layout_text(org: OrganizationView, config: DotConfigView) -> Seq<char> {
    if config.use_hierarchical_layout {
        hierarchical_text(org, config)
    } else if config.use_subgraphs {
        subgraphs_text(org, config)
    } else {
        flat_text(org, config)
    }
}

/// The DOT document of an organization: header, nodes in the selected layout,
/// an empty line, one edge per relationship, and the closing brace.
pub open spec fn dot_document(org: OrganizationView, config: DotConfigView) -> Seq<char> {
    header_text(org.name, config) + layout_text(org, config) + "\n"@ + concat_all(
        edge_lines(org.relationships),
    ) + "}\n"@
}

/// Whether an organization has no entity of any kind.
pub open spec fn no_entities(org: OrganizationView) -> bool {
    &&& org.purposes.len() == 0
    &&& org.people.len() == 0
    &&& org.projects.len() == 0
    &&& org.progress_metrics.len() == 0
    &&& org.production_systems.len() == 0
    &&& org.property_items.len() == 0
}

/// Emptiness in the clustered layout: a kind without entities gets no
/// cluster, not even an empty one.
pub proof fn lemma_empty_kind_has_no_cluster<T: DotNode>(
    title: Seq<char>,
    name: Seq<char>,
    entries: Seq<(Seq<char>, T::V)>,
    config: DotConfigView,
)
    requires
        entries.len() == 0,
    ensures
        cluster_text::<T>(title, name, entries, config) == Seq::<char>::empty(),
{
}

/// Emptiness in the tiered layout: a tier of fewer than two nodes has no
/// chaining edge, and an empty tier holds nothing between the opening of its
/// cluster and the closing brace.
pub proof fn lemma_empty_tier_has_no_chain<T: DotNode>(
    title: Seq<char>,
    name: Seq<char>,
    fill: Seq<char>,
    entries: Seq<(Seq<char>, T::V)>,
    config: DotConfigView,
)
    ensures
        entries.len() <= 1 ==> chain_lines(entry_ids(entries)).len() == 0 && concat_all(
            chain_lines(entry_ids(entries)),
        ) == Seq::<char>::empty(),
        entries.len() == 0 ==> tier_text::<T>(title, name, fill, entries, config) == tier_open(
            title,
            name,
            fill,
        ) + "  }\n"@ + "\n"@,
{
    if entries.len() == 0 {
        let open = tier_open(title, name, fill);
        let none = Seq::<char>::empty();
        assert(concat_all(node_lines::<T>(entries, config)) == none);
        assert(concat_all(chain_lines(entry_ids(entries))) == none);
        assert(open + none =~= open);
    }
}

/// Emptiness of the edges: an organization without relationships has no edge
/// statement, and its document closes right after the empty line that
/// follows the nodes.
pub proof fn lemma_no_relationships_no_edges(org: OrganizationView, config: DotConfigView)
    requires
        org.relationships.len() == 0,
    ensures
        edge_lines(org.relationships).len() == 0,
        dot_document(org, config) == header_text(org.name, config) + layout_text(org, config)
            + "\n"@ + "}\n"@,
{
    let none = Seq::<char>::empty();
    let head = header_text(org.name, config) + layout_text(org, config) + "\n"@;
    assert(concat_all(edge_lines(org.relationships)) == none);
    assert(head + none =~= head);
}

/// Emptiness of the whole: where the tiered layout is off, the document of an
/// organization without entities and without relationships is the header, an
/// empty line, and the closing brace.
pub proof fn lemma_empty_organization(org: OrganizationView, config: DotConfigView)
    requires
        no_entities(org),
        org.relationships.len() == 0,
        !config.use_hierarchical_layout,
    ensures
        dot_document(org, config) == header_text(org.name, config) + "\n"@ + "}\n"@,
{
    let none = Seq::<char>::empty();
    let header = header_text(org.name, config);
    lemma_no_relationships_no_edges(org, config);
    assert(concat_all(node_lines::<Purpose>(org.purposes, config)) == none);
    assert(concat_all(node_lines::<Person>(org.people, config)) == none);
    assert(concat_all(node_lines::<Project>(org.projects, config)) == none);
    assert(concat_all(node_lines::<ProductionSystem>(org.production_systems, config)) == none);
    assert(concat_all(node_lines::<PropertyItem>(org.property_items, config)) == none);
    assert(none + none =~= none);
    assert(layout_text(org, config) == none);
    assert(header + none =~= header);
}

/// Idempotence: the document is a function of what the organization and the
/// configuration hold. Two renderings of organizations and configurations
/// with the same content give the same text, character for character.
pub proof fn lemma_same_input_same_document(
    first: Organization,
    second: Organization,
    first_config: DotConfig,
    second_config: DotConfig,
)
    requires
        first@ == second@,
        first_config@ == second_config@,
    ensures
        dot_document(first@, first_config@) == dot_document(second@, second_config@),
{
}

impl Organization {
    /// Builds the six tiers of the tiered layout.
    pub fn render_tiers(&self, config: &DotConfig) -> (block: String)
        ensures
            block@ == tiers(self@, config@),
    {
        let mut block = render_tier("Purpose", "purpose", "lightgray", &self.purposes, config);
        block.append(
            render_tier("People", "people", "lightyellow", &self.people, config).as_str(),
        );
        block.append(
            render_tier("Projects", "projects", "lightgreen", &self.projects, config).as_str(),
        );
        block.append(
            render_tier(
                "Progress",
                "progress",
                "lightpink",
                &self.progress_metrics,
                config,
            ).as_str(),
        );
        block.append(
            render_tier(
                "Production",
                "production",
                "lightcyan",
                &self.production_systems,
                config,
            ).as_str(),
        );
        block.append(
            render_tier("Property", "property", "lightgray", &self.property_items, config).as_str(),
        );
        block
    }

    /// Builds the rank groups of the tiered layout.
    pub fn render_alignment(&self) -> (block: String)
        ensures
            block@ == alignment(self@),
    {
        proof {
            lemma_entry_ids(&self.purposes);
            lemma_entry_ids(&self.people);
            lemma_entry_ids(&self.projects);
            lemma_entry_ids(&self.progress_metrics);
            lemma_entry_ids(&self.property_items);
        }
        let mut block = String::from_str("  // Horizontal alignment\n");
        block.append(render_rank_row(&self.purposes).as_str());
        block.append(
            render_middle_row(&self.people, &self.projects, &self.progress_metrics).as_str(),
        );
        block.append(render_rank_row(&self.property_items).as_str());
        block.append("\n");
        block
    }

    /// Builds the edges that order the tiers from top to bottom.
    pub fn render_tier_order(&self) -> (block: String)
        ensures
            block@ == tier_order(self@),
    {
        proof {
            lemma_entry_ids(&self.purposes);
            lemma_entry_ids(&self.people);
            lemma_entry_ids(&self.projects);
            lemma_entry_ids(&self.production_systems);
            lemma_entry_ids(&self.property_items);
        }
        let mut block = render_purpose_link(&self.purposes, &self.people, &self.projects);
        block.append(render_production_link(&self.projects, &self.production_systems).as_str());
        block.append(
            render_property_link(
                &self.people,
                &self.production_systems,
                &self.property_items,
            ).as_str(),
        );
        block
    }

    /// Appends the body of the document in the tiered layout: the graph's
    /// attributes, one cluster per tier with its nodes chained, the rank
    /// groups that align the tiers, and the edges that order them.
    pub fn write_hierarchical_layout(&self, dot: &mut String, config: &DotConfig)
        ensures
            final(dot)@ == old(dot)@ + hierarchical_text(self@, config@),
    {
        let mut body = String::from_str(
            "  graph [newrank=true, nodesep=0.3, ranksep=0.5, splines=false];\n",
        );
        body.append("  edge [style=invis, weight=10];\n");
        body.append("\n");
        body.append(self.render_tiers(config).as_str());
        body.append(self.render_alignment().as_str());
        body.append("  // Vertical tier ordering\n");
        body.append(self.render_tier_order().as_str());
        dot.append(body.as_str());
    }

    /// Appends the body of the document in the clustered layout.
    pub fn write_subgraphs(&self, dot: &mut String, config: &DotConfig)
        ensures
            final(dot)@ == old(dot)@ + subgraphs_text(self@, config@),
    {
        let mut body = render_cluster("Purpose", "purpose", &self.purposes, config);
        body.append(render_cluster("People", "people", &self.people, config).as_str());
        body.append(render_cluster("Projects", "projects", &self.projects, config).as_str());
        body.append(
            render_cluster("Production", "production", &self.production_systems, config).as_str(),
        );
        body.append(render_cluster("Property", "property", &self.property_items, config).as_str());
        dot.append(body.as_str());
    }

    /// Appends the body of the document in the flat layout.
    pub fn write_flat_nodes(&self, dot: &mut String, config: &DotConfig)
        ensures
            final(dot)@ == old(dot)@ + flat_text(self@, config@),
    {
        let mut body = String::new();
        write_nodes(&mut body, &self.purposes, config);
        let ghost first = body@;
        write_nodes(&mut body, &self.people, config);
        write_nodes(&mut body, &self.projects, config);
        write_nodes(&mut body, &self.production_systems, config);
        write_nodes(&mut body, &self.property_items, config);
        assert(first =~= concat_all(node_lines::<Purpose>(self@.purposes, config@)));
        dot.append(body.as_str());
    }

    /// Appends one edge statement per relationship, in their order.
    pub fn write_edges(&self, dot: &mut String, _config: &DotConfig)
        ensures
            final(dot)@ == old(dot)@ + concat_all(edge_lines(self@.relationships)),
    {
        let n = self.relationships.len();
        let ghost lines = edge_lines(self@.relationships);
        let mut block = String::new();
        let mut i: usize = 0;
        while i < n
            invariant
                n == self.relationships.len(),
                i <= n,
                lines == edge_lines(self@.relationships),
                block@ == concat_all(lines.take(i as int)),
            decreases n - i,
        {
            let rel = &self.relationships[i];
            let attrs = resolve_edge(rel);
            let line = render_edge(rel.subject_id.as_str(), rel.object_id.as_str(), &attrs);
            block.append(line.as_str());
            proof {
                lemma_concat_all_step(lines, i as int);
            }
            i = i + 1;
        }
        assert(lines.take(n as int) =~= lines);
        dot.append(block.as_str());
    }

    /// Renders the organization as a DOT document.
    pub fn to_dot(&self, config: &DotConfig) -> (dot: String)
        ensures
            dot@ == dot_document(self@, config@),
    {
        let mut dot = render_header(self.name.as_str(), config);
        if config.use_hierarchical_layout {
            self.write_hierarchical_layout(&mut dot, config);
        } else if config.use_subgraphs {
            self.write_subgraphs(&mut dot, config);
        } else {
            self.write_flat_nodes(&mut dot, config);
        }
        dot.append("\n");
        self.write_edges(&mut dot, config);
        dot.append("}\n");
        dot
    }
}

} // verus!
