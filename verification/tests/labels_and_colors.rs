use managers_template::dot::{
    write_person_node, write_production_node, write_progress_node, write_project_node,
    write_property_node, write_purpose_node,
};
use managers_template::style::{resolve_edge, text_or, DotNode};
use managers_template::text::truncate;
use managers_template::{
    ColorConfig, DisplayAttributes, DotConfig, EdgeDisplayAttributes, EdgeWeight, EntityType,
    Person, ProductionSystem, ProgressMetric, Project, ProjectStatus, PropertyItem, PropertyType,
    Purpose, RelationType, Relationship, SystemStatus,
};

fn purpose(description: &str) -> Purpose {
    Purpose {
        id: "m".to_string(),
        description: description.to_string(),
        display: DisplayAttributes::default(),
    }
}

fn project(name: &str, status: ProjectStatus) -> Project {
    Project {
        id: "x".to_string(),
        name: name.to_string(),
        status,
        display: DisplayAttributes::default(),
    }
}

fn system(name: &str, status: SystemStatus) -> ProductionSystem {
    ProductionSystem {
        id: "s".to_string(),
        name: name.to_string(),
        status,
        display: DisplayAttributes::default(),
    }
}

fn person(name: &str, title: &str) -> Person {
    Person {
        id: "p".to_string(),
        name: name.to_string(),
        title: title.to_string(),
        display: DisplayAttributes::default(),
    }
}

fn hidden_status() -> DotConfig {
    DotConfig { show_status: false, ..DotConfig::default() }
}

const PROJECT_STATUSES: [(ProjectStatus, &str, &str); 4] = [
    (ProjectStatus::Planning, "Planning", "lightyellow"),
    (ProjectStatus::Active, "Active", "lightcyan"),
    (ProjectStatus::Completed, "Completed", "lightgray"),
    (ProjectStatus::OnHold, "OnHold", "orange"),
];

const SYSTEM_STATUSES: [(SystemStatus, &str, &str); 4] = [
    (SystemStatus::Operational, "Operational", "green"),
    (SystemStatus::Maintenance, "Maintenance", "yellow"),
    (SystemStatus::Degraded, "Degraded", "orange"),
    (SystemStatus::Offline, "Offline", "red"),
];

#[test]
fn truncate_leaves_short_texts_unchanged() {
    assert_eq!(truncate("", 30), "");
    assert_eq!(truncate("short", 30), "short");
    let thirty = "abcdefghijklmnopqrstuvwxyz0123";
    assert_eq!(thirty.chars().count(), 30);
    assert_eq!(truncate(thirty, 30), thirty);
}

#[test]
fn truncate_cuts_long_texts_to_the_limit() {
    let thirty_one = "abcdefghijklmnopqrstuvwxyz01234";
    let cut = truncate(thirty_one, 30);
    assert_eq!(cut, "abcdefghijklmnopqrstuvwxyz0...");
    assert_eq!(cut.chars().count(), 30);
    assert_eq!(truncate("abcdefgh", 6), "abc...");
    assert_eq!(truncate("abcdefgh", 7), "abcd...");
    assert_eq!(truncate("abcdefgh", 8), "abcdefgh");
}

#[test]
fn truncate_with_a_limit_below_three_gives_only_the_dots() {
    assert_eq!(truncate("abcdefgh", 3), "...");
    assert_eq!(truncate("abcdefgh", 2), "...");
    assert_eq!(truncate("abcdefgh", 0), "...");
    assert_eq!(truncate("", 0), "");
    assert_eq!(truncate("ab", 2), "ab");
}

#[test]
fn truncate_counts_characters() {
    let text = "ääääääääää";
    assert_eq!(truncate(text, 10), text);
    assert_eq!(truncate(text, 9), "ääääää...");
    assert_eq!(truncate("日本語のとても長い説明", 8), "日本語のと...");
}

#[test]
fn purpose_label_is_cut_at_thirty_characters() {
    let config = DotConfig::default();
    let long = purpose("To provide quality products and services.");
    let attrs = long.resolve(&config);
    assert_eq!(attrs.label, "To provide quality products...");
    assert_eq!(attrs.label.chars().count(), 30);
    assert!(attrs.label.ends_with("..."));

    let exact = purpose("123456789012345678901234567890");
    assert_eq!(exact.resolve(&config).label, "123456789012345678901234567890");
    let short = purpose("Mission");
    assert_eq!(short.resolve(&config).label, "Mission");
    assert_eq!(short.resolve(&config).shape, "ellipse");
    assert_eq!(short.resolve(&config).fillcolor, "lightblue");
}

#[test]
fn purpose_label_override_is_used_as_it_is() {
    let mut p = purpose("To provide quality products and services.");
    p.display.label_override = Some("A label of more than thirty characters, kept whole".to_string());
    let attrs = p.resolve(&DotConfig::default());
    assert_eq!(attrs.label, "A label of more than thirty characters, kept whole");
}

#[test]
fn person_label_has_the_title_on_a_second_line() {
    let config = DotConfig::default();
    assert_eq!(person("Alice", "Founder").resolve(&config).label, "Alice\nFounder");
    assert_eq!(person("Alice", "").resolve(&config).label, "Alice");
    let mut named = person("Alice", "Founder");
    named.display.label_override = Some("Boss".to_string());
    assert_eq!(named.resolve(&config).label, "Boss");
    assert_eq!(named.resolve(&config).shape, "box");
    assert_eq!(named.resolve(&config).fillcolor, "lightgreen");
}

#[test]
fn project_label_shows_the_status_when_asked() {
    for (status, name, _) in PROJECT_STATUSES {
        let p = project("Project X", status);
        let shown = p.resolve(&DotConfig::default()).label;
        assert_eq!(shown, format!("Project X\n[{}]", name));
        assert!(shown.contains(&format!("[{}]", name)));
        let hidden = p.resolve(&hidden_status()).label;
        assert_eq!(hidden, "Project X");
        assert!(!hidden.contains(&format!("[{}]", name)));
    }
}

#[test]
fn production_label_shows_the_status_when_asked() {
    for (status, name, _) in SYSTEM_STATUSES {
        let s = system("Billing", status);
        let shown = s.resolve(&DotConfig::default()).label;
        assert_eq!(shown, format!("Billing\n[{}]", name));
        let hidden = s.resolve(&hidden_status()).label;
        assert_eq!(hidden, "Billing");
        assert!(!hidden.contains('['));
    }
}

#[test]
fn status_follows_a_label_override() {
    let mut p = project("Project X", ProjectStatus::Completed);
    p.display.label_override = Some("PX".to_string());
    assert_eq!(p.resolve(&DotConfig::default()).label, "PX\n[Completed]");
    assert_eq!(p.resolve(&hidden_status()).label, "PX");
    let mut s = system("Billing", SystemStatus::Offline);
    s.display.label_override = Some("B".to_string());
    assert_eq!(s.resolve(&DotConfig::default()).label, "B\n[Offline]");
}

#[test]
fn a_name_that_holds_the_status_keeps_it_when_statuses_are_hidden() {
    let p = project("Plan [Active]", ProjectStatus::Active);
    assert_eq!(p.resolve(&hidden_status()).label, "Plan [Active]");
}

#[test]
fn project_color_follows_the_status() {
    let config = DotConfig::default();
    for (status, _, color) in PROJECT_STATUSES {
        let attrs = project("X", status).resolve(&config);
        assert_eq!(attrs.fillcolor, color);
        assert_eq!(attrs.shape, "component");
        for (other, _, other_color) in PROJECT_STATUSES {
            if other != status {
                assert_ne!(attrs.fillcolor, other_color);
            }
        }
    }
}

#[test]
fn production_color_follows_the_status() {
    let config = DotConfig::default();
    for (status, _, color) in SYSTEM_STATUSES {
        let attrs = system("S", status).resolve(&config);
        assert_eq!(attrs.fillcolor, color);
        assert_eq!(attrs.shape, "cylinder");
        for (other, _, other_color) in SYSTEM_STATUSES {
            if other != status {
                assert_ne!(attrs.fillcolor, other_color);
            }
        }
    }
}

#[test]
fn status_colors_come_from_the_configuration() {
    let colors = ColorConfig {
        project_planning: "p1",
        project_active: "p2",
        project_completed: "p3",
        project_onhold: "p4",
        production_operational: "s1",
        production_maintenance: "s2",
        production_degraded: "s3",
        production_offline: "s4",
        ..ColorConfig::default()
    };
    let config = DotConfig { colors, ..DotConfig::default() };
    let expected = ["p1", "p2", "p3", "p4"];
    for (i, (status, _, _)) in PROJECT_STATUSES.iter().enumerate() {
        assert_eq!(project("X", *status).resolve(&config).fillcolor, expected[i]);
    }
    let expected = ["s1", "s2", "s3", "s4"];
    for (i, (status, _, _)) in SYSTEM_STATUSES.iter().enumerate() {
        assert_eq!(system("S", *status).resolve(&config).fillcolor, expected[i]);
    }
}

#[test]
fn an_own_color_wins_over_every_default() {
    let config = DotConfig::default();
    let own = DisplayAttributes { color: Some("#ff00ff".to_string()), ..DisplayAttributes::default() };
    let mut p = purpose("Mission");
    p.display = own.clone();
    assert_eq!(p.resolve(&config).fillcolor, "#ff00ff");
    let mut q = person("Ann", "");
    q.display = own.clone();
    assert_eq!(q.resolve(&config).fillcolor, "#ff00ff");
    for (status, _, _) in PROJECT_STATUSES {
        let mut x = project("X", status);
        x.display = own.clone();
        assert_eq!(x.resolve(&config).fillcolor, "#ff00ff");
    }
    for (status, _, _) in SYSTEM_STATUSES {
        let mut s = system("S", status);
        s.display = own.clone();
        assert_eq!(s.resolve(&config).fillcolor, "#ff00ff");
    }
}

#[test]
fn shape_comes_from_the_configuration_alone() {
    let mut config = DotConfig::default();
    config.node_shapes.person = "octagon";
    let mut p = person("Ann", "");
    p.display.shape = Some("star".to_string());
    assert_eq!(p.resolve(&config).shape, "octagon");
    let metric = ProgressMetric {
        id: "k".to_string(),
        name: "Velocity".to_string(),
        metric_type: "KPI".to_string(),
        display: DisplayAttributes::default(),
    };
    let attrs = metric.resolve(&config);
    assert_eq!(attrs.shape, "octagon");
    assert_eq!(attrs.label, "Velocity");
    assert_eq!(attrs.fillcolor, "lightblue");
}

#[test]
fn property_item_is_labelled_with_its_name() {
    let item = PropertyItem {
        id: "a".to_string(),
        name: "Office".to_string(),
        property_type: PropertyType::Intellectual,
        display: DisplayAttributes::default(),
    };
    let attrs = item.resolve(&DotConfig::default());
    assert_eq!(attrs.label, "Office");
    assert_eq!(attrs.shape, "folder");
    assert_eq!(attrs.fillcolor, "wheat");
}

#[test]
fn text_or_prefers_the_own_text() {
    assert_eq!(text_or(&Some("own".to_string()), "fallback"), "own");
    assert_eq!(text_or(&None, "fallback"), "fallback");
    assert_eq!(text_or(&Some(String::new()), "fallback"), "");
}

#[test]
fn edge_attributes_fall_back_to_solid_black() {
    let mut rel = Relationship {
        subject_id: "a".to_string(),
        subject_type: EntityType::Project,
        predicate: RelationType::Serves,
        object_id: "b".to_string(),
        object_type: EntityType::Purpose,
        display: EdgeDisplayAttributes::default(),
    };
    let attrs = resolve_edge(&rel);
    assert_eq!(attrs.label, "Serves");
    assert_eq!(attrs.style, "solid");
    assert_eq!(attrs.color, "black");
    assert_eq!(attrs.xlabel, None);
    assert!(attrs.weight.is_none());
    rel.display = EdgeDisplayAttributes {
        color: Some("blue".to_string()),
        style: Some("dotted".to_string()),
        label: Some("helps".to_string()),
        weight: Some(EdgeWeight::whole(7)),
    };
    let attrs = resolve_edge(&rel);
    assert_eq!(attrs.style, "dotted");
    assert_eq!(attrs.color, "blue");
    assert_eq!(attrs.xlabel, Some("helps".to_string()));
    assert_eq!(attrs.weight.as_ref().map(|w| w.as_str()), Some("7"));
}

#[test]
fn node_writers_append_one_statement_each() {
    let config = DotConfig::default();
    let mut dot = String::from("start\n");
    write_purpose_node(&mut dot, "m", &purpose("Mission"), &config);
    write_person_node(&mut dot, "p", &person("Ann", "Lead"), &config);
    write_project_node(&mut dot, "x", &project("X", ProjectStatus::OnHold), &config);
    write_production_node(&mut dot, "s", &system("S", SystemStatus::Degraded), &config);
    write_property_node(
        &mut dot,
        "a",
        &PropertyItem {
            id: "a".to_string(),
            name: "Asset".to_string(),
            property_type: PropertyType::Financial,
            display: DisplayAttributes::default(),
        },
        &config,
    );
    write_progress_node(
        &mut dot,
        "k",
        &ProgressMetric {
            id: "k".to_string(),
            name: "Velocity".to_string(),
            metric_type: "KPI".to_string(),
            display: DisplayAttributes::default(),
        },
        &config,
    );
    let expected = [
        "start\n",
        "    \"m\" [label=\"Mission\", shape=ellipse, fillcolor=\"lightblue\"];\n",
        "    \"p\" [label=\"Ann\\nLead\", shape=box, fillcolor=\"lightgreen\"];\n",
        "    \"x\" [label=\"X\\n[OnHold]\", shape=component, fillcolor=\"orange\"];\n",
        "    \"s\" [label=\"S\\n[Degraded]\", shape=cylinder, fillcolor=\"orange\"];\n",
        "    \"a\" [label=\"Asset\", shape=folder, fillcolor=\"wheat\"];\n",
        "    \"k\" [label=\"Velocity\", shape=box, fillcolor=\"lightblue\"];\n",
    ]
    .concat();
    assert_eq!(dot, expected);
}

#[test]
fn status_names() {
    for (status, name, _) in PROJECT_STATUSES {
        assert_eq!(status.name(), name);
    }
    for (status, name, _) in SYSTEM_STATUSES {
        assert_eq!(status.name(), name);
    }
}

#[test]
fn display_attributes_default_to_nothing_set() {
    let d = DisplayAttributes::default();
    assert!(d.color.is_none() && d.shape.is_none() && d.style.is_none());
    assert!(d.label_override.is_none());
    let e = EdgeDisplayAttributes::default();
    assert!(e.color.is_none() && e.style.is_none() && e.label.is_none() && e.weight.is_none());
}

#[test]
fn label_methods_follow_the_rules_of_each_kind() {
    assert_eq!(purpose("To provide quality products and services.").label(), "To provide quality products...");
    assert_eq!(person("Bob", "").label(), "Bob");
    assert_eq!(person("Bob", "CTO").label(), "Bob\nCTO");
    assert_eq!(project("X", ProjectStatus::Active).label(true), "X\n[Active]");
    assert_eq!(project("X", ProjectStatus::Active).label(false), "X");
    assert_eq!(system("S", SystemStatus::Offline).label(true), "S\n[Offline]");
    assert_eq!(system("S", SystemStatus::Offline).label(false), "S");
}
