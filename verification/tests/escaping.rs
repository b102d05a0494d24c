use managers_template::dot::{render_edge, render_node, render_plain_edge};
use managers_template::style::{EdgeAttributes, NodeAttributes};
use managers_template::text::{escape_dot, push_decimal, push_escaped, push_quoted, str_eq};
use managers_template::{
    DisplayAttributes, DotConfig, EdgeDisplayAttributes, EdgeWeight, EntityMap, EntityType,
    Organization, Person, RelationType, Relationship,
};

/// Reads a DOT quoted string that starts at `at`: the text it stands for and
/// the position behind its closing quote.
fn read_quoted_at(text: &str, at: usize) -> Option<(String, usize)> {
    let chars: Vec<char> = text.chars().collect();
    if at >= chars.len() || chars[at] != '"' {
        return None;
    }
    let mut value = String::new();
    let mut i = at + 1;
    while i < chars.len() {
        let c = chars[i];
        if c == '"' {
            return Some((value, i + 1));
        }
        if c == '\\' && i + 1 < chars.len() {
            match chars[i + 1] {
                '\\' => value.push('\\'),
                '"' => value.push('"'),
                'n' => value.push('\n'),
                other => {
                    value.push('\\');
                    value.push(other);
                }
            }
            i += 2;
        } else {
            value.push(c);
            i += 1;
        }
    }
    None
}

const TRICKY: [&str; 12] = [
    "",
    "plain",
    "\\",
    "\"",
    "\n",
    "\\n",
    "\\\"",
    "a\"b\\c\nd",
    "ends with backslash\\",
    "\" [injected=\"yes",
    "\\\\\\\"\"\n\n",
    "ünïcödé \"日本\"\n\\",
];

#[test]
fn escape_dot_escapes_backslash_quote_and_line_feed() {
    assert_eq!(escape_dot(""), "");
    assert_eq!(escape_dot("plain text"), "plain text");
    assert_eq!(escape_dot("\\"), "\\\\");
    assert_eq!(escape_dot("\""), "\\\"");
    assert_eq!(escape_dot("\n"), "\\n");
    assert_eq!(escape_dot("a\"b\\c\nd"), "a\\\"b\\\\c\\nd");
    assert_eq!(escape_dot("\\n"), "\\\\n");
    assert_eq!(escape_dot("\\\""), "\\\\\\\"");
    assert_eq!(escape_dot("tab\tand\rreturn"), "tab\tand\rreturn");
    assert_eq!(escape_dot("ünï \"x\""), "ünï \\\"x\\\"");
}

#[test]
fn escape_dot_is_the_three_replacements_in_order() {
    for s in TRICKY {
        let by_replacing = s.replace('\\', "\\\\").replace('"', "\\\"").replace('\n', "\\n");
        assert_eq!(escape_dot(s), by_replacing);
    }
}

#[test]
fn push_escaped_and_push_quoted_append() {
    let mut out = String::from("x=");
    push_escaped(&mut out, "a\"b");
    assert_eq!(out, "x=a\\\"b");
    push_quoted(&mut out, "c\nd");
    assert_eq!(out, "x=a\\\"b\"c\\nd\"");
    let mut empty = String::new();
    push_quoted(&mut empty, "");
    assert_eq!(empty, "\"\"");
}

#[test]
fn push_decimal_writes_numbers() {
    for n in [0u64, 1, 9, 10, 11, 99, 100, 101, 12345, 4294967295, u64::MAX] {
        let mut out = String::from("n=");
        push_decimal(&mut out, n);
        assert_eq!(out, format!("n={}", n));
    }
}

#[test]
fn str_eq_compares_texts() {
    assert!(str_eq("", ""));
    assert!(str_eq("abc", "abc"));
    assert!(!str_eq("abc", "abd"));
    assert!(!str_eq("abc", "ab"));
    assert!(!str_eq("", "a"));
    assert!(str_eq("日本語", "日本語"));
    assert!(!str_eq("日本語", "日本誤"));
}

#[test]
fn quoted_values_of_a_node_statement_read_back() {
    for id in TRICKY {
        for label in TRICKY {
            let attrs = NodeAttributes {
                label: label.to_string(),
                shape: "box",
                fillcolor: id.to_string(),
            };
            let line = render_node(id, &attrs);
            let (got_id, after_id) = read_quoted_at(&line, 4).unwrap();
            assert_eq!(got_id, id);
            let rest: String = line.chars().skip(after_id).collect();
            assert!(rest.starts_with(" [label=\""));
            let (got_label, after_label) = read_quoted_at(&line, after_id + 8).unwrap();
            assert_eq!(got_label, label);
            let rest: String = line.chars().skip(after_label).collect();
            assert!(rest.starts_with(", shape=box, fillcolor=\""));
            let (got_color, after_color) = read_quoted_at(&line, after_label + 23).unwrap();
            assert_eq!(got_color, id);
            let rest: String = line.chars().skip(after_color).collect();
            assert_eq!(rest, "];\n");
        }
    }
}

#[test]
fn quoted_values_of_an_edge_statement_read_back() {
    for from in TRICKY {
        for own in TRICKY {
            let attrs = EdgeAttributes {
                label: "Uses",
                style: "solid".to_string(),
                color: own.to_string(),
                xlabel: Some(own.to_string()),
                weight: Some(EdgeWeight::whole(2)),
            };
            let line = render_edge(from, own, &attrs);
            let (got_from, at) = read_quoted_at(&line, 2).unwrap();
            assert_eq!(got_from, from);
            let (got_to, at) = read_quoted_at(&line, at + 4).unwrap();
            assert_eq!(got_to, own);
            let (got_label, at) = read_quoted_at(&line, at + 8).unwrap();
            assert_eq!(got_label, "Uses");
            let (got_color, at) = read_quoted_at(&line, at + 21).unwrap();
            assert_eq!(got_color, own);
            let (got_xlabel, at) = read_quoted_at(&line, at + 9).unwrap();
            assert_eq!(got_xlabel, own);
            let rest: String = line.chars().skip(at).collect();
            assert_eq!(rest, ", weight=2];\n");
        }
    }
}

#[test]
fn plain_edges_quote_both_ends() {
    assert_eq!(render_plain_edge("    ", "a", "b"), "    \"a\" -> \"b\";\n");
    assert_eq!(render_plain_edge("  ", "a\"", "b\\"), "  \"a\\\"\" -> \"b\\\\\";\n");
}

#[test]
fn a_quote_in_a_name_cannot_add_attributes() {
    let mut people = EntityMap::new();
    people.insert(
        "p\"1".to_string(),
        Person {
            id: "p\"1".to_string(),
            name: "Eve\", shape=\"star".to_string(),
            title: "line\\".to_string(),
            display: DisplayAttributes {
                color: Some("red\"]; evil [x=\"".to_string()),
                ..DisplayAttributes::default()
            },
        },
    );
    let mut rel = Relationship {
        subject_id: "p\"1".to_string(),
        subject_type: EntityType::Person,
        predicate: RelationType::Leads,
        object_id: "x\ny".to_string(),
        object_type: EntityType::Project,
        display: EdgeDisplayAttributes::default(),
    };
    rel.display.label = Some("say \"hi\"".to_string());
    let org = Organization {
        name: "Org".to_string(),
        purposes: EntityMap::new(),
        people,
        projects: EntityMap::new(),
        progress_metrics: EntityMap::new(),
        production_systems: EntityMap::new(),
        property_items: EntityMap::new(),
        relationships: vec![rel],
    };
    let config = DotConfig {
        use_hierarchical_layout: false,
        use_subgraphs: false,
        ..DotConfig::default()
    };
    let dot = org.to_dot(&config);
    assert!(dot.contains(
        "    \"p\\\"1\" [label=\"Eve\\\", shape=\\\"star\\nline\\\\\", shape=box, fillcolor=\"red\\\"]; evil [x=\\\"\"];\n"
    ));
    assert!(dot.contains(
        "  \"p\\\"1\" -> \"x\\ny\" [label=\"Leads\", style=solid, color=\"black\", xlabel=\"say \\\"hi\\\"\"];\n"
    ));
    let node_line = dot.lines().find(|l| l.starts_with("    \"p")).unwrap();
    let (id, at) = read_quoted_at(node_line, 4).unwrap();
    assert_eq!(id, "p\"1");
    let (label, at) = read_quoted_at(node_line, at + 8).unwrap();
    assert_eq!(label, "Eve\", shape=\"star\nline\\");
    let (color, _) = read_quoted_at(node_line, at + 23).unwrap();
    assert_eq!(color, "red\"]; evil [x=\"");
}
