use mona_spy::data_provider::wiki::get_cell_content;
use mona_spy::data_provider::wiki::get_cell_content_as_string;
use mona_spy::data_provider::wiki::create_configuration;
use mona_spy::data_provider::wiki::promotional_codes::PromotionalCode;
use mona_spy::data_provider::wiki::promotional_codes::PromotionalCodes;
use mona_spy::data_provider::wiki::TableCell;
use mona_spy::data_provider::wiki::TableRow;
use mona_spy::data_provider::wiki::WikiNode;
use mona_spy::data_provider::wiki::WikiResource;

fn made_from(nodes: &Vec<WikiNode>) -> PromotionalCodes {
    <PromotionalCodes as WikiResource>::from(nodes)
}

fn wiki_node(node: &parse_wiki_text::Node) -> WikiNode {
    match node {
        parse_wiki_text::Node::Text { value, .. } => WikiNode::Text { value: value.to_string() },
        parse_wiki_text::Node::Link { text, .. } => {
            WikiNode::Link { text: text.iter().map(wiki_node).collect() }
        }
        parse_wiki_text::Node::Table { rows, .. } => WikiNode::Table {
            rows: rows
                .iter()
                .map(|row| TableRow {
                    cells: row
                        .cells
                        .iter()
                        .map(|cell| TableCell {
                            content: cell.content.iter().map(wiki_node).collect(),
                        })
                        .collect(),
                })
                .collect(),
        },
        _ => WikiNode::Other,
    }
}

fn parse_page(wiki_text: &str) -> Vec<WikiNode> {
    create_configuration().parse(wiki_text).nodes.iter().map(wiki_node).collect()
}

fn text(value: &str) -> WikiNode {
    WikiNode::Text { value: value.to_string() }
}

fn cell(value: &str) -> TableCell {
    TableCell { content: vec![text(value)] }
}

fn row(values: &[&str]) -> TableRow {
    TableRow { cells: values.iter().map(|value| cell(value)).collect() }
}

fn table(rows: Vec<TableRow>) -> WikiNode {
    WikiNode::Table { rows }
}

fn code(code: Option<&str>, server: Option<&str>, reward: Option<&str>) -> PromotionalCode {
    PromotionalCode {
        code: code.map(|value| value.to_string()),
        server: server.map(|value| value.to_string()),
        reward: reward.map(|value| value.to_string()),
        discovered: None,
        expires: None,
    }
}

fn codes(names: &[&str]) -> PromotionalCodes {
    PromotionalCodes { codes: names.iter().map(|name| code(Some(name), None, None)).collect() }
}

#[test]
fn new_code_has_no_field() {
    let made = PromotionalCode::new();
    assert_eq!(
        made,
        PromotionalCode { code: None, server: None, reward: None, discovered: None, expires: None }
    );
}

#[test]
fn title_and_kind_of_the_codes_page() {
    assert_eq!(PromotionalCodes::get_title(), "Promotional_Codes");
    assert_eq!(
        PromotionalCodes::resource_type(),
        "mona_spy::data_provider::wiki::promotional_codes::PromotionalCodes"
    );
}

#[test]
fn cell_content_joins_text_and_link_text() {
    let nodes = vec![
        text("50 "),
        WikiNode::Link { text: vec![text("Primo"), WikiNode::Other, text("gems")] },
        WikiNode::Other,
        WikiNode::Table { rows: vec![row(&["hidden"])] },
        text(" x2"),
    ];
    assert_eq!(get_cell_content(&nodes), vec!["50 ", "Primo", "gems", " x2"]);
    assert_eq!(get_cell_content_as_string(&nodes), "50 Primogems x2");
}

#[test]
fn cell_content_of_nested_links() {
    let nodes = vec![WikiNode::Link {
        text: vec![text("a"), WikiNode::Link { text: vec![text("b")] }, text("c")],
    }];
    assert_eq!(get_cell_content_as_string(&nodes), "abc");
    assert_eq!(get_cell_content_as_string(&Vec::new()), "");
}

#[test]
fn codes_come_from_the_first_available_table() {
    let nodes = vec![
        table(vec![row(&["Code"]), row(&["EARLY"])]),
        text("intro == Available == list"),
        WikiNode::Other,
        table(vec![
            row(&["Code", "Server", "Reward", "Discovered", "Expires"]),
            row(&["GENSHINGIFT", "All", "50 Primogems", "2020-11-11", "Never"]),
            row(&["XYZ", "Asia", "Mora", "2021-01-01", "2021-02-01"]),
        ]),
        table(vec![row(&["Code"]), row(&["LATER"])]),
    ];
    let found = made_from(&nodes);
    assert_eq!(
        found,
        PromotionalCodes {
            codes: vec![
                PromotionalCode {
                    code: Some("GENSHINGIFT".to_string()),
                    server: Some("All".to_string()),
                    reward: Some("50 Primogems".to_string()),
                    discovered: Some("2020-11-11".to_string()),
                    expires: Some("Never".to_string()),
                },
                PromotionalCode {
                    code: Some("XYZ".to_string()),
                    server: Some("Asia".to_string()),
                    reward: Some("Mora".to_string()),
                    discovered: Some("2021-01-01".to_string()),
                    expires: Some("2021-02-01".to_string()),
                },
            ]
        }
    );
}

#[test]
fn tables_outside_the_available_section_are_skipped() {
    let nodes = vec![
        text("== Available =="),
        text("== Expired =="),
        table(vec![row(&["Code"]), row(&["OLD"])]),
    ];
    assert_eq!(made_from(&nodes), PromotionalCodes { codes: vec![] });
    let nodes = vec![table(vec![row(&["Code"]), row(&["NOHEADING"])])];
    assert_eq!(made_from(&nodes), PromotionalCodes { codes: vec![] });
    assert!(made_from(&Vec::new()).empty());
}

#[test]
fn a_text_with_both_headings_ends_the_section() {
    let nodes = vec![
        text("== Available == and == Expired =="),
        table(vec![row(&["Code"]), row(&["BOTH"])]),
    ];
    assert_eq!(made_from(&nodes), PromotionalCodes { codes: vec![] });
}

#[test]
fn the_section_can_begin_again() {
    let nodes = vec![
        text("== Available =="),
        text("== Expired =="),
        text("other"),
        text("== Available =="),
        text("still"),
        table(vec![row(&["Code"]), row(&["AGAIN"])]),
    ];
    assert_eq!(made_from(&nodes), codes(&["AGAIN"]));
}

#[test]
fn unknown_columns_and_spare_cells_are_ignored() {
    let nodes = vec![
        text("== Available =="),
        table(vec![
            row(&["Notes", "Code", "Server"]),
            row(&["n/a", "ONE", "EU", "spare", "cells"]),
            row(&["n/a", "TWO"]),
            row(&[]),
        ]),
    ];
    assert_eq!(
        made_from(&nodes),
        PromotionalCodes {
            codes: vec![
                code(Some("ONE"), Some("EU"), None),
                code(Some("TWO"), None, None),
                code(None, None, None),
            ]
        }
    );
}

#[test]
fn the_last_column_of_a_name_wins() {
    let nodes = vec![
        text("== Available =="),
        table(vec![row(&["Code", "Reward", "Code"]), row(&["FIRST", "Mora", "SECOND"])]),
    ];
    assert_eq!(
        made_from(&nodes),
        PromotionalCodes { codes: vec![code(Some("SECOND"), None, Some("Mora"))] }
    );
}

#[test]
fn a_table_without_rows_gives_no_codes() {
    let nodes = vec![
        text("== Available =="),
        table(vec![]),
        table(vec![row(&["Code"]), row(&["NEXT"])]),
    ];
    assert_eq!(made_from(&nodes), PromotionalCodes { codes: vec![] });
    let nodes = vec![text("== Available =="), table(vec![row(&["Code", "Server"])])];
    assert_eq!(made_from(&nodes), PromotionalCodes { codes: vec![] });
}

#[test]
fn headings_are_read_through_links() {
    let nodes = vec![
        text("== Available =="),
        table(vec![
            TableRow {
                cells: vec![TableCell {
                    content: vec![WikiNode::Link { text: vec![text("Co"), text("de")] }],
                }],
            },
            row(&["LINKED"]),
        ]),
    ];
    assert_eq!(made_from(&nodes), codes(&["LINKED"]));
}

#[test]
fn difference_keeps_what_the_other_lacks() {
    let current = codes(&["A", "B", "C", "B", "D"]);
    let previous = codes(&["B", "X"]);
    assert_eq!(current.difference(&previous), codes(&["A", "C", "D"]));
    assert_eq!(previous.difference(&current), codes(&["X"]));
    assert_eq!(current.difference(&codes(&[])), current);
    assert_eq!(codes(&[]).difference(&current), codes(&[]));
}

#[test]
fn difference_compares_every_field() {
    let current = PromotionalCodes {
        codes: vec![code(Some("A"), Some("EU"), None), code(Some("A"), Some("US"), None)],
    };
    let previous = PromotionalCodes { codes: vec![code(Some("A"), Some("EU"), None)] };
    assert_eq!(
        current.difference(&previous),
        PromotionalCodes { codes: vec![code(Some("A"), Some("US"), None)] }
    );
    let blank = PromotionalCodes { codes: vec![code(None, None, Some(""))] };
    let none = PromotionalCodes { codes: vec![code(None, None, None)] };
    assert_eq!(blank.difference(&none), blank);
}

#[test]
fn difference_with_itself_is_empty() {
    let current = codes(&["A", "B", "A"]);
    let difference = current.difference(&current);
    assert!(difference.empty());
    assert_eq!(difference, codes(&[]));
    assert!(!current.empty());
}

#[test]
fn same_as_and_clone_agree() {
    let one = code(Some("A"), None, Some("Mora"));
    let copy = one.clone();
    assert!(one.same_as(&copy));
    assert_eq!(one, copy);
    assert!(!one.same_as(&code(Some("A"), None, None)));
    assert!(!one.same_as(&code(Some("A"), Some("Mora"), None)));
    let all = codes(&["A", "B"]);
    assert_eq!(all.clone(), all);
}

#[test]
fn a_parsed_page_gives_its_available_codes() {
    let page = "Codes == Available == now\n{| class=\"wikitable\"\n! Code !! Server !! Reward\n|-\n| GENSHINGIFT || All || 50 Primogems\n|-\n| [[Code ABC|XYZ123]] || Asia || 10000 Mora\n|}\nOld == Expired == codes\n{|\n! Code\n|-\n| OLDCODE\n|}\n";
    let nodes = parse_page(page);
    let found = made_from(&nodes);
    assert_eq!(
        found,
        PromotionalCodes {
            codes: vec![
                code(Some("GENSHINGIFT"), Some("All"), Some("50 Primogems")),
                code(Some("XYZ123"), Some("Asia"), Some("10000 Mora")),
            ]
        }
    );
}

#[test]
fn a_parsed_page_keeps_text_links_and_tables() {
    let nodes = parse_page("plain [[Target|shown]] '''bold'''");
    assert_eq!(
        nodes,
        vec![
            text("plain "),
            WikiNode::Link { text: vec![text("shown")] },
            text(" "),
            WikiNode::Other,
            text("bold"),
            WikiNode::Other,
        ]
    );
    assert_eq!(parse_page(""), Vec::new());
}

#[test]
fn any_text_can_be_parsed() {
    let texts = [
        "{|",
        "|}",
        "{{",
        "}}",
        "[[",
        "]]",
        "[",
        "<tabber>",
        "</tabber>",
        "<ref>",
        "</div>",
        "'''''",
        "''x'''y",
        "==x",
        "== x ==",
        "\n\n\n",
        "{|\n|-\n|",
        "{|\n!a!!b\n|c||d",
        "{|\n|+ caption\n|-\n! a\n| b\n|}",
        "[[File:x|thumb|[[y]]]]",
        "[[category:x]]",
        "&amp; &nope; &#x41;",
        "__TOC__ __NOPE__",
        ";a:b\n*c\n#d\n:e",
        "----",
        "#REDIRECT [[x]]",
        " preformatted",
        "{{{a|b}}}",
        "{{a|b={{c}}|d}}",
        "<nowiki>[[x]]</nowiki>",
        "<!-- comment",
        "<!-- comment --> after",
        "https://example.test/ [https://example.test label] [bad]",
        "\u{0}\u{1}\u{7f}",
        "é [[é|ü]] {|\n! é\n|}",
        "{|\n{|\n|}\n|}",
        "[[a|[[b|[[c]]]]]]",
    ];
    for text in texts {
        let nodes = parse_page(text);
        let made = made_from(&nodes);
        assert!(made.empty(), "no section of available codes in {:?}", text);
    }
}
