use package_site::models::Meta;
use package_site::models::Pkg;
use package_site::models::SearchPackage;
use package_site::models::SearchResult;
use package_site::models::Version;

fn meta(hasmeta: bool, version: &str) -> Meta {
    Meta { hasmeta, version: version.to_string() }
}

fn ver(repo: &str, metas: Vec<Meta>) -> Version {
    Version { repo: repo.to_string(), meta: metas }
}

fn result_of(names: &[String]) -> SearchResult {
    SearchResult {
        packages: names.iter().map(|n| SearchPackage { name: n.clone() }).collect(),
    }
}

fn names(n: usize) -> Vec<String> {
    (1..=n).map(|i| format!("pkg{}", i)).collect()
}

const BASE: &str = "https://packages.example.org";

fn expected_search(names: &[String], query: &str) -> String {
    let mut s = format!("<b>Found {} matching package(s)</b>:\n\n", names.len());
    for name in names.iter().take(11) {
        s.push_str(&format!("<a href=\"{}/packages/{}\">{}</a>\n", BASE, name, name));
    }
    if names.len() > 11 {
        s.push_str(&format!(
            "\nFor more results, check out <a href=\"{}/search?q={}&noredir=true\">packages.aosc.io</a>",
            BASE, query
        ));
    }
    s
}

#[test]
fn renders_name_description_and_version_rows() {
    let p = Pkg {
        name: "oma".to_string(),
        description: "a package manager".to_string(),
        version_matrix: vec![
            ver("stable", vec![meta(true, "1.2")]),
            ver("edge", vec![meta(true, "3.0")]),
        ],
    };
    assert_eq!(
        p.render(),
        "<b>oma</b>\n\na package manager\n\n<b>stable</b>: <code>1.2</code>\n<b>edge</b>: <code>3.0</code>\n"
    );
}

#[test]
fn repo_without_displayable_entry_emits_no_line() {
    let p = Pkg {
        name: "oma".to_string(),
        description: "d".to_string(),
        version_matrix: vec![
            ver("stable", vec![meta(false, "1.0"), meta(true, ""), meta(false, "")]),
        ],
    };
    assert_eq!(p.render(), "<b>oma</b>\n\nd\n\n");
}

#[test]
fn first_displayable_entry_wins_and_later_ones_are_ignored() {
    let p = Pkg {
        name: "oma".to_string(),
        description: "d".to_string(),
        version_matrix: vec![
            ver(
                "stable",
                vec![meta(false, "0.9"), meta(true, ""), meta(true, "1.2"), meta(true, "9.9")],
            ),
        ],
    };
    assert_eq!(p.render(), "<b>oma</b>\n\nd\n\n<b>stable</b>: <code>1.2</code>\n");
}

#[test]
fn empty_matrix_renders_header_only() {
    let p = Pkg {
        name: "n".to_string(),
        description: "".to_string(),
        version_matrix: vec![],
    };
    assert_eq!(p.render(), "<b>n</b>\n\n\n\n");
}

#[test]
fn eleven_results_render_in_full_with_no_trailer() {
    let ns = names(11);
    let rendered = result_of(&ns).fmt_result("oma", BASE);
    assert_eq!(rendered, expected_search(&ns, "oma"));
    assert!(!rendered.contains("For more results"));
    for n in &ns {
        assert!(rendered.contains(&format!("<a href=\"{}/packages/{}\">{}</a>\n", BASE, n, n)));
    }
}

#[test]
fn twelve_results_render_eleven_plus_one_trailer() {
    let ns = names(12);
    let rendered = result_of(&ns).fmt_result("oma", BASE);
    assert_eq!(rendered, expected_search(&ns, "oma"));
    assert!(!rendered.contains("/packages/pkg12\""));
    assert_eq!(rendered.matches("For more results").count(), 1);
}

#[test]
fn many_results_never_render_past_the_window() {
    let ns = names(40);
    let rendered = result_of(&ns).fmt_result("q", BASE);
    assert_eq!(rendered, expected_search(&ns, "q"));
    assert!(rendered.contains("<b>Found 40 matching package(s)</b>"));
    assert!(!rendered.contains("/packages/pkg12\""));
    assert!(!rendered.contains("/packages/pkg30\""));
}

#[test]
fn is_empty_reports_exactly_the_empty_result() {
    assert!(result_of(&[]).is_empty());
    assert!(!result_of(&names(1)).is_empty());
}

#[test]
fn search_entries_keep_service_order() {
    let ns: Vec<String> = ["zzz", "aaa", "mmm"].iter().map(|s| s.to_string()).collect();
    let rendered = result_of(&ns).fmt_result("q", BASE);
    let z = rendered.find("/packages/zzz").unwrap();
    let a = rendered.find("/packages/aaa").unwrap();
    let m = rendered.find("/packages/mmm").unwrap();
    assert!(z < a && a < m);
}
