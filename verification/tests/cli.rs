use tmpls::cli::render_case;
use tmpls::cli::select;
use tmpls::cli::ArgsError;
use tmpls::cli::Case;
use tmpls::cli::Tmpls;
use tmpls::engines::horrorshow;
use tmpls::engines::maud;

const NAMES: [&str; 3] = ["horrorshow", "markup", "maud"];

fn args(items: &[&str]) -> Vec<String> {
    items.iter().map(|s| s.to_string()).collect()
}

#[test]
fn case_names() {
    assert!(matches!(Case::try_from("big-table".to_owned()), Ok(Case::BigTable(_))));
    assert!(matches!(Case::try_from("teams".to_owned()), Ok(Case::Teams(_))));
    match Case::try_from("Teams".to_owned()) {
        Err(ArgsError::Case(s)) => assert_eq!(s, "Teams"),
        _ => panic!("expected an unknown case"),
    }
}

#[test]
fn usage_errors() {
    for a in [
        args(&[]),
        args(&["bench"]),
        args(&["bench", "teams"]),
        args(&["bench", "", "maud"]),
        args(&["bench", "teams", ""]),
        args(&["bench", "teams", "maud", "extra"]),
    ] {
        match select(&a, &NAMES) {
            Err(ArgsError::Usage(s)) => {
                let expected = if a.is_empty() { "template-benchmark" } else { "bench" };
                assert_eq!(s, expected);
            }
            _ => panic!("expected a usage error for {:?}", a),
        }
    }
    match select(&args(&["", "teams"]), &NAMES) {
        Err(ArgsError::Usage(s)) => assert_eq!(s, "template-benchmark"),
        _ => panic!("expected a usage error"),
    }
}

#[test]
fn unknown_engine_before_unknown_case() {
    match select(&args(&["b", "nope", "tera"]), &NAMES) {
        Err(ArgsError::Tmpl(s)) => assert_eq!(s, "tera"),
        _ => panic!("expected an unknown engine"),
    }
    match select(&args(&["b", "nope", "maud"]), &NAMES) {
        Err(ArgsError::Case(s)) => assert_eq!(s, "nope"),
        _ => panic!("expected an unknown case"),
    }
}

#[test]
fn selects_first_matching_engine() {
    match select(&args(&["b", "teams", "maud"]), &NAMES) {
        Ok((2, Case::Teams(t))) => assert_eq!(t.year, 2015),
        _ => panic!("expected maud and teams"),
    }
    match select(&args(&["b", "big-table", "x"]), &["x", "y", "x"]) {
        Ok((0, Case::BigTable(t))) => assert_eq!(t.table.len(), 100),
        _ => panic!("expected the first x"),
    }
}

#[test]
fn engine_lists() {
    let names = ["askama", "handlebars", "horrorshow", "markup", "maud"];
    assert_eq!(Tmpls(3).text(&names), "askama | handlebars | horrorshow...");
    assert_eq!(
        Tmpls(usize::MAX).text(&names),
        "askama | handlebars | horrorshow | markup | maud"
    );
    assert_eq!(Tmpls(0).text(&names), "...");
    assert_eq!(Tmpls(0).text(&[]), "");
    assert_eq!(Tmpls(1).text(&["only"]), "only");
}

#[test]
fn render_case_dispatches() {
    let mut out = String::new();
    render_case(&mut maud::Benchmark, &mut out, &Case::BigTable(tmpls::BigTable {
        table: vec![vec![5]],
    }))
    .unwrap();
    assert_eq!(out, "<table><tr><td>5</td></tr></table>");
    let mut out = String::new();
    render_case(&mut horrorshow::Benchmark, &mut out, &Case::Teams(tmpls::Teams {
        year: 3,
        teams: vec![],
    }))
    .unwrap();
    assert_eq!(out, "<html><head><title>3</title></head><body><h1>CLS 3</h1><ul></ul></body></html>");
}
