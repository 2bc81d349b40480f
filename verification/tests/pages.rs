use tmpls::bench::Benchmark;
use tmpls::data::BigTable;
use tmpls::data::Team;
use tmpls::data::Teams;
use tmpls::engines::horrorshow;
use tmpls::engines::markup;
use tmpls::engines::maud;

fn small_table() -> BigTable {
    BigTable { table: vec![vec![0, 1], vec![10, 255]] }
}

const SMALL_TABLE_HTML: &str =
    "<table><tr><td>0</td><td>1</td></tr><tr><td>10</td><td>255</td></tr></table>";

const TEAMS_HTML: &str = "<html><head><title>2015</title></head><body><h1>CLS 2015</h1><ul>\
<li class=\"champion\"><b>Jiangsu</b>: 43</li>\
<li><b>Beijing</b>: 27</li>\
<li><b>Guangzhou</b>: 22</li>\
<li><b>Shandong</b>: 12</li>\
</ul></body></html>";

const MAUD_TEAMS_HTML: &str = "<html><head><title>2015</title></head><body><h1>CLS 2015</h1><ul>\
<li class=\"champion\"><b>Jiangsu</b>: 43</li>\
<li class=\"\"><b>Beijing</b>: 27</li>\
<li class=\"\"><b>Guangzhou</b>: 22</li>\
<li class=\"\"><b>Shandong</b>: 12</li>\
</ul></body></html>";

#[test]
fn maud_big_table_exact() {
    let mut out = String::from("previous");
    maud::Benchmark.big_table(&mut out, &small_table()).unwrap();
    assert_eq!(out, SMALL_TABLE_HTML);
}

#[test]
fn markup_big_table_appends() {
    let mut out = String::from("x");
    markup::Benchmark.big_table(&mut out, &small_table()).unwrap();
    assert_eq!(out, format!("x{}", SMALL_TABLE_HTML));
}

#[test]
fn horrorshow_big_table_appends() {
    let mut out = String::from("x");
    horrorshow::Benchmark.big_table(&mut out, &small_table()).unwrap();
    assert_eq!(out, format!("x{}", SMALL_TABLE_HTML));
}

#[test]
fn empty_table_renders_bare_table() {
    let mut out = String::new();
    maud::Benchmark.big_table(&mut out, &BigTable { table: vec![] }).unwrap();
    assert_eq!(out, "<table></table>");
    let mut out = String::new();
    markup::Benchmark.big_table(&mut out, &BigTable { table: vec![vec![]] }).unwrap();
    assert_eq!(out, "<table><tr></tr></table>");
}

#[test]
fn default_teams_pages() {
    let teams = Teams::default();
    let mut out = String::new();
    maud::Benchmark.teams(&mut out, &teams).unwrap();
    assert_eq!(out, MAUD_TEAMS_HTML);
    let mut out = String::new();
    markup::Benchmark.teams(&mut out, &teams).unwrap();
    assert_eq!(out, TEAMS_HTML);
    let mut out = String::new();
    horrorshow::Benchmark.teams(&mut out, &teams).unwrap();
    assert_eq!(out, TEAMS_HTML);
}

#[test]
fn team_names_are_escaped() {
    let teams = Teams {
        year: 7,
        teams: vec![Team { name: "a<b>&\"c'".to_owned(), score: 0 }],
    };
    let expected = "<html><head><title>7</title></head><body><h1>CLS 7</h1><ul>\
<li class=\"champion\"><b>a&lt;b&gt;&amp;&quot;c'</b>: 0</li></ul></body></html>";
    for render in [
        |o: &mut String, t: &Teams| maud::Benchmark.teams(o, t).is_ok(),
        |o: &mut String, t: &Teams| markup::Benchmark.teams(o, t).is_ok(),
        |o: &mut String, t: &Teams| horrorshow::Benchmark.teams(o, t).is_ok(),
    ] {
        let mut out = String::new();
        assert!(render(&mut out, &teams));
        assert_eq!(out, expected);
    }
}

#[test]
fn non_ascii_names_pass_through() {
    let teams = Teams {
        year: 65535,
        teams: vec![
            Team { name: "Zürich ≤".to_owned(), score: 255 },
            Team { name: String::new(), score: 9 },
        ],
    };
    let mut out = String::new();
    markup::Benchmark.teams(&mut out, &teams).unwrap();
    assert_eq!(
        out,
        "<html><head><title>65535</title></head><body><h1>CLS 65535</h1><ul>\
<li class=\"champion\"><b>Zürich ≤</b>: 255</li><li><b></b>: 9</li></ul></body></html>"
    );
    let mut hs = String::new();
    horrorshow::Benchmark.teams(&mut hs, &teams).unwrap();
    assert_eq!(hs, out);
}

#[test]
fn engines_agree_on_default_big_table() {
    let table = BigTable::default();
    let mut a = String::new();
    let mut b = String::new();
    let mut c = String::new();
    maud::Benchmark.big_table(&mut a, &table).unwrap();
    markup::Benchmark.big_table(&mut b, &table).unwrap();
    horrorshow::Benchmark.big_table(&mut c, &table).unwrap();
    assert_eq!(a, b);
    assert_eq!(b, c);
    assert!(a.starts_with("<table><tr><td>0</td><td>1</td>"));
    assert!(a.ends_with("<td>98</td><td>99</td></tr></table>"));
    assert_eq!(a.matches("<tr>").count(), 100);
    assert_eq!(a.matches("<td>").count(), 10000);
}

#[test]
fn maud_teams_page_longer_by_empty_classes() {
    let teams = Teams::default();
    let mut m = String::new();
    let mut k = String::new();
    maud::Benchmark.teams(&mut m, &teams).unwrap();
    markup::Benchmark.teams(&mut k, &teams).unwrap();
    assert_eq!(m.len(), k.len() + 9 * (teams.teams.len() - 1));

    let single = Teams { year: 1, teams: vec![Team { name: "x".to_owned(), score: 1 }] };
    let mut m = String::new();
    let mut k = String::new();
    maud::Benchmark.teams(&mut m, &single).unwrap();
    markup::Benchmark.teams(&mut k, &single).unwrap();
    assert_eq!(m, k);
}

#[test]
fn rendered_pages_are_utf8() {
    let mut out = String::new();
    maud::Benchmark.teams(&mut out, &Teams::default()).unwrap();
    assert!(std::str::from_utf8(out.as_bytes()).is_ok());
}
