use tmpls::data::BigTable;
use tmpls::data::Teams;
use tmpls::digest::collect_output;
use tmpls::engines::markup;
use tmpls::engines::sailfish::BufferWrapper;
use tmpls::bench::Benchmark;
use tmpls::output::Output;

#[test]
fn default_big_table_is_square_of_indices() {
    let t = BigTable::default();
    assert_eq!(t.table.len(), 100);
    for row in &t.table {
        assert_eq!(row, &(0..100).collect::<Vec<usize>>());
    }
}

#[test]
fn default_teams_season() {
    let t = Teams::default();
    assert_eq!(t.year, 2015);
    let got: Vec<(&str, u8)> = t.teams.iter().map(|t| (t.name.as_str(), t.score)).collect();
    assert_eq!(
        got,
        vec![("Jiangsu", 43), ("Beijing", 27), ("Guangzhou", 22), ("Shandong", 12)]
    );
}

#[test]
fn string_output_clear_and_bytes() {
    let mut s = String::from("héllo");
    assert_eq!(Output::as_bytes(&s), "héllo".as_bytes());
    Output::clear(&mut s);
    assert!(Output::as_bytes(&s).is_empty());
}

#[test]
fn vec_output_clear_and_bytes() {
    let mut v: Vec<u8> = vec![1, 2, 3];
    assert_eq!(Output::as_bytes(&v), &[1, 2, 3]);
    Output::clear(&mut v);
    assert!(Output::as_bytes(&v).is_empty());
}

#[test]
fn buffer_wrapper_output() {
    let w = BufferWrapper::default();
    assert!(w.as_bytes().is_empty());
    let mut w = BufferWrapper(sailfish::runtime::Buffer::from("abc"));
    assert_eq!(w.as_bytes(), b"abc");
    w.clear();
    assert!(w.as_bytes().is_empty());
}

#[test]
fn collect_output_clears_and_is_stable() {
    let mut out = String::new();
    markup::Benchmark.teams(&mut out, &Teams::default()).unwrap();
    let first = collect_output(&mut out);
    assert!(out.is_empty());
    markup::Benchmark.teams(&mut out, &Teams::default()).unwrap();
    let second = collect_output(&mut out);
    assert_eq!(first, second);
    assert!(out.is_empty());

    let mut other = String::from("different");
    assert_ne!(collect_output(&mut other), first);
}
