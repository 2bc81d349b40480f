use tmpls::html::push_decimal;
use tmpls::html::push_escaped;

#[test]
fn decimals() {
    for (n, s) in [(0u64, "0"), (7, "7"), (10, "10"), (1234567890, "1234567890"), (u64::MAX, "18446744073709551615")] {
        let mut out = String::from("#");
        push_decimal(&mut out, n);
        assert_eq!(out, format!("#{}", s));
    }
}

#[test]
fn escaping() {
    let mut out = String::new();
    push_escaped(&mut out, "<script>&\"'≤");
    assert_eq!(out, "&lt;script&gt;&amp;&quot;'≤");
    let mut out = String::from("keep");
    push_escaped(&mut out, "");
    assert_eq!(out, "keep");
    let mut out = String::new();
    push_escaped(&mut out, "plain text");
    assert_eq!(out, "plain text");
}
