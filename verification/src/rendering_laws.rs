//! What the building blocks and pages are, stated independently of how they
//! are defined: numbers read back to themselves, escaping works character by
//! character, every cell and every team name appears whole, and the engine
//! list is cut after exactly `limit` names.
use vstd::prelude::*;

use crate::cli::name_entry;
use crate::cli::tmpls_text;
use crate::html::decimal;
use crate::html::digit_char;
use crate::html::escape;
use crate::page::big_table_html;
use crate::page::cells_html;
use crate::page::rows_html;
use crate::page::teams_html;
use crate::page::teams_items_html;

verus! {

/// The number that a run of decimal digits denotes, read from left to right.
pub open spec fn numeral_value(s: Seq<char>) -> int
    decreases s.len(),
{
    if s.len() == 0 {
        0
    } else {
        numeral_value(s.drop_last()) * 10 + (s.last() as int - '0' as int)
    }
}

/// Reading the decimal representation of `n` in base ten gives back `n`; one
/// more digit `0` at the end multiplies by ten.
pub proof fn lemma_decimal_reads_back(n: nat)
    ensures
        numeral_value(decimal(n)) == n,
        n >= 1 ==> decimal(10 * n) == decimal(n).push('0'),
    decreases n,
{
    if n >= 10 {
        lemma_decimal_reads_back(n / 10);
        let q = n / 10;
        let r = n % 10;
        assert(n == q * 10 + r) by (nonlinear_arith)
            requires
                q == n / 10,
                r == n % 10,
        ;
        assert(decimal(n).drop_last() == decimal(q));
        assert(decimal(n).last() == digit_char(r));
        assert(digit_char(r) as int == r + 48);
        assert('0' as int == 48);
        assert(numeral_value(decimal(n)) == numeral_value(decimal(q)) * 10 + r);
        assert(numeral_value(decimal(n)) == n);
    } else {
        assert('0' as int == 48);
        assert(digit_char(n) as int == n + 48);
        assert(decimal(n).drop_last() == Seq::<char>::empty());
        assert(numeral_value(Seq::<char>::empty()) == 0);
        assert(decimal(n).last() == digit_char(n));
        assert(numeral_value(decimal(n)) == n);
    }
    if n >= 1 {
        let m = 10 * n;
        assert(m / 10 == n && m % 10 == 0) by (nonlinear_arith)
            requires
                m == 10 * n,
        ;
        assert(m >= 10);
    }
}

/// The names joined by ` | `.
pub open spec fn joined(names: Seq<Seq<char>>) -> Seq<char>
    decreases names.len(),
{
    if names.len() == 0 {
        Seq::empty()
    } else if names.len() == 1 {
        names[0]
    } else {
        joined(names.drop_last()) + seq![' ', '|', ' '] + names.last()
    }
}

proof fn lemma_tmpls_prefix(names: Seq<Seq<char>>, limit: int, k: int)
    requires
        0 <= k <= names.len(),
        k <= limit,
    ensures
        tmpls_text(names, limit, 0) == joined(names.take(k)) + tmpls_text(names, limit, k),
    decreases k,
{
    if k == 0 {
        assert(names.take(0) == Seq::<Seq<char>>::empty());
        assert(joined(names.take(0)) + tmpls_text(names, limit, 0) == tmpls_text(names, limit, 0));
    } else {
        lemma_tmpls_prefix(names, limit, k - 1);
        reveal_strlit(" | ");
        assert(names.take(k).drop_last() == names.take(k - 1));
        assert(names.take(k).last() == names[k - 1]);
        if k == 1 {
            assert(names.take(k - 1) == Seq::<Seq<char>>::empty());
            assert(joined(names.take(1)) == names[0]);
        }
        assert(joined(names.take(k)) == joined(names.take(k - 1)) + name_entry(names, k - 1));
        assert(tmpls_text(names, limit, k - 1) == name_entry(names, k - 1) + tmpls_text(
            names,
            limit,
            k,
        ));
    }
}

/// The engine list shows at most `limit` names: with more names than that, it
/// is the first `limit` names joined by ` | ` and then `...`; otherwise it is
/// all names joined by ` | `.
pub proof fn lemma_engine_list_cut(names: Seq<Seq<char>>, limit: int)
    requires
        limit >= 0,
    ensures
        names.len() > limit ==> tmpls_text(names, limit, 0) == joined(names.take(limit)) + seq![
            '.',
            '.',
            '.',
        ],
        names.len() <= limit ==> tmpls_text(names, limit, 0) == joined(names),
{
    reveal_strlit("...");
    if names.len() > limit {
        lemma_tmpls_prefix(names, limit, limit);
    } else {
        lemma_tmpls_prefix(names, limit, names.len() as int);
        assert(names.take(names.len() as int) == names);
    }
}

/// Escaping goes character by character: the empty text stays empty, `&`,
/// `<`, `>` and `"` at the end of a text become `&amp;`, `&lt;`, `&gt;` and
/// `&quot;`, and any other last character is kept as it is.
pub proof fn lemma_escape_appends(s: Seq<char>, c: char)
    ensures
        escape(Seq::empty()) == Seq::<char>::empty(),
        c == '&' ==> escape(s.push(c)) == escape(s) + seq!['&', 'a', 'm', 'p', ';'],
        c == '<' ==> escape(s.push(c)) == escape(s) + seq!['&', 'l', 't', ';'],
        c == '>' ==> escape(s.push(c)) == escape(s) + seq!['&', 'g', 't', ';'],
        c == '"' ==> escape(s.push(c)) == escape(s) + seq!['&', 'q', 'u', 'o', 't', ';'],
        c != '&' && c != '<' && c != '>' && c != '"' ==> escape(s.push(c)) == escape(s).push(c),
{
    assert(s.push(c).drop_last() == s);
}

/// Escaping a concatenation is the concatenation of the escaped parts.
pub proof fn lemma_escape_concat(a: Seq<char>, b: Seq<char>)
    ensures
        escape(a + b) == escape(a) + escape(b),
    decreases b.len(),
{
    if b.len() == 0 {
        assert(a + b == a);
    } else {
        lemma_escape_concat(a, b.drop_last());
        assert((a + b).drop_last() == a + b.drop_last());
        assert((a + b).last() == b.last());
    }
}

/// Every number of a row gets a cell of its own, in order, and every row of
/// the table a `<tr>` of its own.
pub proof fn lemma_table_cells(t: Seq<Seq<usize>>, r: Seq<usize>, x: usize)
    ensures
        cells_html(Seq::empty()) == Seq::<char>::empty(),
        cells_html(r.push(x)) == cells_html(r) + "<td>"@ + decimal(x as nat) + "</td>"@,
        rows_html(Seq::empty()) == Seq::<char>::empty(),
        rows_html(t.push(r)) == rows_html(t) + "<tr>"@ + cells_html(r) + "</tr>"@,
        big_table_html(t.push(r)) == "<table>"@ + rows_html(t) + "<tr>"@ + cells_html(r)
            + "</tr>"@ + "</table>"@,
        big_table_html(seq![r]) == "<table>"@ + "<tr>"@ + cells_html(r) + "</tr>"@ + "</table>"@,
{
    assert(r.push(x).drop_last() == r);
    assert(t.push(r).drop_last() == t);
    assert(seq![r] == Seq::<Seq<usize>>::empty().push(r));
    assert(rows_html(seq![r]) == "<tr>"@ + cells_html(r) + "</tr>"@) by {
        assert(seq![r].drop_last() == Seq::<Seq<usize>>::empty());
        assert(seq![r].last() == r);
        assert(rows_html(Seq::<Seq<usize>>::empty()) == Seq::<char>::empty());
    }
}

/// The rows of two tables put one after the other render one after the other.
pub proof fn lemma_rows_concat(a: Seq<Seq<usize>>, b: Seq<Seq<usize>>)
    ensures
        rows_html(a + b) == rows_html(a) + rows_html(b),
    decreases b.len(),
{
    if b.len() == 0 {
        assert(a + b == a);
    } else {
        lemma_rows_concat(a, b.drop_last());
        assert((a + b).drop_last() == a + b.drop_last());
        assert((a + b).last() == b.last());
    }
}

/// Each team adds one list item that shows its whole escaped name and its
/// score; the first team's item carries the champion class.
pub proof fn lemma_team_items(teams: Seq<(Seq<char>, u8)>, team: (Seq<char>, u8), empty_class: bool)
    ensures
        teams_items_html(Seq::empty(), empty_class) == Seq::<char>::empty(),
        teams.len() == 0 ==> teams_items_html(teams.push(team), empty_class) == "<li class=\"champion\"><b>"@
            + escape(team.0) + "</b>: "@ + decimal(team.1 as nat) + "</li>"@,
        teams.len() > 0 && empty_class ==> teams_items_html(teams.push(team), empty_class)
            == teams_items_html(teams, empty_class) + "<li class=\"\"><b>"@ + escape(team.0)
            + "</b>: "@ + decimal(team.1 as nat) + "</li>"@,
        teams.len() > 0 && !empty_class ==> teams_items_html(teams.push(team), empty_class)
            == teams_items_html(teams, empty_class) + "<li><b>"@ + escape(team.0) + "</b>: "@
            + decimal(team.1 as nat) + "</li>"@,
{
    reveal_strlit("<li class=\"champion\"><b>");
    reveal_strlit("<li class=\"\"><b>");
    reveal_strlit("<li><b>");
    reveal_strlit("<li");
    reveal_strlit("><b>");
    reveal_strlit(" class=\"champion\"");
    reveal_strlit(" class=\"\"");
    assert(teams.push(team).drop_last() == teams);
    if teams.len() == 0 {
        assert(teams_items_html(teams, empty_class) == Seq::<char>::empty());
    }
}

/// The page of a season with one team: the year as title and heading, and one
/// champion item with the whole escaped name and the score.
pub proof fn lemma_single_team_page(year: u16, name: Seq<char>, score: u8, empty_class: bool)
    ensures
        teams_html(year, seq![(name, score)], empty_class) == "<html><head><title>"@ + decimal(
            year as nat,
        ) + "</title></head><body><h1>CLS "@ + decimal(year as nat)
            + "</h1><ul><li class=\"champion\"><b>"@ + escape(name) + "</b>: "@ + decimal(
            score as nat,
        ) + "</li></ul></body></html>"@,
{
    let empty: Seq<(Seq<char>, u8)> = Seq::empty();
    assert(seq![(name, score)] == empty.push((name, score)));
    lemma_team_items(empty, (name, score), empty_class);
    reveal_strlit("</h1><ul>");
    reveal_strlit("<li class=\"champion\"><b>");
    reveal_strlit("</h1><ul><li class=\"champion\"><b>");
    reveal_strlit("</li>");
    reveal_strlit("</ul></body></html>");
    reveal_strlit("</li></ul></body></html>");
    let items = teams_items_html(seq![(name, score)], empty_class);
    let a = "<html><head><title>"@ + decimal(year as nat) + "</title></head><body><h1>CLS "@
        + decimal(year as nat);
    assert(teams_html(year, seq![(name, score)], empty_class) == a + "</h1><ul>"@ + items
        + "</ul></body></html>"@);
    assert(a + "</h1><ul>"@ + items + "</ul></body></html>"@ == a
        + "</h1><ul><li class=\"champion\"><b>"@ + escape(name) + "</b>: "@ + decimal(
        score as nat,
    ) + "</li></ul></body></html>"@);
}

} // verus!
