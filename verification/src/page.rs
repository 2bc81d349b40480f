//! The two pages of the benchmark, stated as character sequences, and the
//! verified writers that produce them from the inputs.  How a number or a
//! piece of text is rendered is left to the engine (`HtmlWriter`).
use vstd::prelude::*;

use crate::data::{BigTable, Teams};
use crate::html::{decimal, escape};

verus! {

/// The cells of one table row.
pub open spec fn cells_html(row: Seq<usize>) -> Seq<char>
    decreases row.len(),
{
    if row.len() == 0 {
        Seq::empty()
    } else {
        cells_html(row.drop_last()) + "<td>"@ + decimal(row.last() as nat) + "</td>"@
    }
}

/// The rows of a table.
pub open spec fn rows_html(rows: Seq<Seq<usize>>) -> Seq<char>
    decreases rows.len(),
{
    if rows.len() == 0 {
        Seq::empty()
    } else {
        rows_html(rows.drop_last()) + "<tr>"@ + cells_html(rows.last()) + "</tr>"@
    }
}

/// The big-table page: one `<tr>` per row and one `<td>` per number.
pub open spec fn big_table_html(table: Seq<Seq<usize>>) -> Seq<char> {
    "<table>"@ + rows_html(table) + "</table>"@
}

/// The class attribute of the list item at `idx`: the first team is the
/// champion; the others get an empty class attribute when `empty_class` holds
/// and none otherwise.
pub open spec fn class_attr(idx: int, empty_class: bool) -> Seq<char> {
    if idx == 0 {
        " class=\"champion\""@
    } else if empty_class {
        " class=\"\""@
    } else {
        Seq::empty()
    }
}

/// The list item of the team at `idx`.
pub open spec fn team_html(idx: int, team: (Seq<char>, u8), empty_class: bool) -> Seq<char> {
    "<li"@ + class_attr(idx, empty_class) + "><b>"@ + escape(team.0) + "</b>: "@ + decimal(
        team.1 as nat,
    ) + "</li>"@
}

/// The list items of all teams, in order.
pub open spec fn teams_items_html(teams: Seq<(Seq<char>, u8)>, empty_class: bool) -> Seq<char>
    decreases teams.len(),
{
    if teams.len() == 0 {
        Seq::empty()
    } else {
        teams_items_html(teams.drop_last(), empty_class) + team_html(
            teams.len() - 1,
            teams.last(),
            empty_class,
        )
    }
}

/// The teams page: the year as title and heading, then the list of teams.
pub open spec fn teams_html(year: u16, teams: Seq<(Seq<char>, u8)>, empty_class: bool) -> Seq<
    char,
> {
    "<html><head><title>"@ + decimal(year as nat) + "</title></head><body><h1>CLS "@ + decimal(
        year as nat,
    ) + "</h1><ul>"@ + teams_items_html(teams, empty_class) + "</ul></body></html>"@
}

/// How an engine renders the values that a page interpolates.
pub trait HtmlWriter {
    /// What a failed write reports.
    type Error;

    /// Holds of an engine whose writes never fail.
    spec fn infallible() -> bool;

    /// Whether the engine writes an empty class attribute for a list item
    /// whose only class is switched off.
    spec fn keeps_empty_class() -> bool;

    /// Appends the decimal representation of `n`.
    fn write_usize(out: &mut String, n: usize) -> (r: Result<(), Self::Error>)
        ensures
            Self::infallible() ==> r is Ok,
            r is Ok ==> final(out)@ == old(out)@ + decimal(n as nat),
    ;

    /// Appends the decimal representation of `n`.
    fn write_u16(out: &mut String, n: u16) -> (r: Result<(), Self::Error>)
        ensures
            Self::infallible() ==> r is Ok,
            r is Ok ==> final(out)@ == old(out)@ + decimal(n as nat),
    ;

    /// Appends the decimal representation of `n`.
    fn write_u8(out: &mut String, n: u8) -> (r: Result<(), Self::Error>)
        ensures
            Self::infallible() ==> r is Ok,
            r is Ok ==> final(out)@ == old(out)@ + decimal(n as nat),
    ;

    /// Appends `text`, HTML-escaped.
    fn write_text(out: &mut String, text: &String) -> (r: Result<(), Self::Error>)
        ensures
            Self::infallible() ==> r is Ok,
            r is Ok ==> final(out)@ == old(out)@ + escape(text@),
    ;

    /// Whether the engine writes an empty class attribute for a list item
    /// whose only class is switched off.
    fn empty_class() -> (b: bool)
        ensures
            b == Self::keeps_empty_class(),
    ;
}

/// Appends the big-table page for `input`.
pub fn write_big_table<W: HtmlWriter>(out: &mut String, input: &BigTable) -> (r: Result<
    (),
    W::Error,
>)
    ensures
        W::infallible() ==> r is Ok,
        r is Ok ==> final(out)@ == old(out)@ + big_table_html(input@),
{
    let ghost start = out@;
    out.append("<table>");
    let n = input.table.len();
    let mut i: usize = 0;
    while i < n
        invariant
            n == input.table@.len(),
            i <= n,
            out@ == start + "<table>"@ + rows_html(input@.take(i as int)),
        decreases n - i,
    {
        let row = &input.table[i];
        let ghost before_row = out@;
        out.append("<tr>");
        let m = row.len();
        let mut j: usize = 0;
        while j < m
            invariant
                m == row@.len(),
                j <= m,
                out@ == before_row + "<tr>"@ + cells_html(row@.take(j as int)),
            decreases m - j,
        {
            out.append("<td>");
            W::write_usize(out, row[j])?;
            out.append("</td>");
            assert(row@.take(j + 1).drop_last() == row@.take(j as int));
            j += 1;
        }
        out.append("</tr>");
        assert(row@.take(m as int) == row@);
        assert(input@.take(i + 1).drop_last() == input@.take(i as int));
        assert(input@[i as int] == row@);
        i += 1;
    }
    out.append("</table>");
    assert(input@.take(n as int) == input@);
    Ok(())
}

/// Appends the teams page for `input`.
pub fn write_teams<W: HtmlWriter>(out: &mut String, input: &Teams) -> (r: Result<(), W::Error>)
    ensures
        W::infallible() ==> r is Ok,
        r is Ok ==> final(out)@ == old(out)@ + teams_html(
            input@.0,
            input@.1,
            W::keeps_empty_class(),
        ),
{
    let ghost start = out@;
    let empty_class = W::empty_class();
    out.append("<html><head><title>");
    W::write_u16(out, input.year)?;
    out.append("</title></head><body><h1>CLS ");
    W::write_u16(out, input.year)?;
    out.append("</h1><ul>");
    let ghost head = out@;
    let n = input.teams.len();
    let mut i: usize = 0;
    while i < n
        invariant
            n == input.teams@.len(),
            i <= n,
            empty_class == W::keeps_empty_class(),
            out@ == head + teams_items_html(input@.1.take(i as int), empty_class),
        decreases n - i,
    {
        let team = &input.teams[i];
        let ghost before = out@;
        if i == 0 {
            out.append("<li class=\"champion\"><b>");
        } else if empty_class {
            out.append("<li class=\"\"><b>");
        } else {
            out.append("<li><b>");
        }
        W::write_text(out, &team.name)?;
        out.append("</b>: ");
        W::write_u8(out, team.score)?;
        out.append("</li>");
        proof {
            reveal_strlit("<li class=\"champion\"><b>");
            reveal_strlit("<li class=\"\"><b>");
            reveal_strlit("<li><b>");
            reveal_strlit("<li");
            reveal_strlit("><b>");
            reveal_strlit(" class=\"champion\"");
            reveal_strlit(" class=\"\"");
            assert(input@.1.take(i + 1).drop_last() == input@.1.take(i as int));
            assert(input@.1[i as int] == team@);
            assert(out@ == before + team_html(i as int, team@, empty_class));
        }
        i += 1;
    }
    out.append("</ul></body></html>");
    assert(input@.1.take(n as int) == input@.1);
    Ok(())
}

} // verus!
