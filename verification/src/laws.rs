//! Properties that hold across the engines and building blocks.
use vstd::prelude::*;
use vstd::utf8::encode_utf8;
use vstd::utf8::encode_utf8_valid_utf8;
use vstd::utf8::valid_utf8;

use crate::bench::Benchmark;
use crate::html::decimal;
use crate::html::digit_char;
use crate::html::escape;
use crate::html::escape_char;
use crate::output::Output;
use crate::page::teams_html;
use crate::page::teams_items_html;
use crate::page::team_html;

verus! {

/// From an empty output, maud, markup and horrorshow write the same bytes for
/// the same table.
pub proof fn lemma_engines_agree_on_big_table(table: Seq<Seq<usize>>)
    ensures
        <crate::engines::maud::Benchmark as Benchmark>::big_table_written(Seq::empty(), table)
            == <crate::engines::markup::Benchmark as Benchmark>::big_table_written(
            Seq::empty(),
            table,
        ),
        <crate::engines::markup::Benchmark as Benchmark>::big_table_written(Seq::empty(), table)
            == <crate::engines::horrorshow::Benchmark as Benchmark>::big_table_written(
            Seq::empty(),
            table,
        ),
{
    let page = encode_utf8(crate::page::big_table_html(table));
    assert(Seq::<u8>::empty() + page == page);
}

/// markup and horrorshow write the same bytes for the same teams, whatever the
/// output held before.
pub proof fn lemma_markup_horrorshow_agree_on_teams(
    before: Seq<u8>,
    teams: (u16, Seq<(Seq<char>, u8)>),
)
    ensures
        <crate::engines::markup::Benchmark as Benchmark>::teams_written(before, teams)
            == <crate::engines::horrorshow::Benchmark as Benchmark>::teams_written(before, teams),
{
}

/// The list items of a season with or without empty class attributes: the
/// variant with them is longer by `class=""` and its leading space (9
/// characters) for each team after the champion.
pub proof fn lemma_empty_class_items_len(teams: Seq<(Seq<char>, u8)>)
    ensures
        teams.len() >= 1 ==> teams_items_html(teams, true).len() == teams_items_html(
            teams,
            false,
        ).len() + 9 * (teams.len() - 1),
        teams.len() <= 1 ==> teams_items_html(teams, true) == teams_items_html(teams, false),
    decreases teams.len(),
{
    reveal_strlit(" class=\"\"");
    if teams.len() > 0 {
        lemma_empty_class_items_len(teams.drop_last());
        if teams.len() == 1 {
            assert(team_html(0, teams.last(), true) == team_html(0, teams.last(), false));
            assert(teams.drop_last().len() == 0);
        }
    }
}

/// maud's teams page differs from the one of markup and horrorshow exactly by
/// the empty class attributes of the teams after the champion: with at most
/// one team the pages agree; otherwise maud's is longer by 9 characters for
/// each further team.
pub proof fn lemma_maud_teams_page(year: u16, teams: Seq<(Seq<char>, u8)>)
    ensures
        teams.len() <= 1 ==> teams_html(year, teams, true) == teams_html(year, teams, false),
        teams.len() >= 1 ==> teams_html(year, teams, true).len() == teams_html(
            year,
            teams,
            false,
        ).len() + 9 * (teams.len() - 1),
{
    lemma_empty_class_items_len(teams);
}

/// After `clear`, the output holds nothing, and what any engine writes next
/// depends on its input alone: every round of the benchmark renders the same
/// bytes.
pub proof fn lemma_cleared_rounds_agree<B: Benchmark>(
    first: B::Output,
    later: B::Output,
    table: Seq<Seq<usize>>,
    teams: (u16, Seq<(Seq<char>, u8)>),
)
    requires
        first.written() == Seq::<u8>::empty(),
        later.written() == Seq::<u8>::empty(),
    ensures
        B::big_table_written(first.written(), table) == B::big_table_written(later.written(), table),
        B::teams_written(first.written(), teams) == B::teams_written(later.written(), teams),
{
}

/// What a `String` output holds is always valid UTF-8, so reading it back as
/// text never fails.
pub proof fn lemma_string_output_is_utf8(output: String)
    ensures
        valid_utf8(output.written()),
{
    encode_utf8_valid_utf8(output@);
}

/// Escaped text holds none of `<`, `>` and `"`: interpolated names cannot
/// open or close markup or attributes.
pub proof fn lemma_escape_has_no_markup(s: Seq<char>)
    ensures
        forall|i: int|
            0 <= i < escape(s).len() ==> #[trigger] escape(s)[i] != '<' && escape(s)[i] != '>'
                && escape(s)[i] != '"',
    decreases s.len(),
{
    if s.len() > 0 {
        lemma_escape_has_no_markup(s.drop_last());
        let prefix = escape(s.drop_last());
        let tail = escape_char(s.last());
        assert forall|i: int| 0 <= i < escape(s).len() implies #[trigger] escape(s)[i] != '<'
            && escape(s)[i] != '>' && escape(s)[i] != '"' by {
            if i >= prefix.len() {
                assert(escape(s)[i] == tail[i - prefix.len()]);
            } else {
                assert(escape(s)[i] == prefix[i]);
            }
        }
    }
}

/// Text without `&`, `<`, `>` and `"` is left unchanged by escaping.
pub proof fn lemma_escape_plain_text(s: Seq<char>)
    requires
        forall|i: int|
            0 <= i < s.len() ==> #[trigger] s[i] != '&' && s[i] != '<' && s[i] != '>' && s[i]
                != '"',
    ensures
        escape(s) == s,
    decreases s.len(),
{
    if s.len() > 0 {
        assert(s.drop_last().len() == s.len() - 1);
        assert forall|i: int| 0 <= i < s.drop_last().len() implies #[trigger] s.drop_last()[i]
            != '&' && s.drop_last()[i] != '<' && s.drop_last()[i] != '>' && s.drop_last()[i]
            != '"' by {
            assert(s.drop_last()[i] == s[i]);
        }
        lemma_escape_plain_text(s.drop_last());
        assert(s[s.len() - 1] == s.last());
        assert(s.drop_last().push(s.last()) == s);
    }
}

/// The decimal representation of a number is a non-empty run of the digits
/// `0`-`9` that starts with `0` only for zero itself.
pub proof fn lemma_decimal_digits(n: nat)
    ensures
        decimal(n).len() >= 1,
        forall|i: int| 0 <= i < decimal(n).len() ==> '0' <= #[trigger] decimal(n)[i] <= '9',
        decimal(n)[0] == '0' <==> n == 0,
    decreases n,
{
    if n >= 10 {
        lemma_decimal_digits(n / 10);
        assert(decimal(n)[0] == decimal(n / 10)[0]);
        assert forall|i: int| 0 <= i < decimal(n).len() implies '0' <= #[trigger] decimal(n)[i]
            <= '9' by {
            if i < decimal(n / 10).len() {
                assert(decimal(n)[i] == decimal(n / 10)[i]);
            } else {
                assert(decimal(n)[i] == digit_char(n % 10));
            }
        }
    }
}

} // verus!
