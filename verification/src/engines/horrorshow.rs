//! The horrorshow engine: its `html!` templates, written out as verified code.
//! horrorshow escapes and formats values only inside the `TemplateBuffer` that
//! its template closures receive, so the values go through this crate's own
//! decimal formatting and escaping, which write what that buffer writes into a
//! `String` (`&`, `<`, `>` and `"` become entities).
use vstd::prelude::*;
use vstd::utf8::encode_utf8;

use crate::data::BigTable;
use crate::data::Teams;
use crate::html::push_decimal;
use crate::html::push_escaped;
use crate::output::lemma_encode_utf8_concat;
use crate::page::big_table_html;
use crate::page::teams_html;
use crate::page::write_big_table;
use crate::page::write_teams;
use crate::page::HtmlWriter;

verus! {

/// `horrorshow::Error`, what a failed horrorshow rendering reports.
#[verifier::external_type_specification]
#[verifier::external_body]
pub struct ExHorrorshowError(::horrorshow::Error);

/// The horrorshow engine.
#[derive(Debug, Default)]
pub struct Benchmark;

impl HtmlWriter for Benchmark {
    type Error = ::horrorshow::Error;

    open spec fn infallible() -> bool {
        true
    }

    /// `li(class? = None)` writes no class attribute at all.
    open spec fn keeps_empty_class() -> bool {
        false
    }

    fn write_usize(out: &mut String, n: usize) -> (r: Result<(), ::horrorshow::Error>) {
        push_decimal(out, n as u64);
        Ok(())
    }

    fn write_u16(out: &mut String, n: u16) -> (r: Result<(), ::horrorshow::Error>) {
        push_decimal(out, n as u64);
        Ok(())
    }

    fn write_u8(out: &mut String, n: u8) -> (r: Result<(), ::horrorshow::Error>) {
        push_decimal(out, n as u64);
        Ok(())
    }

    fn write_text(out: &mut String, text: &String) -> (r: Result<(), ::horrorshow::Error>) {
        push_escaped(out, text.as_str());
        Ok(())
    }

    fn empty_class() -> (b: bool) {
        false
    }
}

impl crate::bench::Benchmark for Benchmark {
    type Output = String;

    type Error = ::horrorshow::Error;

    open spec fn never_fails() -> bool {
        true
    }

    /// horrorshow appends the page to what the output held.
    open spec fn big_table_written(before: Seq<u8>, table: Seq<Seq<usize>>) -> Seq<u8> {
        before + encode_utf8(big_table_html(table))
    }

    /// horrorshow appends the page to what the output held.
    open spec fn teams_written(before: Seq<u8>, teams: (u16, Seq<(Seq<char>, u8)>)) -> Seq<u8> {
        before + encode_utf8(teams_html(teams.0, teams.1, false))
    }

    fn big_table(&mut self, output: &mut String, input: &BigTable) -> (r: Result<
        (),
        ::horrorshow::Error,
    >)
        ensures
            r is Ok,
            final(output)@ == old(output)@ + big_table_html(input@),
    {
        let r = write_big_table::<Benchmark>(output, input);
        proof {
            lemma_encode_utf8_concat(old(output)@, big_table_html(input@));
        }
        r
    }

    fn teams(&mut self, output: &mut String, input: &Teams) -> (r: Result<
        (),
        ::horrorshow::Error,
    >)
        ensures
            r is Ok,
            final(output)@ == old(output)@ + teams_html(input@.0, input@.1, false),
    {
        let r = write_teams::<Benchmark>(output, input);
        proof {
            lemma_encode_utf8_concat(old(output)@, teams_html(input@.0, input@.1, false));
        }
        r
    }
}

} // verus!
