//! The markup engine: its `markup::define!` templates, written out as verified
//! code that calls markup's own `Render` implementations for the values.
use vstd::prelude::*;
use vstd::utf8::encode_utf8;

use crate::data::BigTable;
use crate::data::Teams;
use crate::html::decimal;
use crate::html::escape;
use crate::output::lemma_encode_utf8_concat;
use crate::page::big_table_html;
use crate::page::teams_html;
use crate::page::write_big_table;
use crate::page::write_teams;
use crate::page::HtmlWriter;

verus! {

/// `core::fmt::Error`, the error of a failed formatting write.
#[verifier::external_type_specification]
#[verifier::external_body]
pub struct ExFmtError(core::fmt::Error);

/// `<usize as markup::Render>::render`: appends the decimal digits of `value`
/// to the string; writing to a `String` never fails, so the result is `Ok`.
#[verifier::external_body]
fn markup_render_usize(value: usize, writer: &mut String) -> (r: Result<(), core::fmt::Error>)
    ensures
        r is Ok,
        final(writer)@ == old(writer)@ + decimal(value as nat),
{
    ::markup::Render::render(&value, writer)
}

/// `<u16 as markup::Render>::render`: appends the decimal digits of `value`;
/// writing to a `String` never fails.
#[verifier::external_body]
fn markup_render_u16(value: u16, writer: &mut String) -> (r: Result<(), core::fmt::Error>)
    ensures
        r is Ok,
        final(writer)@ == old(writer)@ + decimal(value as nat),
{
    ::markup::Render::render(&value, writer)
}

/// `<u8 as markup::Render>::render`: appends the decimal digits of `value`;
/// writing to a `String` never fails.
#[verifier::external_body]
fn markup_render_u8(value: u8, writer: &mut String) -> (r: Result<(), core::fmt::Error>)
    ensures
        r is Ok,
        final(writer)@ == old(writer)@ + decimal(value as nat),
{
    ::markup::Render::render(&value, writer)
}

/// `<String as markup::Render>::render` (through `markup::escape`): appends
/// `value` with `&`, `<`, `>` and `"` replaced by their entities, every other
/// character unchanged; writing to a `String` never fails.
#[verifier::external_body]
fn markup_render_string(value: &String, writer: &mut String) -> (r: Result<(), core::fmt::Error>)
    ensures
        r is Ok,
        final(writer)@ == old(writer)@ + escape(value@),
{
    ::markup::Render::render(value, writer)
}

/// The markup engine.
#[derive(Debug, Default)]
pub struct Benchmark;

impl HtmlWriter for Benchmark {
    type Error = core::fmt::Error;

    open spec fn infallible() -> bool {
        true
    }

    /// `li[class = None]` writes no class attribute at all.
    open spec fn keeps_empty_class() -> bool {
        false
    }

    fn write_usize(out: &mut String, n: usize) -> (r: Result<(), core::fmt::Error>) {
        markup_render_usize(n, out)
    }

    fn write_u16(out: &mut String, n: u16) -> (r: Result<(), core::fmt::Error>) {
        markup_render_u16(n, out)
    }

    fn write_u8(out: &mut String, n: u8) -> (r: Result<(), core::fmt::Error>) {
        markup_render_u8(n, out)
    }

    fn write_text(out: &mut String, text: &String) -> (r: Result<(), core::fmt::Error>) {
        markup_render_string(text, out)
    }

    fn empty_class() -> (b: bool) {
        false
    }
}

impl crate::bench::Benchmark for Benchmark {
    type Output = String;

    type Error = core::fmt::Error;

    open spec fn never_fails() -> bool {
        true
    }

    /// markup appends the page to what the output held.
    open spec fn big_table_written(before: Seq<u8>, table: Seq<Seq<usize>>) -> Seq<u8> {
        before + encode_utf8(big_table_html(table))
    }

    /// markup appends the page to what the output held.
    open spec fn teams_written(before: Seq<u8>, teams: (u16, Seq<(Seq<char>, u8)>)) -> Seq<u8> {
        before + encode_utf8(teams_html(teams.0, teams.1, false))
    }

    fn big_table(&mut self, output: &mut String, input: &BigTable) -> (r: Result<
        (),
        core::fmt::Error,
    >)
        ensures
            r is Ok,
            final(output)@ == old(output)@ + big_table_html(input@),
    {
        let r = write_big_table::<Benchmark>(output, input);
        proof {
            lemma_encode_utf8_concat(old(output)@, big_table_html(input@));
        }
        r
    }

    fn teams(&mut self, output: &mut String, input: &Teams) -> (r: Result<(), core::fmt::Error>)
        ensures
            r is Ok,
            final(output)@ == old(output)@ + teams_html(input@.0, input@.1, false),
    {
        let r = write_teams::<Benchmark>(output, input);
        proof {
            lemma_encode_utf8_concat(old(output)@, teams_html(input@.0, input@.1, false));
        }
        r
    }
}

} // verus!
