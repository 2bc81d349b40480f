//! The maud engine: its `html!` templates, written out as verified code that
//! calls maud's own `Render` implementations for the interpolated values.
use core::convert::Infallible;

use vstd::prelude::*;
use vstd::utf8::encode_utf8;

use crate::data::BigTable;
use crate::data::Teams;
use crate::html::decimal;
use crate::html::escape;
use crate::page::big_table_html;
use crate::page::teams_html;
use crate::page::write_big_table;
use crate::page::write_teams;
use crate::page::HtmlWriter;

verus! {

/// `<usize as maud::Render>::render_to`: appends the decimal digits of
/// `value` (maud formats integers with `itoa`).
#[verifier::external_body]
fn maud_render_usize(value: usize, buffer: &mut String)
    ensures
        final(buffer)@ == old(buffer)@ + decimal(value as nat),
{
    ::maud::Render::render_to(&value, buffer)
}

/// `<u16 as maud::Render>::render_to`: appends the decimal digits of `value`.
#[verifier::external_body]
fn maud_render_u16(value: u16, buffer: &mut String)
    ensures
        final(buffer)@ == old(buffer)@ + decimal(value as nat),
{
    ::maud::Render::render_to(&value, buffer)
}

/// `<u8 as maud::Render>::render_to`: appends the decimal digits of `value`.
#[verifier::external_body]
fn maud_render_u8(value: u8, buffer: &mut String)
    ensures
        final(buffer)@ == old(buffer)@ + decimal(value as nat),
{
    ::maud::Render::render_to(&value, buffer)
}

/// `<String as maud::Render>::render_to`: appends `value` with `&`, `<`, `>`
/// and `"` replaced by their entities, every other character unchanged.
#[verifier::external_body]
fn maud_render_string(value: &String, buffer: &mut String)
    ensures
        final(buffer)@ == old(buffer)@ + escape(value@),
{
    ::maud::Render::render_to(value, buffer)
}

/// The maud engine.
#[derive(Debug, Default)]
pub struct Benchmark;

impl HtmlWriter for Benchmark {
    type Error = Infallible;

    open spec fn infallible() -> bool {
        true
    }

    /// `li.champion[cond]` keeps `class=""` when the class is switched off.
    open spec fn keeps_empty_class() -> bool {
        true
    }

    fn write_usize(out: &mut String, n: usize) -> (r: Result<(), Infallible>) {
        maud_render_usize(n, out);
        Ok(())
    }

    fn write_u16(out: &mut String, n: u16) -> (r: Result<(), Infallible>) {
        maud_render_u16(n, out);
        Ok(())
    }

    fn write_u8(out: &mut String, n: u8) -> (r: Result<(), Infallible>) {
        maud_render_u8(n, out);
        Ok(())
    }

    fn write_text(out: &mut String, text: &String) -> (r: Result<(), Infallible>) {
        maud_render_string(text, out);
        Ok(())
    }

    fn empty_class() -> (b: bool) {
        true
    }
}

impl crate::bench::Benchmark for Benchmark {
    type Output = String;

    type Error = Infallible;

    open spec fn never_fails() -> bool {
        true
    }

    /// maud builds a fresh page and replaces the output with it.
    open spec fn big_table_written(before: Seq<u8>, table: Seq<Seq<usize>>) -> Seq<u8> {
        encode_utf8(big_table_html(table))
    }

    /// maud builds a fresh page and replaces the output with it.
    open spec fn teams_written(before: Seq<u8>, teams: (u16, Seq<(Seq<char>, u8)>)) -> Seq<u8> {
        encode_utf8(teams_html(teams.0, teams.1, true))
    }

    fn big_table(&mut self, output: &mut String, input: &BigTable) -> (r: Result<(), Infallible>)
        ensures
            r is Ok,
            final(output)@ == big_table_html(input@),
    {
        let mut page = String::new();
        let r = write_big_table::<Benchmark>(&mut page, input);
        assert(r is Ok);
        *output = page;
        Ok(())
    }

    fn teams(&mut self, output: &mut String, input: &Teams) -> (r: Result<(), Infallible>)
        ensures
            r is Ok,
            final(output)@ == teams_html(input@.0, input@.1, true),
    {
        let mut page = String::new();
        let r = write_teams::<Benchmark>(&mut page, input);
        assert(r is Ok);
        *output = page;
        Ok(())
    }
}

} // verus!
