//! The shared element classifier for list items: the closed mapping from
//! recognized marker names (templates, tags, formatting) to element
//! constructors, including one level of nested list handling.

use vstd::prelude::*;

use crate::languages::Language;
use crate::node::{
    dl_item_wf, dl_items_wf, list_item_wf, list_items_wf, node_wf, nodes_wf, parameters_wf,
    DefinitionListItem, DefinitionListItemType, ListItem, Node, Parameter,
};
use crate::util::{
    add_warning, create_unknown, create_unknown2, ctx_keeps, parse_link, parse_list_generic,
    parse_simple_template, parse_text, parse_text_not_empty, spec_list_body, spec_list_section,
    spec_parse_link, spec_parse_text, spec_parse_text_not_empty, spec_simple_template,
    spec_unknown, str_eq, string_push, warn, Context,
};
use crate::{
    flowing_view, lemma_row_view_push, lemma_rows_view_len, lemma_rows_view_push, row_view,
    rows_view, Flowing, FlowingV, Pos, Warning, WarningMessage,
};

verus! {

/// One stretch of the language-adjective table.
pub open spec fn spec_adjective_table_0(name: Seq<char>) -> Option<Seq<char>> {
    if name == "ahd."@ {
        Some("ahd"@)
    } else if name == "amer."@ {
        Some("amer"@)
    } else if name == "ang."@ {
        Some("ang"@)
    } else if name == "ar."@ {
        Some("ar"@)
    } else if name == "brit."@ {
        Some("brit"@)
    } else if name == "cy."@ {
        Some("cy"@)
    } else if name == "da."@ {
        Some("da"@)
    } else if name == "de."@ {
        Some("de"@)
    } else if name == "dum."@ {
        Some("dum"@)
    } else if name == "el."@ {
        Some("el"@)
    } else if name == "en."@ {
        Some("en"@)
    } else if name == "es."@ {
        Some("es"@)
    } else if name == "fa."@ {
        Some("fa"@)
    } else if name == "fr."@ {
        Some("fr"@)
    } else if name == "fro."@ {
        Some("fro"@)
    } else if name == "frühnhd."@ {
        Some("frühnhd"@)
    } else if name == "ga."@ {
        Some("ga"@)
    } else if name == "gem."@ {
        Some("gem"@)
    } else if name == "gmh."@ {
        Some("gmh"@)
    } else if name == "gml."@ {
        Some("gml"@)
    } else if name == "goh."@ {
        Some("goh"@)
    } else if name == "got."@ {
        Some("got"@)
    } else if name == "grc."@ {
        Some("grc"@)
    } else if name == "hy."@ {
        Some("hy"@)
    } else if name == "ine."@ {
        Some("ine"@)
    } else if name == "is."@ {
        Some("is"@)
    } else {
        None
    }
}

fn adjective_table_0(name: &str) -> (r: Option<&'static str>)
    ensures
        match r {
            Some(s) => spec_adjective_table_0(name@) == Some(s@),
            None => spec_adjective_table_0(name@) is None,
        },
{
    if str_eq(name, "ahd.") {
        Some("ahd")
    } else if str_eq(name, "amer.") {
        Some("amer")
    } else if str_eq(name, "ang.") {
        Some("ang")
    } else if str_eq(name, "ar.") {
        Some("ar")
    } else if str_eq(name, "brit.") {
        Some("brit")
    } else if str_eq(name, "cy.") {
        Some("cy")
    } else if str_eq(name, "da.") {
        Some("da")
    } else if str_eq(name, "de.") {
        Some("de")
    } else if str_eq(name, "dum.") {
        Some("dum")
    } else if str_eq(name, "el.") {
        Some("el")
    } else if str_eq(name, "en.") {
        Some("en")
    } else if str_eq(name, "es.") {
        Some("es")
    } else if str_eq(name, "fa.") {
        Some("fa")
    } else if str_eq(name, "fr.") {
        Some("fr")
    } else if str_eq(name, "fro.") {
        Some("fro")
    } else if str_eq(name, "frühnhd.") {
        Some("frühnhd")
    } else if str_eq(name, "ga.") {
        Some("ga")
    } else if str_eq(name, "gem.") {
        Some("gem")
    } else if str_eq(name, "gmh.") {
        Some("gmh")
    } else if str_eq(name, "gml.") {
        Some("gml")
    } else if str_eq(name, "goh.") {
        Some("goh")
    } else if str_eq(name, "got.") {
        Some("got")
    } else if str_eq(name, "grc.") {
        Some("grc")
    } else if str_eq(name, "hy.") {
        Some("hy")
    } else if str_eq(name, "ine.") {
        Some("ine")
    } else if str_eq(name, "is.") {
        Some("is")
    } else {
        None
    }
}

/// One stretch of the language-adjective table.
pub open spec fn spec_adjective_table_1(name: Seq<char>) -> Option<Seq<char>> {
    if name == "it."@ {
        Some("it"@)
    } else if name == "lat."@ {
        Some("lat"@)
    } else if name == "lt."@ {
        Some("lt"@)
    } else if name == "md."@ {
        Some("md"@)
    } else if name == "mhd."@ {
        Some("mhd"@)
    } else if name == "mlat."@ {
        Some("mlat"@)
    } else if name == "mlg."@ {
        Some("mlg"@)
    } else if name == "nds."@ {
        Some("nds"@)
    } else if name == "nhd."@ {
        Some("nhd"@)
    } else if name == "nl."@ {
        Some("nl"@)
    } else if name == "no."@ {
        Some("no"@)
    } else if name == "non."@ {
        Some("non"@)
    } else if name == "nordd."@ {
        Some("nordd"@)
    } else if name == "ofs."@ {
        Some("ofs"@)
    } else if name == "osx."@ {
        Some("osx"@)
    } else if name == "owen."@ {
        Some("owen"@)
    } else if name == "pt."@ {
        Some("pt"@)
    } else if name == "ru."@ {
        Some("ru"@)
    } else if name == "schweiz."@ {
        Some("schweiz"@)
    } else if name == "spätlat."@ {
        Some("spätlat"@)
    } else if name == "sv."@ {
        Some("sv"@)
    } else if name == "süddt."@ {
        Some("süddt"@)
    } else if name == "th."@ {
        Some("th"@)
    } else if name == "tr."@ {
        Some("tr"@)
    } else if name == "wen."@ {
        Some("wen"@)
    } else if name == "österr."@ {
        Some("österr"@)
    } else {
        None
    }
}

fn adjective_table_1(name: &str) -> (r: Option<&'static str>)
    ensures
        match r {
            Some(s) => spec_adjective_table_1(name@) == Some(s@),
            None => spec_adjective_table_1(name@) is None,
        },
{
    if str_eq(name, "it.") {
        Some("it")
    } else if str_eq(name, "lat.") {
        Some("lat")
    } else if str_eq(name, "lt.") {
        Some("lt")
    } else if str_eq(name, "md.") {
        Some("md")
    } else if str_eq(name, "mhd.") {
        Some("mhd")
    } else if str_eq(name, "mlat.") {
        Some("mlat")
    } else if str_eq(name, "mlg.") {
        Some("mlg")
    } else if str_eq(name, "nds.") {
        Some("nds")
    } else if str_eq(name, "nhd.") {
        Some("nhd")
    } else if str_eq(name, "nl.") {
        Some("nl")
    } else if str_eq(name, "no.") {
        Some("no")
    } else if str_eq(name, "non.") {
        Some("non")
    } else if str_eq(name, "nordd.") {
        Some("nordd")
    } else if str_eq(name, "ofs.") {
        Some("ofs")
    } else if str_eq(name, "osx.") {
        Some("osx")
    } else if str_eq(name, "owen.") {
        Some("owen")
    } else if str_eq(name, "pt.") {
        Some("pt")
    } else if str_eq(name, "ru.") {
        Some("ru")
    } else if str_eq(name, "schweiz.") {
        Some("schweiz")
    } else if str_eq(name, "spätlat.") {
        Some("spätlat")
    } else if str_eq(name, "sv.") {
        Some("sv")
    } else if str_eq(name, "süddt.") {
        Some("süddt")
    } else if str_eq(name, "th.") {
        Some("th")
    } else if str_eq(name, "tr.") {
        Some("tr")
    } else if str_eq(name, "wen.") {
        Some("wen")
    } else if str_eq(name, "österr.") {
        Some("österr")
    } else {
        None
    }
}

/// The closed mapping from language-adjective markers to the language
/// adjective they stand for.
pub open spec fn spec_language_adjective(name: Seq<char>) -> Option<Seq<char>> {
    if spec_adjective_table_0(name) is Some {
        spec_adjective_table_0(name)
    } else if spec_adjective_table_1(name) is Some {
        spec_adjective_table_1(name)
    } else {
        None
    }
}

fn language_adjective(name: &str) -> (r: Option<&'static str>)
    ensures
        match r {
            Some(s) => spec_language_adjective(name@) == Some(s@),
            None => spec_language_adjective(name@) is None,
        },
{
    let r0 = adjective_table_0(name);
    if r0.is_some() {
        return r0;
    }
    let r1 = adjective_table_1(name);
    if r1.is_some() {
        return r1;
    }
    None
}

/// One stretch of the language-code table.
pub open spec fn spec_code_table_0(name: Seq<char>) -> bool {
    ||| name == "KA"@
    ||| name == "MHA"@
    ||| name == "aa"@
    ||| name == "ab"@
    ||| name == "abq"@
    ||| name == "ace"@
    ||| name == "ady"@
    ||| name == "ae"@
    ||| name == "aeb"@
    ||| name == "af"@
    ||| name == "agf"@
    ||| name == "agj"@
    ||| name == "aie"@
    ||| name == "ain"@
    ||| name == "ajp"@
    ||| name == "ak"@
    ||| name == "akg"@
    ||| name == "akk"@
    ||| name == "akz"@
    ||| name == "ale"@
    ||| name == "alp"@
    ||| name == "als"@
    ||| name == "alt"@
    ||| name == "am"@
    ||| name == "amk"@
    ||| name == "amu"@
    ||| name == "an"@
    ||| name == "ang"@
    ||| name == "apc"@
    ||| name == "apw"@
}

fn code_table_0(name: &str) -> (r: bool)
    ensures
        r == spec_code_table_0(name@),
{
    if str_eq(name, "KA") {
        true
    } else if str_eq(name, "MHA") {
        true
    } else if str_eq(name, "aa") {
        true
    } else if str_eq(name, "ab") {
        true
    } else if str_eq(name, "abq") {
        true
    } else if str_eq(name, "ace") {
        true
    } else if str_eq(name, "ady") {
        true
    } else if str_eq(name, "ae") {
        true
    } else if str_eq(name, "aeb") {
        true
    } else if str_eq(name, "af") {
        true
    } else if str_eq(name, "agf") {
        true
    } else if str_eq(name, "agj") {
        true
    } else if str_eq(name, "aie") {
        true
    } else if str_eq(name, "ain") {
        true
    } else if str_eq(name, "ajp") {
        true
    } else if str_eq(name, "ak") {
        true
    } else if str_eq(name, "akg") {
        true
    } else if str_eq(name, "akk") {
        true
    } else if str_eq(name, "akz") {
        true
    } else if str_eq(name, "ale") {
        true
    } else if str_eq(name, "alp") {
        true
    } else if str_eq(name, "als") {
        true
    } else if str_eq(name, "alt") {
        true
    } else if str_eq(name, "am") {
        true
    } else if str_eq(name, "amk") {
        true
    } else if str_eq(name, "amu") {
        true
    } else if str_eq(name, "an") {
        true
    } else if str_eq(name, "ang") {
        true
    } else if str_eq(name, "apc") {
        true
    } else if str_eq(name, "apw") {
        true
    } else {
        false
    }
}

/// One stretch of the language-code table.
pub open spec fn spec_code_table_1(name: Seq<char>) -> bool {
    ||| name == "ar"@
    ||| name == "arc"@
    ||| name == "arn"@
    ||| name == "arq"@
    ||| name == "arw"@
    ||| name == "ary"@
    ||| name == "arz"@
    ||| name == "as"@
    ||| name == "ast"@
    ||| name == "aua"@
    ||| name == "av"@
    ||| name == "ay"@
    ||| name == "ayl"@
    ||| name == "az"@
    ||| name == "azb"@
    ||| name == "azj"@
    ||| name == "ba"@
    ||| name == "baa"@
    ||| name == "bal"@
    ||| name == "ban"@
    ||| name == "bar"@
    ||| name == "bat"@
    ||| name == "bbc"@
    ||| name == "bci"@
    ||| name == "bcl"@
    ||| name == "bcm"@
    ||| name == "be"@
    ||| name == "bem"@
    ||| name == "ber"@
    ||| name == "bg"@
}

fn code_table_1(name: &str) -> (r: bool)
    ensures
        r == spec_code_table_1(name@),
{
    if str_eq(name, "ar") {
        true
    } else if str_eq(name, "arc") {
        true
    } else if str_eq(name, "arn") {
        true
    } else if str_eq(name, "arq") {
        true
    } else if str_eq(name, "arw") {
        true
    } else if str_eq(name, "ary") {
        true
    } else if str_eq(name, "arz") {
        true
    } else if str_eq(name, "as") {
        true
    } else if str_eq(name, "ast") {
        true
    } else if str_eq(name, "aua") {
        true
    } else if str_eq(name, "av") {
        true
    } else if str_eq(name, "ay") {
        true
    } else if str_eq(name, "ayl") {
        true
    } else if str_eq(name, "az") {
        true
    } else if str_eq(name, "azb") {
        true
    } else if str_eq(name, "azj") {
        true
    } else if str_eq(name, "ba") {
        true
    } else if str_eq(name, "baa") {
        true
    } else if str_eq(name, "bal") {
        true
    } else if str_eq(name, "ban") {
        true
    } else if str_eq(name, "bar") {
        true
    } else if str_eq(name, "bat") {
        true
    } else if str_eq(name, "bbc") {
        true
    } else if str_eq(name, "bci") {
        true
    } else if str_eq(name, "bcl") {
        true
    } else if str_eq(name, "bcm") {
        true
    } else if str_eq(name, "be") {
        true
    } else if str_eq(name, "bem") {
        true
    } else if str_eq(name, "ber") {
        true
    } else if str_eq(name, "bg") {
        true
    } else {
        false
    }
}

/// One stretch of the language-code table.
pub open spec fn spec_code_table_2(name: Seq<char>) -> bool {
    ||| name == "bgc"@
    ||| name == "bh"@
    ||| name == "bhw"@
    ||| name == "bi"@
    ||| name == "bjn"@
    ||| name == "bla"@
    ||| name == "bm"@
    ||| name == "bmg"@
    ||| name == "bn"@
    ||| name == "bnd"@
    ||| name == "bo"@
    ||| name == "bpy"@
    ||| name == "br"@
    ||| name == "bs"@
    ||| name == "bty"@
    ||| name == "bua"@
    ||| name == "bug"@
    ||| name == "bxr"@
    ||| name == "bzg"@
    ||| name == "ca"@
    ||| name == "ccc"@
    ||| name == "cdo"@
    ||| name == "ce"@
    ||| name == "ceb"@
    ||| name == "cel"@
    ||| name == "ch"@
    ||| name == "chc"@
    ||| name == "chm"@
    ||| name == "cho"@
    ||| name == "chp"@
}

fn code_table_2(name: &str) -> (r: bool)
    ensures
        r == spec_code_table_2(name@),
{
    if str_eq(name, "bgc") {
        true
    } else if str_eq(name, "bh") {
        true
    } else if str_eq(name, "bhw") {
        true
    } else if str_eq(name, "bi") {
        true
    } else if str_eq(name, "bjn") {
        true
    } else if str_eq(name, "bla") {
        true
    } else if str_eq(name, "bm") {
        true
    } else if str_eq(name, "bmg") {
        true
    } else if str_eq(name, "bn") {
        true
    } else if str_eq(name, "bnd") {
        true
    } else if str_eq(name, "bo") {
        true
    } else if str_eq(name, "bpy") {
        true
    } else if str_eq(name, "br") {
        true
    } else if str_eq(name, "bs") {
        true
    } else if str_eq(name, "bty") {
        true
    } else if str_eq(name, "bua") {
        true
    } else if str_eq(name, "bug") {
        true
    } else if str_eq(name, "bxr") {
        true
    } else if str_eq(name, "bzg") {
        true
    } else if str_eq(name, "ca") {
        true
    } else if str_eq(name, "ccc") {
        true
    } else if str_eq(name, "cdo") {
        true
    } else if str_eq(name, "ce") {
        true
    } else if str_eq(name, "ceb") {
        true
    } else if str_eq(name, "cel") {
        true
    } else if str_eq(name, "ch") {
        true
    } else if str_eq(name, "chc") {
        true
    } else if str_eq(name, "chm") {
        true
    } else if str_eq(name, "cho") {
        true
    } else if str_eq(name, "chp") {
        true
    } else {
        false
    }
}

/// One stretch of the language-code table.
pub open spec fn spec_code_table_3(name: Seq<char>) -> bool {
    ||| name == "chr"@
    ||| name == "chy"@
    ||| name == "cjs"@
    ||| name == "ckb"@
    ||| name == "ckt"@
    ||| name == "cnx"@
    ||| name == "co"@
    ||| name == "com"@
    ||| name == "cop"@
    ||| name == "cr"@
    ||| name == "crh"@
    ||| name == "cro"@
    ||| name == "crs"@
    ||| name == "cs"@
    ||| name == "csb"@
    ||| name == "cu"@
    ||| name == "cv"@
    ||| name == "cy"@
    ||| name == "da"@
    ||| name == "ddn"@
    ||| name == "de"@
    ||| name == "dhv"@
    ||| name == "diq"@
    ||| name == "dje"@
    ||| name == "dlm"@
    ||| name == "dng"@
    ||| name == "dob"@
    ||| name == "dsb"@
    ||| name == "dum"@
    ||| name == "dv"@
}

fn code_table_3(name: &str) -> (r: bool)
    ensures
        r == spec_code_table_3(name@),
{
    if str_eq(name, "chr") {
        true
    } else if str_eq(name, "chy") {
        true
    } else if str_eq(name, "cjs") {
        true
    } else if str_eq(name, "ckb") {
        true
    } else if str_eq(name, "ckt") {
        true
    } else if str_eq(name, "cnx") {
        true
    } else if str_eq(name, "co") {
        true
    } else if str_eq(name, "com") {
        true
    } else if str_eq(name, "cop") {
        true
    } else if str_eq(name, "cr") {
        true
    } else if str_eq(name, "crh") {
        true
    } else if str_eq(name, "cro") {
        true
    } else if str_eq(name, "crs") {
        true
    } else if str_eq(name, "cs") {
        true
    } else if str_eq(name, "csb") {
        true
    } else if str_eq(name, "cu") {
        true
    } else if str_eq(name, "cv") {
        true
    } else if str_eq(name, "cy") {
        true
    } else if str_eq(name, "da") {
        true
    } else if str_eq(name, "ddn") {
        true
    } else if str_eq(name, "de") {
        true
    } else if str_eq(name, "dhv") {
        true
    } else if str_eq(name, "diq") {
        true
    } else if str_eq(name, "dje") {
        true
    } else if str_eq(name, "dlm") {
        true
    } else if str_eq(name, "dng") {
        true
    } else if str_eq(name, "dob") {
        true
    } else if str_eq(name, "dsb") {
        true
    } else if str_eq(name, "dum") {
        true
    } else if str_eq(name, "dv") {
        true
    } else {
        false
    }
}

/// One stretch of the language-code table.
pub open spec fn spec_code_table_4(name: Seq<char>) -> bool {
    ||| name == "dz"@
    ||| name == "ee"@
    ||| name == "egy"@
    ||| name == "el"@
    ||| name == "eml"@
    ||| name == "en"@
    ||| name == "enm"@
    ||| name == "eo"@
    ||| name == "erk"@
    ||| name == "es"@
    ||| name == "et"@
    ||| name == "eu"@
    ||| name == "ext"@
    ||| name == "fa"@
    ||| name == "ff"@
    ||| name == "fi"@
    ||| name == "fj"@
    ||| name == "fng"@
    ||| name == "fo"@
    ||| name == "fon"@
    ||| name == "fr"@
    ||| name == "frk"@
    ||| name == "frm"@
    ||| name == "fro"@
    ||| name == "frp"@
    ||| name == "frr"@
    ||| name == "frs"@
    ||| name == "fry"@
    ||| name == "fur"@
    ||| name == "fy"@
}

fn code_table_4(name: &str) -> (r: bool)
    ensures
        r == spec_code_table_4(name@),
{
    if str_eq(name, "dz") {
        true
    } else if str_eq(name, "ee") {
        true
    } else if str_eq(name, "egy") {
        true
    } else if str_eq(name, "el") {
        true
    } else if str_eq(name, "eml") {
        true
    } else if str_eq(name, "en") {
        true
    } else if str_eq(name, "enm") {
        true
    } else if str_eq(name, "eo") {
        true
    } else if str_eq(name, "erk") {
        true
    } else if str_eq(name, "es") {
        true
    } else if str_eq(name, "et") {
        true
    } else if str_eq(name, "eu") {
        true
    } else if str_eq(name, "ext") {
        true
    } else if str_eq(name, "fa") {
        true
    } else if str_eq(name, "ff") {
        true
    } else if str_eq(name, "fi") {
        true
    } else if str_eq(name, "fj") {
        true
    } else if str_eq(name, "fng") {
        true
    } else if str_eq(name, "fo") {
        true
    } else if str_eq(name, "fon") {
        true
    } else if str_eq(name, "fr") {
        true
    } else if str_eq(name, "frk") {
        true
    } else if str_eq(name, "frm") {
        true
    } else if str_eq(name, "fro") {
        true
    } else if str_eq(name, "frp") {
        true
    } else if str_eq(name, "frr") {
        true
    } else if str_eq(name, "frs") {
        true
    } else if str_eq(name, "fry") {
        true
    } else if str_eq(name, "fur") {
        true
    } else if str_eq(name, "fy") {
        true
    } else {
        false
    }
}

/// One stretch of the language-code table.
pub open spec fn spec_code_table_5(name: Seq<char>) -> bool {
    ||| name == "ga"@
    ||| name == "gag"@
    ||| name == "gan"@
    ||| name == "gay"@
    ||| name == "gcf"@
    ||| name == "gd"@
    ||| name == "gdq"@
    ||| name == "gem"@
    ||| name == "gez"@
    ||| name == "gha"@
    ||| name == "gil"@
    ||| name == "gl"@
    ||| name == "glk"@
    ||| name == "gmh"@
    ||| name == "gml"@
    ||| name == "gmw"@
    ||| name == "gmy"@
    ||| name == "gn"@
    ||| name == "gnc"@
    ||| name == "goh"@
    ||| name == "got"@
    ||| name == "gr"@
    ||| name == "grc"@
    ||| name == "gsw"@
    ||| name == "gu"@
    ||| name == "gv"@
    ||| name == "ha"@
    ||| name == "hac"@
    ||| name == "hak"@
    ||| name == "haw"@
}

fn code_table_5(name: &str) -> (r: bool)
    ensures
        r == spec_code_table_5(name@),
{
    if str_eq(name, "ga") {
        true
    } else if str_eq(name, "gag") {
        true
    } else if str_eq(name, "gan") {
        true
    } else if str_eq(name, "gay") {
        true
    } else if str_eq(name, "gcf") {
        true
    } else if str_eq(name, "gd") {
        true
    } else if str_eq(name, "gdq") {
        true
    } else if str_eq(name, "gem") {
        true
    } else if str_eq(name, "gez") {
        true
    } else if str_eq(name, "gha") {
        true
    } else if str_eq(name, "gil") {
        true
    } else if str_eq(name, "gl") {
        true
    } else if str_eq(name, "glk") {
        true
    } else if str_eq(name, "gmh") {
        true
    } else if str_eq(name, "gml") {
        true
    } else if str_eq(name, "gmw") {
        true
    } else if str_eq(name, "gmy") {
        true
    } else if str_eq(name, "gn") {
        true
    } else if str_eq(name, "gnc") {
        true
    } else if str_eq(name, "goh") {
        true
    } else if str_eq(name, "got") {
        true
    } else if str_eq(name, "gr") {
        true
    } else if str_eq(name, "grc") {
        true
    } else if str_eq(name, "gsw") {
        true
    } else if str_eq(name, "gu") {
        true
    } else if str_eq(name, "gv") {
        true
    } else if str_eq(name, "ha") {
        true
    } else if str_eq(name, "hac") {
        true
    } else if str_eq(name, "hak") {
        true
    } else if str_eq(name, "haw") {
        true
    } else {
        false
    }
}

/// One stretch of the language-code table.
pub open spec fn spec_code_table_6(name: Seq<char>) -> bool {
    ||| name == "he"@
    ||| name == "hi"@
    ||| name == "hif"@
    ||| name == "hit"@
    ||| name == "ho"@
    ||| name == "hop"@
    ||| name == "hr"@
    ||| name == "hsb"@
    ||| name == "ht"@
    ||| name == "hu"@
    ||| name == "hy"@
    ||| name == "hz"@
    ||| name == "ia"@
    ||| name == "iba"@
    ||| name == "id"@
    ||| name == "ie"@
    ||| name == "ig"@
    ||| name == "ii"@
    ||| name == "ik"@
    ||| name == "ilo"@
    ||| name == "ine"@
    ||| name == "inh"@
    ||| name == "io"@
    ||| name == "is"@
    ||| name == "ist"@
    ||| name == "it"@
    ||| name == "itk"@
    ||| name == "itl"@
    ||| name == "iu"@
    ||| name == "izh"@
}

fn code_table_6(name: &str) -> (r: bool)
    ensures
        r == spec_code_table_6(name@),
{
    if str_eq(name, "he") {
        true
    } else if str_eq(name, "hi") {
        true
    } else if str_eq(name, "hif") {
        true
    } else if str_eq(name, "hit") {
        true
    } else if str_eq(name, "ho") {
        true
    } else if str_eq(name, "hop") {
        true
    } else if str_eq(name, "hr") {
        true
    } else if str_eq(name, "hsb") {
        true
    } else if str_eq(name, "ht") {
        true
    } else if str_eq(name, "hu") {
        true
    } else if str_eq(name, "hy") {
        true
    } else if str_eq(name, "hz") {
        true
    } else if str_eq(name, "ia") {
        true
    } else if str_eq(name, "iba") {
        true
    } else if str_eq(name, "id") {
        true
    } else if str_eq(name, "ie") {
        true
    } else if str_eq(name, "ig") {
        true
    } else if str_eq(name, "ii") {
        true
    } else if str_eq(name, "ik") {
        true
    } else if str_eq(name, "ilo") {
        true
    } else if str_eq(name, "ine") {
        true
    } else if str_eq(name, "inh") {
        true
    } else if str_eq(name, "io") {
        true
    } else if str_eq(name, "is") {
        true
    } else if str_eq(name, "ist") {
        true
    } else if str_eq(name, "it") {
        true
    } else if str_eq(name, "itk") {
        true
    } else if str_eq(name, "itl") {
        true
    } else if str_eq(name, "iu") {
        true
    } else if str_eq(name, "izh") {
        true
    } else {
        false
    }
}

/// One stretch of the language-code table.
pub open spec fn spec_code_table_7(name: Seq<char>) -> bool {
    ||| name == "ja"@
    ||| name == "jbo"@
    ||| name == "jrb"@
    ||| name == "jv"@
    ||| name == "ka"@
    ||| name == "kaa"@
    ||| name == "kab"@
    ||| name == "kam"@
    ||| name == "kaw"@
    ||| name == "kbd"@
    ||| name == "kca"@
    ||| name == "kdr"@
    ||| name == "kg"@
    ||| name == "khb"@
    ||| name == "ki"@
    ||| name == "kj"@
    ||| name == "kjh"@
    ||| name == "kk"@
    ||| name == "kl"@
    ||| name == "kla"@
    ||| name == "km"@
    ||| name == "kmr"@
    ||| name == "kn"@
    ||| name == "ko"@
    ||| name == "koi"@
    ||| name == "kok"@
    ||| name == "kos"@
    ||| name == "kr"@
    ||| name == "krc"@
    ||| name == "krl"@
}

fn code_table_7(name: &str) -> (r: bool)
    ensures
        r == spec_code_table_7(name@),
{
    if str_eq(name, "ja") {
        true
    } else if str_eq(name, "jbo") {
        true
    } else if str_eq(name, "jrb") {
        true
    } else if str_eq(name, "jv") {
        true
    } else if str_eq(name, "ka") {
        true
    } else if str_eq(name, "kaa") {
        true
    } else if str_eq(name, "kab") {
        true
    } else if str_eq(name, "kam") {
        true
    } else if str_eq(name, "kaw") {
        true
    } else if str_eq(name, "kbd") {
        true
    } else if str_eq(name, "kca") {
        true
    } else if str_eq(name, "kdr") {
        true
    } else if str_eq(name, "kg") {
        true
    } else if str_eq(name, "khb") {
        true
    } else if str_eq(name, "ki") {
        true
    } else if str_eq(name, "kj") {
        true
    } else if str_eq(name, "kjh") {
        true
    } else if str_eq(name, "kk") {
        true
    } else if str_eq(name, "kl") {
        true
    } else if str_eq(name, "kla") {
        true
    } else if str_eq(name, "km") {
        true
    } else if str_eq(name, "kmr") {
        true
    } else if str_eq(name, "kn") {
        true
    } else if str_eq(name, "ko") {
        true
    } else if str_eq(name, "koi") {
        true
    } else if str_eq(name, "kok") {
        true
    } else if str_eq(name, "kos") {
        true
    } else if str_eq(name, "kr") {
        true
    } else if str_eq(name, "krc") {
        true
    } else if str_eq(name, "krl") {
        true
    } else {
        false
    }
}

/// One stretch of the language-code table.
pub open spec fn spec_code_table_8(name: Seq<char>) -> bool {
    ||| name == "ks"@
    ||| name == "ksh"@
    ||| name == "ku"@
    ||| name == "kum"@
    ||| name == "kv"@
    ||| name == "kw"@
    ||| name == "ky"@
    ||| name == "kyh"@
    ||| name == "la"@
    ||| name == "lad"@
    ||| name == "lb"@
    ||| name == "lbe"@
    ||| name == "ldn"@
    ||| name == "lep"@
    ||| name == "lez"@
    ||| name == "lg"@
    ||| name == "li"@
    ||| name == "lij"@
    ||| name == "liv"@
    ||| name == "lld"@
    ||| name == "llp"@
    ||| name == "lmo"@
    ||| name == "ln"@
    ||| name == "lo"@
    ||| name == "lou"@
    ||| name == "loz"@
    ||| name == "lt"@
    ||| name == "ltg"@
    ||| name == "lud"@
    ||| name == "lus"@
}

fn code_table_8(name: &str) -> (r: bool)
    ensures
        r == spec_code_table_8(name@),
{
    if str_eq(name, "ks") {
        true
    } else if str_eq(name, "ksh") {
        true
    } else if str_eq(name, "ku") {
        true
    } else if str_eq(name, "kum") {
        true
    } else if str_eq(name, "kv") {
        true
    } else if str_eq(name, "kw") {
        true
    } else if str_eq(name, "ky") {
        true
    } else if str_eq(name, "kyh") {
        true
    } else if str_eq(name, "la") {
        true
    } else if str_eq(name, "lad") {
        true
    } else if str_eq(name, "lb") {
        true
    } else if str_eq(name, "lbe") {
        true
    } else if str_eq(name, "ldn") {
        true
    } else if str_eq(name, "lep") {
        true
    } else if str_eq(name, "lez") {
        true
    } else if str_eq(name, "lg") {
        true
    } else if str_eq(name, "li") {
        true
    } else if str_eq(name, "lij") {
        true
    } else if str_eq(name, "liv") {
        true
    } else if str_eq(name, "lld") {
        true
    } else if str_eq(name, "llp") {
        true
    } else if str_eq(name, "lmo") {
        true
    } else if str_eq(name, "ln") {
        true
    } else if str_eq(name, "lo") {
        true
    } else if str_eq(name, "lou") {
        true
    } else if str_eq(name, "loz") {
        true
    } else if str_eq(name, "lt") {
        true
    } else if str_eq(name, "ltg") {
        true
    } else if str_eq(name, "lud") {
        true
    } else if str_eq(name, "lus") {
        true
    } else {
        false
    }
}

/// One stretch of the language-code table.
pub open spec fn spec_code_table_9(name: Seq<char>) -> bool {
    ||| name == "lv"@
    ||| name == "lzz"@
    ||| name == "mad"@
    ||| name == "mak"@
    ||| name == "mas"@
    ||| name == "mdf"@
    ||| name == "mfe"@
    ||| name == "mg"@
    ||| name == "mga"@
    ||| name == "mh"@
    ||| name == "mhr"@
    ||| name == "mi"@
    ||| name == "mic"@
    ||| name == "min"@
    ||| name == "mk"@
    ||| name == "ml"@
    ||| name == "mn"@
    ||| name == "mnc"@
    ||| name == "mnk"@
    ||| name == "mns"@
    ||| name == "mo"@
    ||| name == "moh"@
    ||| name == "mr"@
    ||| name == "mrj"@
    ||| name == "ms"@
    ||| name == "mt"@
    ||| name == "mus"@
    ||| name == "mwl"@
    ||| name == "my"@
    ||| name == "myn"@
}

fn code_table_9(name: &str) -> (r: bool)
    ensures
        r == spec_code_table_9(name@),
{
    if str_eq(name, "lv") {
        true
    } else if str_eq(name, "lzz") {
        true
    } else if str_eq(name, "mad") {
        true
    } else if str_eq(name, "mak") {
        true
    } else if str_eq(name, "mas") {
        true
    } else if str_eq(name, "mdf") {
        true
    } else if str_eq(name, "mfe") {
        true
    } else if str_eq(name, "mg") {
        true
    } else if str_eq(name, "mga") {
        true
    } else if str_eq(name, "mh") {
        true
    } else if str_eq(name, "mhr") {
        true
    } else if str_eq(name, "mi") {
        true
    } else if str_eq(name, "mic") {
        true
    } else if str_eq(name, "min") {
        true
    } else if str_eq(name, "mk") {
        true
    } else if str_eq(name, "ml") {
        true
    } else if str_eq(name, "mn") {
        true
    } else if str_eq(name, "mnc") {
        true
    } else if str_eq(name, "mnk") {
        true
    } else if str_eq(name, "mns") {
        true
    } else if str_eq(name, "mo") {
        true
    } else if str_eq(name, "moh") {
        true
    } else if str_eq(name, "mr") {
        true
    } else if str_eq(name, "mrj") {
        true
    } else if str_eq(name, "ms") {
        true
    } else if str_eq(name, "mt") {
        true
    } else if str_eq(name, "mus") {
        true
    } else if str_eq(name, "mwl") {
        true
    } else if str_eq(name, "my") {
        true
    } else if str_eq(name, "myn") {
        true
    } else {
        false
    }
}

/// One stretch of the language-code table.
pub open spec fn spec_code_table_10(name: Seq<char>) -> bool {
    ||| name == "myv"@
    ||| name == "mzn"@
    ||| name == "na"@
    ||| name == "nah"@
    ||| name == "nan"@
    ||| name == "nap"@
    ||| name == "naq"@
    ||| name == "nb"@
    ||| name == "nde"@
    ||| name == "nds"@
    ||| name == "ne"@
    ||| name == "new"@
    ||| name == "nez"@
    ||| name == "ng"@
    ||| name == "ngo"@
    ||| name == "nhn"@
    ||| name == "nic"@
    ||| name == "niu"@
    ||| name == "nl"@
    ||| name == "nld"@
    ||| name == "nmn"@
    ||| name == "nn"@
    ||| name == "no"@
    ||| name == "nog"@
    ||| name == "non"@
    ||| name == "nov"@
    ||| name == "nr"@
    ||| name == "nrf"@
    ||| name == "nso"@
    ||| name == "nv"@
}

fn code_table_10(name: &str) -> (r: bool)
    ensures
        r == spec_code_table_10(name@),
{
    if str_eq(name, "myv") {
        true
    } else if str_eq(name, "mzn") {
        true
    } else if str_eq(name, "na") {
        true
    } else if str_eq(name, "nah") {
        true
    } else if str_eq(name, "nan") {
        true
    } else if str_eq(name, "nap") {
        true
    } else if str_eq(name, "naq") {
        true
    } else if str_eq(name, "nb") {
        true
    } else if str_eq(name, "nde") {
        true
    } else if str_eq(name, "nds") {
        true
    } else if str_eq(name, "ne") {
        true
    } else if str_eq(name, "new") {
        true
    } else if str_eq(name, "nez") {
        true
    } else if str_eq(name, "ng") {
        true
    } else if str_eq(name, "ngo") {
        true
    } else if str_eq(name, "nhn") {
        true
    } else if str_eq(name, "nic") {
        true
    } else if str_eq(name, "niu") {
        true
    } else if str_eq(name, "nl") {
        true
    } else if str_eq(name, "nld") {
        true
    } else if str_eq(name, "nmn") {
        true
    } else if str_eq(name, "nn") {
        true
    } else if str_eq(name, "no") {
        true
    } else if str_eq(name, "nog") {
        true
    } else if str_eq(name, "non") {
        true
    } else if str_eq(name, "nov") {
        true
    } else if str_eq(name, "nr") {
        true
    } else if str_eq(name, "nrf") {
        true
    } else if str_eq(name, "nso") {
        true
    } else if str_eq(name, "nv") {
        true
    } else {
        false
    }
}

/// One stretch of the language-code table.
pub open spec fn spec_code_table_11(name: Seq<char>) -> bool {
    ||| name == "ny"@
    ||| name == "nyn"@
    ||| name == "obt"@
    ||| name == "oc"@
    ||| name == "oco"@
    ||| name == "odt"@
    ||| name == "ofs"@
    ||| name == "oj"@
    ||| name == "om"@
    ||| name == "ood"@
    ||| name == "or"@
    ||| name == "orv"@
    ||| name == "os"@
    ||| name == "osc"@
    ||| name == "osx"@
    ||| name == "ota"@
    ||| name == "owl"@
    ||| name == "pa"@
    ||| name == "pag"@
    ||| name == "pal"@
    ||| name == "pam"@
    ||| name == "pap"@
    ||| name == "pcd"@
    ||| name == "pdc"@
    ||| name == "pdt"@
    ||| name == "peo"@
    ||| name == "pfl"@
    ||| name == "pgn"@
    ||| name == "phn"@
    ||| name == "pi"@
}

fn code_table_11(name: &str) -> (r: bool)
    ensures
        r == spec_code_table_11(name@),
{
    if str_eq(name, "ny") {
        true
    } else if str_eq(name, "nyn") {
        true
    } else if str_eq(name, "obt") {
        true
    } else if str_eq(name, "oc") {
        true
    } else if str_eq(name, "oco") {
        true
    } else if str_eq(name, "odt") {
        true
    } else if str_eq(name, "ofs") {
        true
    } else if str_eq(name, "oj") {
        true
    } else if str_eq(name, "om") {
        true
    } else if str_eq(name, "ood") {
        true
    } else if str_eq(name, "or") {
        true
    } else if str_eq(name, "orv") {
        true
    } else if str_eq(name, "os") {
        true
    } else if str_eq(name, "osc") {
        true
    } else if str_eq(name, "osx") {
        true
    } else if str_eq(name, "ota") {
        true
    } else if str_eq(name, "owl") {
        true
    } else if str_eq(name, "pa") {
        true
    } else if str_eq(name, "pag") {
        true
    } else if str_eq(name, "pal") {
        true
    } else if str_eq(name, "pam") {
        true
    } else if str_eq(name, "pap") {
        true
    } else if str_eq(name, "pcd") {
        true
    } else if str_eq(name, "pdc") {
        true
    } else if str_eq(name, "pdt") {
        true
    } else if str_eq(name, "peo") {
        true
    } else if str_eq(name, "pfl") {
        true
    } else if str_eq(name, "pgn") {
        true
    } else if str_eq(name, "phn") {
        true
    } else if str_eq(name, "pi") {
        true
    } else {
        false
    }
}

/// One stretch of the language-code table.
pub open spec fn spec_code_table_12(name: Seq<char>) -> bool {
    ||| name == "pih"@
    ||| name == "pis"@
    ||| name == "pl"@
    ||| name == "pms"@
    ||| name == "pnb"@
    ||| name == "pnt"@
    ||| name == "pox"@
    ||| name == "pra"@
    ||| name == "prg"@
    ||| name == "pro"@
    ||| name == "prs"@
    ||| name == "ps"@
    ||| name == "pt"@
    ||| name == "qka"@
    ||| name == "qts"@
    ||| name == "qu"@
    ||| name == "raj"@
    ||| name == "rap"@
    ||| name == "rhg"@
    ||| name == "rif"@
    ||| name == "rm"@
    ||| name == "rmq"@
    ||| name == "rmr"@
    ||| name == "rmy"@
    ||| name == "rn"@
    ||| name == "ro"@
    ||| name == "rom"@
    ||| name == "ru"@
    ||| name == "rue"@
    ||| name == "rup"@
}

fn code_table_12(name: &str) -> (r: bool)
    ensures
        r == spec_code_table_12(name@),
{
    if str_eq(name, "pih") {
        true
    } else if str_eq(name, "pis") {
        true
    } else if str_eq(name, "pl") {
        true
    } else if str_eq(name, "pms") {
        true
    } else if str_eq(name, "pnb") {
        true
    } else if str_eq(name, "pnt") {
        true
    } else if str_eq(name, "pox") {
        true
    } else if str_eq(name, "pra") {
        true
    } else if str_eq(name, "prg") {
        true
    } else if str_eq(name, "pro") {
        true
    } else if str_eq(name, "prs") {
        true
    } else if str_eq(name, "ps") {
        true
    } else if str_eq(name, "pt") {
        true
    } else if str_eq(name, "qka") {
        true
    } else if str_eq(name, "qts") {
        true
    } else if str_eq(name, "qu") {
        true
    } else if str_eq(name, "raj") {
        true
    } else if str_eq(name, "rap") {
        true
    } else if str_eq(name, "rhg") {
        true
    } else if str_eq(name, "rif") {
        true
    } else if str_eq(name, "rm") {
        true
    } else if str_eq(name, "rmq") {
        true
    } else if str_eq(name, "rmr") {
        true
    } else if str_eq(name, "rmy") {
        true
    } else if str_eq(name, "rn") {
        true
    } else if str_eq(name, "ro") {
        true
    } else if str_eq(name, "rom") {
        true
    } else if str_eq(name, "ru") {
        true
    } else if str_eq(name, "rue") {
        true
    } else if str_eq(name, "rup") {
        true
    } else {
        false
    }
}

/// One stretch of the language-code table.
pub open spec fn spec_code_table_13(name: Seq<char>) -> bool {
    ||| name == "rw"@
    ||| name == "sa"@
    ||| name == "sah"@
    ||| name == "sas"@
    ||| name == "sc"@
    ||| name == "scn"@
    ||| name == "sco"@
    ||| name == "sd"@
    ||| name == "se"@
    ||| name == "sg"@
    ||| name == "sga"@
    ||| name == "sgs"@
    ||| name == "sgw"@
    ||| name == "sh"@
    ||| name == "shh"@
    ||| name == "shi"@
    ||| name == "shv"@
    ||| name == "si"@
    ||| name == "simple"@
    ||| name == "sjn"@
    ||| name == "sk"@
    ||| name == "sl"@
    ||| name == "sla"@
    ||| name == "sli"@
    ||| name == "sm"@
    ||| name == "smi"@
    ||| name == "smn"@
    ||| name == "sn"@
    ||| name == "snk"@
    ||| name == "so"@
}

fn code_table_13(name: &str) -> (r: bool)
    ensures
        r == spec_code_table_13(name@),
{
    if str_eq(name, "rw") {
        true
    } else if str_eq(name, "sa") {
        true
    } else if str_eq(name, "sah") {
        true
    } else if str_eq(name, "sas") {
        true
    } else if str_eq(name, "sc") {
        true
    } else if str_eq(name, "scn") {
        true
    } else if str_eq(name, "sco") {
        true
    } else if str_eq(name, "sd") {
        true
    } else if str_eq(name, "se") {
        true
    } else if str_eq(name, "sg") {
        true
    } else if str_eq(name, "sga") {
        true
    } else if str_eq(name, "sgs") {
        true
    } else if str_eq(name, "sgw") {
        true
    } else if str_eq(name, "sh") {
        true
    } else if str_eq(name, "shh") {
        true
    } else if str_eq(name, "shi") {
        true
    } else if str_eq(name, "shv") {
        true
    } else if str_eq(name, "si") {
        true
    } else if str_eq(name, "simple") {
        true
    } else if str_eq(name, "sjn") {
        true
    } else if str_eq(name, "sk") {
        true
    } else if str_eq(name, "sl") {
        true
    } else if str_eq(name, "sla") {
        true
    } else if str_eq(name, "sli") {
        true
    } else if str_eq(name, "sm") {
        true
    } else if str_eq(name, "smi") {
        true
    } else if str_eq(name, "smn") {
        true
    } else if str_eq(name, "sn") {
        true
    } else if str_eq(name, "snk") {
        true
    } else if str_eq(name, "so") {
        true
    } else {
        false
    }
}

/// One stretch of the language-code table.
pub open spec fn spec_code_table_14(name: Seq<char>) -> bool {
    ||| name == "spx"@
    ||| name == "sq"@
    ||| name == "sqr"@
    ||| name == "sqt"@
    ||| name == "sr"@
    ||| name == "src"@
    ||| name == "srn"@
    ||| name == "sro"@
    ||| name == "srr"@
    ||| name == "ss"@
    ||| name == "st"@
    ||| name == "stq"@
    ||| name == "su"@
    ||| name == "suw"@
    ||| name == "sux"@
    ||| name == "sv"@
    ||| name == "sva"@
    ||| name == "sw"@
    ||| name == "swb"@
    ||| name == "swg"@
    ||| name == "syr"@
    ||| name == "szl"@
    ||| name == "ta"@
    ||| name == "tay"@
    ||| name == "te"@
    ||| name == "tet"@
    ||| name == "tg"@
    ||| name == "th"@
    ||| name == "ti"@
    ||| name == "tig"@
}

fn code_table_14(name: &str) -> (r: bool)
    ensures
        r == spec_code_table_14(name@),
{
    if str_eq(name, "spx") {
        true
    } else if str_eq(name, "sq") {
        true
    } else if str_eq(name, "sqr") {
        true
    } else if str_eq(name, "sqt") {
        true
    } else if str_eq(name, "sr") {
        true
    } else if str_eq(name, "src") {
        true
    } else if str_eq(name, "srn") {
        true
    } else if str_eq(name, "sro") {
        true
    } else if str_eq(name, "srr") {
        true
    } else if str_eq(name, "ss") {
        true
    } else if str_eq(name, "st") {
        true
    } else if str_eq(name, "stq") {
        true
    } else if str_eq(name, "su") {
        true
    } else if str_eq(name, "suw") {
        true
    } else if str_eq(name, "sux") {
        true
    } else if str_eq(name, "sv") {
        true
    } else if str_eq(name, "sva") {
        true
    } else if str_eq(name, "sw") {
        true
    } else if str_eq(name, "swb") {
        true
    } else if str_eq(name, "swg") {
        true
    } else if str_eq(name, "syr") {
        true
    } else if str_eq(name, "szl") {
        true
    } else if str_eq(name, "ta") {
        true
    } else if str_eq(name, "tay") {
        true
    } else if str_eq(name, "te") {
        true
    } else if str_eq(name, "tet") {
        true
    } else if str_eq(name, "tg") {
        true
    } else if str_eq(name, "th") {
        true
    } else if str_eq(name, "ti") {
        true
    } else if str_eq(name, "tig") {
        true
    } else {
        false
    }
}

/// One stretch of the language-code table.
pub open spec fn spec_code_table_15(name: Seq<char>) -> bool {
    ||| name == "tk"@
    ||| name == "tkl"@
    ||| name == "tl"@
    ||| name == "tlh"@
    ||| name == "tmh"@
    ||| name == "tn"@
    ||| name == "tnq"@
    ||| name == "to"@
    ||| name == "tokipona"@
    ||| name == "tox"@
    ||| name == "tpi"@
    ||| name == "tpn"@
    ||| name == "tpw"@
    ||| name == "tr"@
    ||| name == "trv"@
    ||| name == "ts"@
    ||| name == "tt"@
    ||| name == "tum"@
    ||| name == "tvk"@
    ||| name == "tvl"@
    ||| name == "tw"@
    ||| name == "txb"@
    ||| name == "txh"@
    ||| name == "ty"@
    ||| name == "tyv"@
    ||| name == "tzl"@
    ||| name == "tzm"@
    ||| name == "udm"@
    ||| name == "ug"@
    ||| name == "uga"@
}

fn code_table_15(name: &str) -> (r: bool)
    ensures
        r == spec_code_table_15(name@),
{
    if str_eq(name, "tk") {
        true
    } else if str_eq(name, "tkl") {
        true
    } else if str_eq(name, "tl") {
        true
    } else if str_eq(name, "tlh") {
        true
    } else if str_eq(name, "tmh") {
        true
    } else if str_eq(name, "tn") {
        true
    } else if str_eq(name, "tnq") {
        true
    } else if str_eq(name, "to") {
        true
    } else if str_eq(name, "tokipona") {
        true
    } else if str_eq(name, "tox") {
        true
    } else if str_eq(name, "tpi") {
        true
    } else if str_eq(name, "tpn") {
        true
    } else if str_eq(name, "tpw") {
        true
    } else if str_eq(name, "tr") {
        true
    } else if str_eq(name, "trv") {
        true
    } else if str_eq(name, "ts") {
        true
    } else if str_eq(name, "tt") {
        true
    } else if str_eq(name, "tum") {
        true
    } else if str_eq(name, "tvk") {
        true
    } else if str_eq(name, "tvl") {
        true
    } else if str_eq(name, "tw") {
        true
    } else if str_eq(name, "txb") {
        true
    } else if str_eq(name, "txh") {
        true
    } else if str_eq(name, "ty") {
        true
    } else if str_eq(name, "tyv") {
        true
    } else if str_eq(name, "tzl") {
        true
    } else if str_eq(name, "tzm") {
        true
    } else if str_eq(name, "udm") {
        true
    } else if str_eq(name, "ug") {
        true
    } else if str_eq(name, "uga") {
        true
    } else {
        false
    }
}

/// One stretch of the language-code table.
pub open spec fn spec_code_table_16(name: Seq<char>) -> bool {
    ||| name == "uk"@
    ||| name == "umc"@
    ||| name == "ur"@
    ||| name == "uum"@
    ||| name == "uz"@
    ||| name == "ve"@
    ||| name == "vec"@
    ||| name == "vep"@
    ||| name == "vi"@
    ||| name == "vls"@
    ||| name == "vmf"@
    ||| name == "vo"@
    ||| name == "vot"@
    ||| name == "vro"@
    ||| name == "wa"@
    ||| name == "war"@
    ||| name == "wen"@
    ||| name == "wep"@
    ||| name == "wlm"@
    ||| name == "wo"@
    ||| name == "wuu"@
    ||| name == "wym"@
    ||| name == "xaa"@
    ||| name == "xal"@
    ||| name == "xcl"@
    ||| name == "xfa"@
    ||| name == "xh"@
    ||| name == "xhu"@
    ||| name == "xlc"@
    ||| name == "xld"@
}

fn code_table_16(name: &str) -> (r: bool)
    ensures
        r == spec_code_table_16(name@),
{
    if str_eq(name, "uk") {
        true
    } else if str_eq(name, "umc") {
        true
    } else if str_eq(name, "ur") {
        true
    } else if str_eq(name, "uum") {
        true
    } else if str_eq(name, "uz") {
        true
    } else if str_eq(name, "ve") {
        true
    } else if str_eq(name, "vec") {
        true
    } else if str_eq(name, "vep") {
        true
    } else if str_eq(name, "vi") {
        true
    } else if str_eq(name, "vls") {
        true
    } else if str_eq(name, "vmf") {
        true
    } else if str_eq(name, "vo") {
        true
    } else if str_eq(name, "vot") {
        true
    } else if str_eq(name, "vro") {
        true
    } else if str_eq(name, "wa") {
        true
    } else if str_eq(name, "war") {
        true
    } else if str_eq(name, "wen") {
        true
    } else if str_eq(name, "wep") {
        true
    } else if str_eq(name, "wlm") {
        true
    } else if str_eq(name, "wo") {
        true
    } else if str_eq(name, "wuu") {
        true
    } else if str_eq(name, "wym") {
        true
    } else if str_eq(name, "xaa") {
        true
    } else if str_eq(name, "xal") {
        true
    } else if str_eq(name, "xcl") {
        true
    } else if str_eq(name, "xfa") {
        true
    } else if str_eq(name, "xh") {
        true
    } else if str_eq(name, "xhu") {
        true
    } else if str_eq(name, "xlc") {
        true
    } else if str_eq(name, "xld") {
        true
    } else {
        false
    }
}

/// One stretch of the language-code table.
pub open spec fn spec_code_table_17(name: Seq<char>) -> bool {
    ||| name == "xlu"@
    ||| name == "xmf"@
    ||| name == "xmn"@
    ||| name == "xno"@
    ||| name == "xum"@
    ||| name == "xur"@
    ||| name == "xve"@
    ||| name == "yi"@
    ||| name == "yo"@
    ||| name == "yua"@
    ||| name == "yue"@
    ||| name == "za"@
    ||| name == "zbw"@
    ||| name == "zea"@
    ||| name == "zen"@
    ||| name == "zh"@
    ||| name == "zh-cn"@
    ||| name == "zh-tw"@
    ||| name == "zu"@
    ||| name == "zza"@
}

fn code_table_17(name: &str) -> (r: bool)
    ensures
        r == spec_code_table_17(name@),
{
    if str_eq(name, "xlu") {
        true
    } else if str_eq(name, "xmf") {
        true
    } else if str_eq(name, "xmn") {
        true
    } else if str_eq(name, "xno") {
        true
    } else if str_eq(name, "xum") {
        true
    } else if str_eq(name, "xur") {
        true
    } else if str_eq(name, "xve") {
        true
    } else if str_eq(name, "yi") {
        true
    } else if str_eq(name, "yo") {
        true
    } else if str_eq(name, "yua") {
        true
    } else if str_eq(name, "yue") {
        true
    } else if str_eq(name, "za") {
        true
    } else if str_eq(name, "zbw") {
        true
    } else if str_eq(name, "zea") {
        true
    } else if str_eq(name, "zen") {
        true
    } else if str_eq(name, "zh") {
        true
    } else if str_eq(name, "zh-cn") {
        true
    } else if str_eq(name, "zh-tw") {
        true
    } else if str_eq(name, "zu") {
        true
    } else if str_eq(name, "zza") {
        true
    } else {
        false
    }
}

/// The closed set of language-code markers.
pub open spec fn spec_is_language_code(name: Seq<char>) -> bool {
    ||| spec_code_table_0(name)
    ||| spec_code_table_1(name)
    ||| spec_code_table_2(name)
    ||| spec_code_table_3(name)
    ||| spec_code_table_4(name)
    ||| spec_code_table_5(name)
    ||| spec_code_table_6(name)
    ||| spec_code_table_7(name)
    ||| spec_code_table_8(name)
    ||| spec_code_table_9(name)
    ||| spec_code_table_10(name)
    ||| spec_code_table_11(name)
    ||| spec_code_table_12(name)
    ||| spec_code_table_13(name)
    ||| spec_code_table_14(name)
    ||| spec_code_table_15(name)
    ||| spec_code_table_16(name)
    ||| spec_code_table_17(name)
}

fn is_language_code(name: &str) -> (r: bool)
    ensures
        r == spec_is_language_code(name@),
{
    if code_table_0(name) {
        return true;
    }
    if code_table_1(name) {
        return true;
    }
    if code_table_2(name) {
        return true;
    }
    if code_table_3(name) {
        return true;
    }
    if code_table_4(name) {
        return true;
    }
    if code_table_5(name) {
        return true;
    }
    if code_table_6(name) {
        return true;
    }
    if code_table_7(name) {
        return true;
    }
    if code_table_8(name) {
        return true;
    }
    if code_table_9(name) {
        return true;
    }
    if code_table_10(name) {
        return true;
    }
    if code_table_11(name) {
        return true;
    }
    if code_table_12(name) {
        return true;
    }
    if code_table_13(name) {
        return true;
    }
    if code_table_14(name) {
        return true;
    }
    if code_table_15(name) {
        return true;
    }
    if code_table_16(name) {
        return true;
    }
    if code_table_17(name) {
        return true;
    }
    false
}

/// The closed mapping from simple zero-parameter markers to elements.
pub open spec fn spec_simple_marker(name: Seq<char>) -> Option<FlowingV> {
    if name == "Komp."@ {
        Some(FlowingV::Comparative)
    } else if name == "Part."@ {
        Some(FlowingV::PastParticiple)
    } else if name == "Pl."@ {
        Some(FlowingV::Plural)
    } else if name == "Pl.1"@ {
        Some(FlowingV::Plural1)
    } else if name == "Pl.2"@ {
        Some(FlowingV::Plural2)
    } else if name == "Pl.3"@ {
        Some(FlowingV::Plural3)
    } else if name == "Pl.4"@ {
        Some(FlowingV::Plural4)
    } else if name == "Prät."@ {
        Some(FlowingV::Preterite)
    } else if name == "Sup."@ {
        Some(FlowingV::Superlative)
    } else if name == "kPl."@ {
        Some(FlowingV::NoPlural)
    } else {
        None
    }
}

fn simple_marker(name: &str) -> (r: Option<Flowing>)
    ensures
        match r {
            Some(f) => spec_simple_marker(name@) == Some(flowing_view(f)),
            None => spec_simple_marker(name@) is None,
        },
{
    if str_eq(name, "Komp.") {
        Some(Flowing::Comparative)
    } else if str_eq(name, "Part.") {
        Some(Flowing::PastParticiple)
    } else if str_eq(name, "Pl.") {
        Some(Flowing::Plural)
    } else if str_eq(name, "Pl.1") {
        Some(Flowing::Plural1)
    } else if str_eq(name, "Pl.2") {
        Some(Flowing::Plural2)
    } else if str_eq(name, "Pl.3") {
        Some(Flowing::Plural3)
    } else if str_eq(name, "Pl.4") {
        Some(Flowing::Plural4)
    } else if str_eq(name, "Prät.") {
        Some(Flowing::Preterite)
    } else if str_eq(name, "Sup.") {
        Some(Flowing::Superlative)
    } else if str_eq(name, "kPl.") {
        Some(Flowing::NoPlural)
    } else {
        None
    }
}

/// The part-of-speech spellings accepted inside a word-formation marker.
pub open spec fn spec_wortbildung_pos(text: Seq<char>) -> Option<Pos> {
    if text == "Adj"@ || text == "Adje"@ || text == "Adjektiv"@ || text == "Adjektive"@ {
        Some(Pos::Adjective)
    } else if text == "Adv"@ || text == "Adve"@ || text == "Adverb"@ || text == "Adverbien"@ {
        Some(Pos::Adverb)
    } else if text == "Sub"@ || text == "Subs"@ || text == "Substantiv"@ || text
        == "Substantive"@ {
        Some(Pos::Noun)
    } else if text == "Ver"@ || text == "Verb"@ || text == "Verben"@ {
        Some(Pos::Verb)
    } else {
        None
    }
}

fn wortbildung_pos(text: &str) -> (r: Option<Pos>)
    ensures
        r == spec_wortbildung_pos(text@),
{
    if str_eq(text, "Adj") || str_eq(text, "Adje") || str_eq(text, "Adjektiv") || str_eq(
        text,
        "Adjektive",
    ) {
        Some(Pos::Adjective)
    } else if str_eq(text, "Adv") || str_eq(text, "Adve") || str_eq(text, "Adverb") || str_eq(
        text,
        "Adverbien",
    ) {
        Some(Pos::Adverb)
    } else if str_eq(text, "Sub") || str_eq(text, "Subs") || str_eq(text, "Substantiv") || str_eq(
        text,
        "Substantive",
    ) {
        Some(Pos::Noun)
    } else if str_eq(text, "Ver") || str_eq(text, "Verb") || str_eq(text, "Verben") {
        Some(Pos::Verb)
    } else {
        None
    }
}

/// The outcome of a word-formation marker: a part-of-speech element if the
/// single unnamed parameter names a recognized part of speech, else the
/// fallback element.
pub open spec fn spec_parse_pos(
    src: Seq<char>,
    lang: Option<Language>,
    node: Node,
    params: Seq<Parameter>,
) -> (FlowingV, Seq<Warning>) {
    if params.len() == 1 && params[0].name is None && spec_parse_text(params[0].value@) is Some
        && spec_wortbildung_pos(spec_parse_text(params[0].value@)->Some_0) is Some {
        (
            FlowingV::Pos {
                pos: spec_wortbildung_pos(spec_parse_text(params[0].value@)->Some_0)->Some_0,
            },
            Seq::empty(),
        )
    } else {
        (
            spec_unknown(src, node.spec_start(), node.spec_end()),
            seq![
                warn(lang, node.spec_start(), node.spec_end(), WarningMessage::ValueUnrecognized),
            ],
        )
    }
}

/// Decodes a word-formation marker into a part-of-speech element.
pub fn parse_pos(context: &mut Context, template_node: &Node, parameters: &Vec<Parameter>) -> (r:
    Flowing)
    requires
        template_node.spec_start() <= template_node.spec_end() <= old(context).wiki_text@.len(),
    ensures
        ctx_keeps(*old(context), *final(context)),
        ({
            let (e, w) = spec_parse_pos(
                old(context).wiki_text@,
                old(context).language,
                *template_node,
                parameters@,
            );
            r@ == e && final(context).warnings@ == old(context).warnings@ + w
        }),
{
    if parameters.len() == 1 {
        let p = &parameters[0];
        if p.name.is_none() {
            if let Some(text) = parse_text(p.value.as_slice()) {
                if let Some(pos) = wortbildung_pos(text.as_str()) {
                    proof {
                        assert(old(context).warnings@ + Seq::<Warning>::empty() =~= old(
                            context,
                        ).warnings@);
                    }
                    return Flowing::Pos { pos };
                }
            }
        }
    }
    let r = create_unknown(context, template_node, WarningMessage::ValueUnrecognized);
    proof {
        assert(old(context).warnings@.push(
            warn(
                old(context).language,
                template_node.spec_start(),
                template_node.spec_end(),
                WarningMessage::ValueUnrecognized,
            ),
        ) =~= old(context).warnings@ + seq![
            warn(
                old(context).language,
                template_node.spec_start(),
                template_node.spec_end(),
                WarningMessage::ValueUnrecognized,
            ),
        ]);
    }
    r
}

/// The outcome of a cross-reference marker with two unnamed parameters: the
/// language code and the term, each coerced to non-empty flat text.
pub open spec fn spec_parse_term(
    src: Seq<char>,
    lang: Option<Language>,
    node: Node,
    params: Seq<Parameter>,
) -> (FlowingV, Seq<Warning>) {
    if params.len() == 2 && params[0].name is None && params[1].name is None {
        if spec_parse_text_not_empty(params[0].value@) is None {
            (
                spec_unknown(src, node.spec_start(), node.spec_end()),
                seq![
                    warn(
                        lang,
                        params[0].start,
                        params[0].end,
                        WarningMessage::ValueUnrecognized,
                    ),
                ],
            )
        } else if spec_parse_text_not_empty(params[1].value@) is None {
            (
                spec_unknown(src, node.spec_start(), node.spec_end()),
                seq![
                    warn(
                        lang,
                        params[1].start,
                        params[1].end,
                        WarningMessage::ValueUnrecognized,
                    ),
                ],
            )
        } else {
            (
                FlowingV::Term {
                    language: spec_parse_text_not_empty(params[0].value@)->Some_0,
                    term: spec_parse_text_not_empty(params[1].value@)->Some_0,
                    transliteration: None,
                },
                Seq::empty(),
            )
        }
    } else {
        (
            spec_unknown(src, node.spec_start(), node.spec_end()),
            seq![
                warn(lang, node.spec_start(), node.spec_end(), WarningMessage::ValueUnrecognized),
            ],
        )
    }
}

/// Decodes a cross-reference marker with language and term parameters.
pub fn parse_term(context: &mut Context, template_node: &Node, parameters: &Vec<Parameter>) -> (r:
    Flowing)
    requires
        template_node.spec_start() <= template_node.spec_end() <= old(context).wiki_text@.len(),
        parameters_wf(parameters@, old(context).wiki_text@.len()),
    ensures
        ctx_keeps(*old(context), *final(context)),
        ({
            let (e, w) = spec_parse_term(
                old(context).wiki_text@,
                old(context).language,
                *template_node,
                parameters@,
            );
            r@ == e && final(context).warnings@ == old(context).warnings@ + w
        }),
{
    if parameters.len() == 2 {
        let p0 = &parameters[0];
        let p1 = &parameters[1];
        if p0.name.is_none() && p1.name.is_none() {
            let r = match parse_text_not_empty(p0.value.as_slice()) {
                None => create_unknown2(
                    context,
                    template_node,
                    p0.start,
                    p0.end,
                    WarningMessage::ValueUnrecognized,
                ),
                Some(language) => match parse_text_not_empty(p1.value.as_slice()) {
                    None => create_unknown2(
                        context,
                        template_node,
                        p1.start,
                        p1.end,
                        WarningMessage::ValueUnrecognized,
                    ),
                    Some(term) => {
                        proof {
                            assert(old(context).warnings@ + Seq::<Warning>::empty() =~= old(
                                context,
                            ).warnings@);
                        }
                        Flowing::Term { language, term, transliteration: None }
                    },
                },
            };
            proof {
                lemma_push_concat_warning();
            }
            return r;
        }
    }
    let r = create_unknown(context, template_node, WarningMessage::ValueUnrecognized);
    proof {
        lemma_push_concat_warning();
    }
    r
}

/// A pushed warning equals an appended singleton, for every log and warning.
pub proof fn lemma_push_concat_warning()
    ensures
        forall|s: Seq<Warning>, w: Warning| #[trigger] s.push(w) == s + seq![w],
{
    assert forall|s: Seq<Warning>, w: Warning| #[trigger] s.push(w) == s + seq![w] by {
        assert(s.push(w) =~= s + seq![w]);
    }
}

/// The outcome of a cross-reference marker with three unnamed parameters:
/// language code, term and transliteration.
pub open spec fn spec_parse_term_transliteration(
    src: Seq<char>,
    lang: Option<Language>,
    node: Node,
    params: Seq<Parameter>,
) -> (FlowingV, Seq<Warning>) {
    if params.len() == 3 && params[0].name is None && params[1].name is None && params[2].name
        is None {
        if spec_parse_text_not_empty(params[0].value@) is None {
            (
                spec_unknown(src, node.spec_start(), node.spec_end()),
                seq![
                    warn(
                        lang,
                        params[0].start,
                        params[0].end,
                        WarningMessage::ValueUnrecognized,
                    ),
                ],
            )
        } else if spec_parse_text_not_empty(params[1].value@) is None {
            (
                spec_unknown(src, node.spec_start(), node.spec_end()),
                seq![
                    warn(
                        lang,
                        params[1].start,
                        params[1].end,
                        WarningMessage::ValueUnrecognized,
                    ),
                ],
            )
        } else if spec_parse_text_not_empty(params[2].value@) is None {
            (
                spec_unknown(src, node.spec_start(), node.spec_end()),
                seq![
                    warn(
                        lang,
                        params[2].start,
                        params[2].end,
                        WarningMessage::ValueUnrecognized,
                    ),
                ],
            )
        } else {
            (
                FlowingV::Term {
                    language: spec_parse_text_not_empty(params[0].value@)->Some_0,
                    term: spec_parse_text_not_empty(params[1].value@)->Some_0,
                    transliteration: Some(spec_parse_text_not_empty(params[2].value@)->Some_0),
                },
                Seq::empty(),
            )
        }
    } else {
        (
            spec_unknown(src, node.spec_start(), node.spec_end()),
            seq![
                warn(lang, node.spec_start(), node.spec_end(), WarningMessage::ValueUnrecognized),
            ],
        )
    }
}

/// Decodes a cross-reference marker with language, term and transliteration.
pub fn parse_term_transliteration(
    context: &mut Context,
    template_node: &Node,
    parameters: &Vec<Parameter>,
) -> (r: Flowing)
    requires
        template_node.spec_start() <= template_node.spec_end() <= old(context).wiki_text@.len(),
        parameters_wf(parameters@, old(context).wiki_text@.len()),
    ensures
        ctx_keeps(*old(context), *final(context)),
        ({
            let (e, w) = spec_parse_term_transliteration(
                old(context).wiki_text@,
                old(context).language,
                *template_node,
                parameters@,
            );
            r@ == e && final(context).warnings@ == old(context).warnings@ + w
        }),
{
    if parameters.len() == 3 {
        let p0 = &parameters[0];
        let p1 = &parameters[1];
        let p2 = &parameters[2];
        if p0.name.is_none() && p1.name.is_none() && p2.name.is_none() {
            let r = match parse_text_not_empty(p0.value.as_slice()) {
                None => create_unknown2(
                    context,
                    template_node,
                    p0.start,
                    p0.end,
                    WarningMessage::ValueUnrecognized,
                ),
                Some(language) => match parse_text_not_empty(p1.value.as_slice()) {
                    None => create_unknown2(
                        context,
                        template_node,
                        p1.start,
                        p1.end,
                        WarningMessage::ValueUnrecognized,
                    ),
                    Some(term) => match parse_text_not_empty(p2.value.as_slice()) {
                        None => create_unknown2(
                            context,
                            template_node,
                            p2.start,
                            p2.end,
                            WarningMessage::ValueUnrecognized,
                        ),
                        Some(transliteration) => {
                            proof {
                                assert(old(context).warnings@ + Seq::<Warning>::empty() =~= old(
                                    context,
                                ).warnings@);
                            }
                            Flowing::Term {
                                language,
                                term,
                                transliteration: Some(transliteration),
                            }
                        },
                    },
                },
            };
            proof {
                lemma_push_concat_warning();
            }
            return r;
        }
    }
    let r = create_unknown(context, template_node, WarningMessage::ValueUnrecognized);
    proof {
        lemma_push_concat_warning();
    }
    r
}

/// The element and warnings of one template node inside a list item, given
/// its decoded name.
pub open spec fn spec_template_flowing(
    src: Seq<char>,
    lang: Option<Language>,
    node: Node,
    n: Seq<char>,
    params: Seq<Parameter>,
) -> (FlowingV, Seq<Warning>) {
    if n == "QS Herkunft"@ || n == "QS_Herkunft"@ {
        (
            FlowingV::QualityControl,
            seq![warn(lang, node.spec_start(), node.spec_end(), WarningMessage::Supplementary)],
        )
    } else if n == "Wortbildung"@ {
        spec_parse_pos(src, lang, node, params)
    } else if n == "Ü"@ {
        spec_parse_term(src, lang, node, params)
    } else if n == "Üt"@ {
        spec_parse_term_transliteration(src, lang, node, params)
    } else if spec_language_adjective(n) is Some {
        spec_simple_template(
            src,
            lang,
            node,
            params.len() == 0,
            FlowingV::LanguageAdjective { language: spec_language_adjective(n)->Some_0 },
        )
    } else if spec_is_language_code(n) {
        spec_simple_template(src, lang, node, params.len() == 0, FlowingV::Language { language: n })
    } else if spec_simple_marker(n) is Some {
        spec_simple_template(src, lang, node, params.len() == 0, spec_simple_marker(n)->Some_0)
    } else {
        (
            spec_unknown(src, node.spec_start(), node.spec_end()),
            seq![warn(lang, node.spec_start(), node.spec_end(), WarningMessage::Unrecognized)],
        )
    }
}

/// Decodes one template node inside a list item through the closed marker
/// dispatch table.
fn parse_template_flowing(
    context: &mut Context,
    node: &Node,
    name: &Vec<Node>,
    parameters: &Vec<Parameter>,
) -> (r: Flowing)
    requires
        node.spec_start() <= node.spec_end() <= old(context).wiki_text@.len(),
        parameters_wf(parameters@, old(context).wiki_text@.len()),
    ensures
        ctx_keeps(*old(context), *final(context)),
        ({
            let (e, w) = match spec_parse_text(name@) {
                None => (
                    spec_unknown(
                        old(context).wiki_text@,
                        node.spec_start(),
                        node.spec_end(),
                    ),
                    seq![
                        warn(
                            old(context).language,
                            node.spec_start(),
                            node.spec_end(),
                            WarningMessage::Unrecognized,
                        ),
                    ],
                ),
                Some(n) => spec_template_flowing(
                    old(context).wiki_text@,
                    old(context).language,
                    *node,
                    n,
                    parameters@,
                ),
            };
            r@ == e && final(context).warnings@ == old(context).warnings@ + w
        }),
{
    proof {
        lemma_push_concat_warning();
    }
    match parse_text(name.as_slice()) {
        None => create_unknown(context, node, WarningMessage::Unrecognized),
        Some(n) => {
            let ns = n.as_str();
            if str_eq(ns, "QS Herkunft") || str_eq(ns, "QS_Herkunft") {
                add_warning(context, node.start(), node.end(), WarningMessage::Supplementary);
                Flowing::QualityControl
            } else if str_eq(ns, "Wortbildung") {
                parse_pos(context, node, parameters)
            } else if str_eq(ns, "Ü") {
                parse_term(context, node, parameters)
            } else if str_eq(ns, "Üt") {
                parse_term_transliteration(context, node, parameters)
            } else if let Some(adjective) = language_adjective(ns) {
                parse_simple_template(
                    context,
                    node,
                    parameters,
                    Flowing::LanguageAdjective { language: adjective.to_owned() },
                )
            } else if is_language_code(ns) {
                parse_simple_template(context, node, parameters, Flowing::Language { language: n })
            } else if let Some(marker) = simple_marker(ns) {
                parse_simple_template(context, node, parameters, marker)
            } else {
                create_unknown(context, node, WarningMessage::Unrecognized)
            }
        },
    }
}

/// The element sequence and warnings of one step of the list-item classifier
/// at node `i`.
pub open spec fn spec_list_item_step(
    src: Seq<char>,
    lang: Option<Language>,
    nodes: Seq<Node>,
    i: int,
    allow_list: bool,
) -> (Seq<FlowingV>, Seq<Warning>)
    decreases nodes, nodes.len() - i, 0int,
{
    if i < 0 || i >= nodes.len() {
        (Seq::empty(), Seq::empty())
    } else {
        let node = nodes[i];
        match node {
            Node::Bold { .. } => (seq![FlowingV::Bold], Seq::empty()),
            Node::CharacterEntity { character, .. } => if character == '\u{a0}' {
                (seq![FlowingV::Text { value: seq!['\u{a0}'] }], Seq::empty())
            } else {
                spec_unknown_step(src, lang, node, WarningMessage::Unrecognized)
            },
            Node::Comment { .. } => (
                seq![FlowingV::Comment],
                seq![
                    warn(lang, node.spec_start(), node.spec_end(), WarningMessage::Supplementary),
                ],
            ),
            Node::EndTag { name, .. } => if name@ == "sup"@ {
                (seq![FlowingV::SuperscriptEnd], Seq::empty())
            } else {
                spec_unknown_step(src, lang, node, WarningMessage::Unrecognized)
            },
            Node::Italic { .. } => (seq![FlowingV::Italic], Seq::empty()),
            Node::Link { target, text, .. } => {
                let (e, w) = spec_parse_link(src, lang, node, target@, text@);
                (seq![e], w)
            },
            Node::StartTag { name, .. } => if name@ == "sup"@ {
                (seq![FlowingV::SuperscriptStart], Seq::empty())
            } else {
                spec_unknown_step(src, lang, node, WarningMessage::Unrecognized)
            },
            Node::Tag { name, .. } => if name@ == "ref"@ {
                (
                    seq![FlowingV::Reference],
                    seq![
                        warn(
                            lang,
                            node.spec_start(),
                            node.spec_end(),
                            WarningMessage::Supplementary,
                        ),
                    ],
                )
            } else {
                spec_unknown_step(src, lang, node, WarningMessage::Unrecognized)
            },
            Node::Template { name, parameters, .. } => {
                let (e, w) = match spec_parse_text(name@) {
                    None => (
                        spec_unknown(src, node.spec_start(), node.spec_end()),
                        seq![
                            warn(
                                lang,
                                node.spec_start(),
                                node.spec_end(),
                                WarningMessage::Unrecognized,
                            ),
                        ],
                    ),
                    Some(n) => spec_template_flowing(src, lang, node, n, parameters@),
                };
                (seq![e], w)
            },
            Node::Text { value, .. } => (seq![FlowingV::Text { value: value@ }], Seq::empty()),
            Node::UnorderedList { items, .. } => if allow_list {
                let (rows, ws) = spec_nested_rows(src, lang, items@, 0);
                if rows.len() == 0 {
                    (Seq::empty(), ws)
                } else {
                    (seq![FlowingV::List { items: rows }], ws)
                }
            } else {
                spec_unknown_step(src, lang, node, WarningMessage::Unrecognized)
            },
            _ => spec_unknown_step(src, lang, node, WarningMessage::Unrecognized),
        }
    }
}

/// A fallback step: one unknown element and one warning at the node's span.
pub open spec fn spec_unknown_step(
    src: Seq<char>,
    lang: Option<Language>,
    node: Node,
    message: WarningMessage,
) -> (Seq<FlowingV>, Seq<Warning>) {
    (
        seq![spec_unknown(src, node.spec_start(), node.spec_end())],
        seq![warn(lang, node.spec_start(), node.spec_end(), message)],
    )
}

/// The elements decoded from the nodes of one list item from index `i` on,
/// with the warnings recorded along the way.  `allow_list` permits one level
/// of nested unordered lists.
pub open spec fn spec_list_item_elems(
    src: Seq<char>,
    lang: Option<Language>,
    nodes: Seq<Node>,
    i: int,
    allow_list: bool,
) -> (Seq<FlowingV>, Seq<Warning>)
    decreases nodes, nodes.len() - i, 1int,
{
    if i < 0 || i >= nodes.len() {
        (Seq::empty(), Seq::empty())
    } else {
        let (es, ws) = spec_list_item_step(src, lang, nodes, i, allow_list);
        let (rest_es, rest_ws) = spec_list_item_elems(src, lang, nodes, i + 1, allow_list);
        (es + rest_es, ws + rest_ws)
    }
}

/// The rows decoded from the items of a nested unordered list from index `k`
/// on: an empty item is dropped with a warning, any other item becomes one
/// row, classified with nesting disabled.
pub open spec fn spec_nested_rows(
    src: Seq<char>,
    lang: Option<Language>,
    items: Seq<ListItem>,
    k: int,
) -> (Seq<Seq<FlowingV>>, Seq<Warning>)
    decreases items, items.len() - k, 2int,
{
    if k < 0 || k >= items.len() {
        (Seq::empty(), Seq::empty())
    } else {
        let item = items[k];
        if item.nodes@.len() == 0 {
            let (rrows, rws) = spec_nested_rows(src, lang, items, k + 1);
            (rrows, seq![warn(lang, item.start, item.end, WarningMessage::Empty)] + rws)
        } else {
            let (row, ws) = spec_list_item_elems(src, lang, item.nodes@, 0, false);
            let (rrows, rws) = spec_nested_rows(src, lang, items, k + 1);
            (seq![row] + rrows, ws + rws)
        }
    }
}

/// Classifies the nodes of one list item into a sequence of elements.
/// Nested unordered lists are classified with nesting disabled.
pub fn parse_list_item(context: &mut Context, nodes: &[Node], allow_list: bool) -> (r: Vec<
    Flowing,
>)
    requires
        nodes_wf(nodes@, old(context).wiki_text@.len()),
    ensures
        ctx_keeps(*old(context), *final(context)),
        ({
            let (es, ws) = spec_list_item_elems(
                old(context).wiki_text@,
                old(context).language,
                nodes@,
                0,
                allow_list,
            );
            row_view(r@) == es && final(context).warnings@ == old(context).warnings@ + ws
        }),
    decreases nodes@,
{
    proof {
        lemma_push_concat_warning();
    }
    let ghost src0 = old(context).wiki_text@;
    let ghost lang0 = old(context).language;
    let mut out: Vec<Flowing> = Vec::new();
    let mut i: usize = 0;
    proof {
        assert(row_view(out@) =~= Seq::<FlowingV>::empty());
        assert(Seq::<FlowingV>::empty() + spec_list_item_elems(src0, lang0, nodes@, 0, allow_list).0
            =~= spec_list_item_elems(src0, lang0, nodes@, 0, allow_list).0);
    }
    while i < nodes.len()
        invariant
            0 <= i <= nodes@.len(),
            nodes_wf(nodes@, src0.len()),
            ctx_keeps(*old(context), *context),
            context.wiki_text@ == src0,
            context.language == lang0,
            spec_list_item_elems(src0, lang0, nodes@, 0, allow_list).0 == row_view(out@)
                + spec_list_item_elems(src0, lang0, nodes@, i as int, allow_list).0,
            old(context).warnings@ + spec_list_item_elems(src0, lang0, nodes@, 0, allow_list).1
                == context.warnings@ + spec_list_item_elems(
                src0,
                lang0,
                nodes@,
                i as int,
                allow_list,
            ).1,
        decreases nodes@.len() - i,
    {
        let ghost w_pre = context.warnings@;
        let ghost out_pre = out@;
        let ghost s_step = spec_list_item_step(src0, lang0, nodes@, i as int, allow_list);
        proof {
            assert(node_wf(nodes@[i as int], src0.len()));
            lemma_push_concat_warning();
        }
        match &nodes[i] {
            Node::Bold { .. } => {
                out.push(Flowing::Bold);
                proof {
                    lemma_one_elem(out_pre, Flowing::Bold);
                    assert(w_pre + Seq::<Warning>::empty() =~= w_pre);
                }
            },
            Node::CharacterEntity { character, .. } => {
                if *character == '\u{a0}' {
                    let mut s = String::new();
                    string_push(&mut s, '\u{a0}');
                    let f = Flowing::Text { value: s };
                    proof {
                        assert(flowing_view(f)->Text_value =~= seq!['\u{a0}']);
                        assert(flowing_view(f) == FlowingV::Text { value: seq!['\u{a0}'] });
                    }
                    out.push(f);
                    proof {
                        lemma_one_elem(out_pre, f);
                        assert(w_pre + Seq::<Warning>::empty() =~= w_pre);
                    }
                } else {
                    let f = create_unknown(context, &nodes[i], WarningMessage::Unrecognized);
                    out.push(f);
                    proof {
                        lemma_one_elem(out_pre, f);
                    }
                }
            },
            Node::Comment { .. } => {
                let start = nodes[i].start();
                let end = nodes[i].end();
                add_warning(context, start, end, WarningMessage::Supplementary);
                out.push(Flowing::Comment);
                proof {
                    lemma_one_elem(out_pre, Flowing::Comment);
                }
            },
            Node::EndTag { name, .. } => {
                if str_eq(name.as_str(), "sup") {
                    out.push(Flowing::SuperscriptEnd);
                    proof {
                        lemma_one_elem(out_pre, Flowing::SuperscriptEnd);
                        assert(w_pre + Seq::<Warning>::empty() =~= w_pre);
                    }
                } else {
                    let f = create_unknown(context, &nodes[i], WarningMessage::Unrecognized);
                    out.push(f);
                    proof {
                        lemma_one_elem(out_pre, f);
                    }
                }
            },
            Node::Italic { .. } => {
                out.push(Flowing::Italic);
                proof {
                    lemma_one_elem(out_pre, Flowing::Italic);
                    assert(w_pre + Seq::<Warning>::empty() =~= w_pre);
                }
            },
            Node::Link { target, text, .. } => {
                let f = parse_link(context, &nodes[i], target.as_str(), text.as_slice());
                out.push(f);
                proof {
                    lemma_one_elem(out_pre, f);
                }
            },
            Node::StartTag { name, .. } => {
                if str_eq(name.as_str(), "sup") {
                    out.push(Flowing::SuperscriptStart);
                    proof {
                        lemma_one_elem(out_pre, Flowing::SuperscriptStart);
                        assert(w_pre + Seq::<Warning>::empty() =~= w_pre);
                    }
                } else {
                    let f = create_unknown(context, &nodes[i], WarningMessage::Unrecognized);
                    out.push(f);
                    proof {
                        lemma_one_elem(out_pre, f);
                    }
                }
            },
            Node::Tag { name, .. } => {
                if str_eq(name.as_str(), "ref") {
                    let start = nodes[i].start();
                    let end = nodes[i].end();
                    add_warning(context, start, end, WarningMessage::Supplementary);
                    out.push(Flowing::Reference);
                    proof {
                        lemma_one_elem(out_pre, Flowing::Reference);
                    }
                } else {
                    let f = create_unknown(context, &nodes[i], WarningMessage::Unrecognized);
                    out.push(f);
                    proof {
                        lemma_one_elem(out_pre, f);
                    }
                }
            },
            Node::Template { name, parameters, .. } => {
                let f = parse_template_flowing(context, &nodes[i], name, parameters);
                out.push(f);
                proof {
                    lemma_one_elem(out_pre, f);
                }
            },
            Node::Text { value, .. } => {
                let f = Flowing::Text { value: value.clone() };
                out.push(f);
                proof {
                    lemma_one_elem(out_pre, f);
                    assert(w_pre + Seq::<Warning>::empty() =~= w_pre);
                }
            },
            Node::UnorderedList { items, .. } => {
                if allow_list {
                    let rows = parse_nested_rows(context, items);
                    proof {
                        lemma_rows_view_len(rows@);
                    }
                    if rows.len() > 0 {
                        let f = Flowing::List { items: rows };
                        proof {
                            assert(flowing_view(f) == FlowingV::List {
                                items: spec_nested_rows(src0, lang0, nodes@[i as int]->UnorderedList_items@, 0).0,
                            });
                        }
                        out.push(f);
                        proof {
                            lemma_one_elem(out_pre, f);
                        }
                    } else {
                        proof {
                            assert(row_view(out@) =~= row_view(out_pre)
                                + Seq::<FlowingV>::empty());
                        }
                    }
                } else {
                    let f = create_unknown(context, &nodes[i], WarningMessage::Unrecognized);
                    out.push(f);
                    proof {
                        lemma_one_elem(out_pre, f);
                    }
                }
            },
            _ => {
                let f = create_unknown(context, &nodes[i], WarningMessage::Unrecognized);
                out.push(f);
                proof {
                    lemma_one_elem(out_pre, f);
                }
            },
        }
        proof {
            let e0 = spec_list_item_elems(src0, lang0, nodes@, 0, allow_list);
            let ei = spec_list_item_elems(src0, lang0, nodes@, i as int, allow_list);
            let e1 = spec_list_item_elems(src0, lang0, nodes@, i as int + 1, allow_list);
            assert(ei.0 == s_step.0 + e1.0);
            assert(ei.1 == s_step.1 + e1.1);
            assert(row_view(out@) == row_view(out_pre) + s_step.0);
            assert(context.warnings@ == w_pre + s_step.1);
            assert((row_view(out_pre) + s_step.0) + e1.0 =~= row_view(out_pre) + (s_step.0
                + e1.0));
            assert((w_pre + s_step.1) + e1.1 =~= w_pre + (s_step.1 + e1.1));
        }
        i += 1;
    }
    proof {
        let e_end = spec_list_item_elems(src0, lang0, nodes@, nodes@.len() as int, allow_list);
        assert(e_end.0 =~= Seq::<FlowingV>::empty());
        assert(e_end.1 =~= Seq::<Warning>::empty());
        assert(row_view(out@) + Seq::<FlowingV>::empty() =~= row_view(out@));
        assert(context.warnings@ + Seq::<Warning>::empty() =~= context.warnings@);
    }
    out
}

/// One pushed element extends the viewed row by its view.
proof fn lemma_one_elem(out_pre: Seq<Flowing>, f: Flowing)
    ensures
        row_view(out_pre.push(f)) == row_view(out_pre) + seq![flowing_view(f)],
{
    lemma_row_view_push(out_pre, f);
    assert(row_view(out_pre).push(flowing_view(f)) =~= row_view(out_pre) + seq![flowing_view(f)]);
}

/// Classifies the items of a nested unordered list into rows, dropping empty
/// items with a warning.
fn parse_nested_rows(context: &mut Context, items: &Vec<ListItem>) -> (r: Vec<Vec<Flowing>>)
    requires
        list_items_wf(items@, old(context).wiki_text@.len()),
    ensures
        ctx_keeps(*old(context), *final(context)),
        ({
            let (rows, ws) = spec_nested_rows(
                old(context).wiki_text@,
                old(context).language,
                items@,
                0,
            );
            rows_view(r@) == rows && final(context).warnings@ == old(context).warnings@ + ws
        }),
    decreases items@,
{
    let ghost src0 = old(context).wiki_text@;
    let ghost lang0 = old(context).language;
    let mut rows: Vec<Vec<Flowing>> = Vec::new();
    let mut k: usize = 0;
    proof {
        assert(rows_view(rows@) =~= Seq::<Seq<FlowingV>>::empty());
        assert(Seq::<Seq<FlowingV>>::empty() + spec_nested_rows(src0, lang0, items@, 0).0
            =~= spec_nested_rows(src0, lang0, items@, 0).0);
    }
    while k < items.len()
        invariant
            0 <= k <= items@.len(),
            list_items_wf(items@, src0.len()),
            ctx_keeps(*old(context), *context),
            context.wiki_text@ == src0,
            context.language == lang0,
            spec_nested_rows(src0, lang0, items@, 0).0 == rows_view(rows@) + spec_nested_rows(
                src0,
                lang0,
                items@,
                k as int,
            ).0,
            old(context).warnings@ + spec_nested_rows(src0, lang0, items@, 0).1
                == context.warnings@ + spec_nested_rows(src0, lang0, items@, k as int).1,
        decreases items@.len() - k,
    {
        let ghost w_pre = context.warnings@;
        let ghost rows_pre = rows@;
        proof {
            assert(list_item_wf(items@[k as int], src0.len()));
            lemma_push_concat_warning();
        }
        let item = &items[k];
        if item.nodes.len() == 0 {
            add_warning(context, item.start, item.end, WarningMessage::Empty);
            proof {
                let nk = spec_nested_rows(src0, lang0, items@, k as int);
                let n1 = spec_nested_rows(src0, lang0, items@, k as int + 1);
                assert(nk.0 == n1.0);
                assert(nk.1 == seq![warn(lang0, items@[k as int].start, items@[k as int].end, WarningMessage::Empty)] + n1.1);
                assert((w_pre + seq![warn(lang0, items@[k as int].start, items@[k as int].end, WarningMessage::Empty)]) + n1.1 =~= w_pre + nk.1);
            }
        } else {
            let row = parse_list_item(context, item.nodes.as_slice(), false);
            rows.push(row);
            proof {
                let nk = spec_nested_rows(src0, lang0, items@, k as int);
                let n1 = spec_nested_rows(src0, lang0, items@, k as int + 1);
                let (erow, ews) = spec_list_item_elems(src0, lang0, items@[k as int].nodes@, 0, false);
                assert(nk.0 == seq![erow] + n1.0);
                assert(nk.1 == ews + n1.1);
                lemma_rows_view_push(rows_pre, row);
                assert(rows_view(rows_pre).push(row_view(row@)) =~= rows_view(rows_pre)
                    + seq![row_view(row@)]);
                assert((rows_view(rows_pre) + seq![erow]) + n1.0 =~= rows_view(rows_pre) + (
                seq![erow] + n1.0));
                assert((w_pre + ews) + n1.1 =~= w_pre + (ews + n1.1));
            }
        }
        k += 1;
    }
    proof {
        let n_end = spec_nested_rows(src0, lang0, items@, items@.len() as int);
        assert(n_end.0 =~= Seq::<Seq<FlowingV>>::empty());
        assert(n_end.1 =~= Seq::<Warning>::empty());
        assert(rows_view(rows@) + Seq::<Seq<FlowingV>>::empty() =~= rows_view(rows@));
        assert(context.warnings@ + Seq::<Warning>::empty() =~= context.warnings@);
    }
    rows
}

/// The rows classified from a section's definition-list items from index `k`
/// on: items that are not description items are flagged and skipped, empty
/// items are flagged and skipped, every other item becomes one row.
pub open spec fn spec_flat_rows(
    src: Seq<char>,
    lang: Option<Language>,
    items: Seq<DefinitionListItem>,
    k: int,
) -> (Seq<Seq<FlowingV>>, Seq<Warning>)
    decreases items.len() - k,
{
    if k < 0 || k >= items.len() {
        (Seq::empty(), Seq::empty())
    } else {
        let item = items[k];
        let (rrows, rws) = spec_flat_rows(src, lang, items, k + 1);
        if item.type_ != DefinitionListItemType::Details {
            (rrows, seq![warn(lang, item.start, item.end, WarningMessage::Unrecognized)] + rws)
        } else if item.nodes@.len() == 0 {
            (rrows, seq![warn(lang, item.start, item.end, WarningMessage::Empty)] + rws)
        } else {
            let (row, ws) = spec_list_item_elems(src, lang, item.nodes@, 0, true);
            (seq![row] + rrows, ws + rws)
        }
    }
}

/// Classifies the description items of a section's definition list into rows.
fn flat_rows(context: &mut Context, items: &Vec<DefinitionListItem>) -> (r: Vec<Vec<Flowing>>)
    requires
        dl_items_wf(items@, old(context).wiki_text@.len()),
    ensures
        ctx_keeps(*old(context), *final(context)),
        ({
            let (rows, ws) = spec_flat_rows(
                old(context).wiki_text@,
                old(context).language,
                items@,
                0,
            );
            rows_view(r@) == rows && final(context).warnings@ == old(context).warnings@ + ws
        }),
{
    let ghost src0 = old(context).wiki_text@;
    let ghost lang0 = old(context).language;
    let mut rows: Vec<Vec<Flowing>> = Vec::new();
    let mut k: usize = 0;
    proof {
        assert(rows_view(rows@) =~= Seq::<Seq<FlowingV>>::empty());
        assert(Seq::<Seq<FlowingV>>::empty() + spec_flat_rows(src0, lang0, items@, 0).0
            =~= spec_flat_rows(src0, lang0, items@, 0).0);
    }
    while k < items.len()
        invariant
            0 <= k <= items@.len(),
            dl_items_wf(items@, src0.len()),
            ctx_keeps(*old(context), *context),
            context.wiki_text@ == src0,
            context.language == lang0,
            spec_flat_rows(src0, lang0, items@, 0).0 == rows_view(rows@) + spec_flat_rows(
                src0,
                lang0,
                items@,
                k as int,
            ).0,
            old(context).warnings@ + spec_flat_rows(src0, lang0, items@, 0).1 == context.warnings@
                + spec_flat_rows(src0, lang0, items@, k as int).1,
        decreases items@.len() - k,
    {
        let ghost w_pre = context.warnings@;
        let ghost rows_pre = rows@;
        proof {
            assert(dl_item_wf(items@[k as int], src0.len()));
            lemma_push_concat_warning();
        }
        let item = &items[k];
        if !matches!(item.type_, DefinitionListItemType::Details) {
            add_warning(context, item.start, item.end, WarningMessage::Unrecognized);
            proof {
                let nk = spec_flat_rows(src0, lang0, items@, k as int);
                let n1 = spec_flat_rows(src0, lang0, items@, k as int + 1);
                assert(nk.0 == n1.0);
                assert((w_pre + seq![warn(lang0, items@[k as int].start, items@[k as int].end, WarningMessage::Unrecognized)]) + n1.1 =~= w_pre + nk.1);
            }
        } else if item.nodes.len() == 0 {
            add_warning(context, item.start, item.end, WarningMessage::Empty);
            proof {
                let nk = spec_flat_rows(src0, lang0, items@, k as int);
                let n1 = spec_flat_rows(src0, lang0, items@, k as int + 1);
                assert(nk.0 == n1.0);
                assert((w_pre + seq![warn(lang0, items@[k as int].start, items@[k as int].end, WarningMessage::Empty)]) + n1.1 =~= w_pre + nk.1);
            }
        } else {
            let row = parse_list_item(context, item.nodes.as_slice(), true);
            rows.push(row);
            proof {
                let nk = spec_flat_rows(src0, lang0, items@, k as int);
                let n1 = spec_flat_rows(src0, lang0, items@, k as int + 1);
                let (erow, ews) = spec_list_item_elems(src0, lang0, items@[k as int].nodes@, 0, true);
                assert(nk.0 == seq![erow] + n1.0);
                assert(nk.1 == ews + n1.1);
                lemma_rows_view_push(rows_pre, row);
                assert(rows_view(rows_pre).push(row_view(row@)) =~= rows_view(rows_pre)
                    + seq![row_view(row@)]);
                assert((rows_view(rows_pre) + seq![erow]) + n1.0 =~= rows_view(rows_pre) + (
                seq![erow] + n1.0));
                assert((w_pre + ews) + n1.1 =~= w_pre + (ews + n1.1));
            }
        }
        k += 1;
    }
    proof {
        let n_end = spec_flat_rows(src0, lang0, items@, items@.len() as int);
        assert(n_end.0 =~= Seq::<Seq<FlowingV>>::empty());
        assert(n_end.1 =~= Seq::<Warning>::empty());
        assert(rows_view(rows@) + Seq::<Seq<FlowingV>>::empty() =~= rows_view(rows@));
        assert(context.warnings@ + Seq::<Warning>::empty() =~= context.warnings@);
    }
    rows
}

/// Extracts the definition list following a section marker and classifies
/// each description item into a row of elements; other items are flagged and
/// skipped.  Returns the rows when the list was found, and the consumed node
/// count.
pub fn parse_list_items_generic(
    context: &mut Context,
    template_node: &Node,
    parameters: &Vec<Parameter>,
    nodes: &[Node],
    from: usize,
    filled: bool,
) -> (r: (Option<Vec<Vec<Flowing>>>, usize))
    requires
        template_node.spec_start() <= template_node.spec_end() <= old(context).wiki_text@.len(),
        nodes_wf(nodes@, old(context).wiki_text@.len()),
    ensures
        ctx_keeps(*old(context), *final(context)),
        ({
            let (found, consumed, w0) = spec_list_section(
                old(context).language,
                template_node.spec_start(),
                template_node.spec_end(),
                parameters@.len() == 0,
                nodes@,
                from as int,
                filled,
            );
            r.1 == consumed && match r.0 {
                Some(rows) => {
                    let (vrows, w1) = spec_flat_rows(
                        old(context).wiki_text@,
                        old(context).language,
                        spec_list_body(nodes@, from as int)->Some_0,
                        0,
                    );
                    found && rows_view(rows@) == vrows && final(context).warnings@ == old(
                        context,
                    ).warnings@ + w1
                },
                None => !found && final(context).warnings@ == old(context).warnings@ + w0,
            }
        }),
{
    let start = template_node.start();
    let end = template_node.end();
    let (body, consumed) = parse_list_generic(context, start, end, parameters, nodes, from, filled);
    match body {
        Some(items) => {
            proof {
                assert(node_wf(nodes@[from as int], old(context).wiki_text@.len()));
                assert(context.warnings@ =~= old(context).warnings@);
            }
            let rows = flat_rows(context, items);
            proof {
                assert(old(context).warnings@ + Seq::<Warning>::empty() =~= old(
                    context,
                ).warnings@);
            }
            (Some(rows), consumed)
        },
        None => (None, consumed),
    }
}

/// The slot value, consumed count and warnings of one flat list section: the
/// classified rows when the body was found, the empty value otherwise.
pub open spec fn spec_parse_list(
    src: Seq<char>,
    lang: Option<Language>,
    node: Node,
    params: Seq<Parameter>,
    nodes: Seq<Node>,
    from: int,
    filled: bool,
) -> (Option<Seq<Seq<FlowingV>>>, usize, Seq<Warning>) {
    let (found, consumed, w0) = spec_list_section(
        lang,
        node.spec_start(),
        node.spec_end(),
        params.len() == 0,
        nodes,
        from,
        filled,
    );
    if found {
        let (rows, w1) = spec_flat_rows(src, lang, spec_list_body(nodes, from)->Some_0, 0);
        (Some(rows), consumed, w1)
    } else {
        (Some(Seq::empty()), consumed, w0)
    }
}

/// Idempotence of a flat list section: with its slot already filled, the
/// section parser consumes nothing, resets the slot to the empty value, and
/// records exactly one duplicate warning.
pub proof fn lemma_parse_list_duplicate(
    src: Seq<char>,
    lang: Option<Language>,
    node: Node,
    params: Seq<Parameter>,
    nodes: Seq<Node>,
    from: int,
)
    ensures
        ({
            let (slot, consumed, w) = spec_parse_list(src, lang, node, params, nodes, from, true);
            slot == Some(Seq::<Seq<FlowingV>>::empty()) && consumed == 0 && w == seq![
                warn(
                    lang,
                    node.spec_start(),
                    node.spec_end(),
                    WarningMessage::Duplicate,
                ),
            ]
        }),
{
}

/// Parses one flat list section following a marker into its output slot.  A
/// filled slot is reset to the empty value with a duplicate warning; a marker
/// with parameters or without a following definition list fills the slot with
/// the empty value and a warning.
pub fn parse_list(
    context: &mut Context,
    template_node: &Node,
    parameters: &Vec<Parameter>,
    nodes: &[Node],
    from: usize,
    output: &mut Option<Vec<Vec<Flowing>>>,
) -> (consumed: usize)
    requires
        template_node.spec_start() <= template_node.spec_end() <= old(context).wiki_text@.len(),
        nodes_wf(nodes@, old(context).wiki_text@.len()),
    ensures
        ctx_keeps(*old(context), *final(context)),
        ({
            let (slot, consumed_s, w) = spec_parse_list(
                old(context).wiki_text@,
                old(context).language,
                *template_node,
                parameters@,
                nodes@,
                from as int,
                *old(output) is Some,
            );
            consumed == consumed_s && final(context).warnings@ == old(context).warnings@ + w
                && *final(output) is Some && Some(rows_view((*final(output))->Some_0@)) == slot
        }),
{
    let filled = output.is_some();
    let (body, consumed) = parse_list_items_generic(
        context,
        template_node,
        parameters,
        nodes,
        from,
        filled,
    );
    match body {
        Some(rows) => {
            *output = Some(rows);
            consumed
        },
        None => {
            *output = Some(Vec::new());
            proof {
                assert(rows_view(Seq::<Vec<Flowing>>::empty()) =~= Seq::<Seq<FlowingV>>::empty());
            }
            consumed
        },
    }
}

} // verus!
