//! The part-of-speech marker found in part-of-speech headings: two unnamed
//! parameters naming a part of speech and a language, where the language must
//! agree with the enclosing language section.

use vstd::prelude::*;

use crate::languages::{spec_language_of, Language};
use crate::node::{Node, Parameter};
use crate::util::{add_warning, ctx_keeps, parse_text, str_eq, warn, Context};
use crate::{Pos, Warning, WarningMessage};

verus! {

/// The closed mapping from part-of-speech names to tags, as accepted in
/// part-of-speech headings.
pub open spec fn spec_pos_of(text: Seq<char>) -> Option<Pos> {
    if text == "Abk\u{fc}rzung"@ {
        Some(Pos::Abbreviation)
    } else if text == "Adjektiv"@ {
        Some(Pos::Adjective)
    } else if text == "Adverb"@ {
        Some(Pos::Adverb)
    } else if text == "Deklinierte Form"@ {
        Some(Pos::DeclinedForm)
    } else if text == "Eigenname"@ {
        Some(Pos::ProperNoun)
    } else if text == "Interjektion"@ {
        Some(Pos::Interjection)
    } else if text == "Konjugierte Form"@ {
        Some(Pos::ConjugatedForm)
    } else if text == "Konjunktion"@ {
        Some(Pos::Conjunction)
    } else if text == "Lokaladverb"@ {
        Some(Pos::LocalAdverb)
    } else if text == "Nachname"@ {
        Some(Pos::LastName)
    } else if text == "Numerale"@ {
        Some(Pos::Numeral)
    } else if text == "Postposition"@ {
        Some(Pos::Postposition)
    } else if text == "Pr\u{e4}position"@ {
        Some(Pos::Preposition)
    } else if text == "Redewendung"@ {
        Some(Pos::Idiom)
    } else if text == "Sprichwort"@ {
        Some(Pos::Proverb)
    } else if text == "Symbol"@ {
        Some(Pos::Symbol)
    } else if text == "Substantiv"@ {
        Some(Pos::Noun)
    } else if text == "Toponym"@ {
        Some(Pos::Toponym)
    } else if text == "Verb"@ {
        Some(Pos::Verb)
    } else if text == "Vorname"@ {
        Some(Pos::FirstName)
    } else if text == "Wortverbindung"@ {
        Some(Pos::CompoundWord)
    } else {
        None
    }
}

fn pos_of(text: &str) -> (r: Option<Pos>)
    ensures
        r == spec_pos_of(text@),
{
    if str_eq(text, "Abk\u{fc}rzung") {
        Some(Pos::Abbreviation)
    } else if str_eq(text, "Adjektiv") {
        Some(Pos::Adjective)
    } else if str_eq(text, "Adverb") {
        Some(Pos::Adverb)
    } else if str_eq(text, "Deklinierte Form") {
        Some(Pos::DeclinedForm)
    } else if str_eq(text, "Eigenname") {
        Some(Pos::ProperNoun)
    } else if str_eq(text, "Interjektion") {
        Some(Pos::Interjection)
    } else if str_eq(text, "Konjugierte Form") {
        Some(Pos::ConjugatedForm)
    } else if str_eq(text, "Konjunktion") {
        Some(Pos::Conjunction)
    } else if str_eq(text, "Lokaladverb") {
        Some(Pos::LocalAdverb)
    } else if str_eq(text, "Nachname") {
        Some(Pos::LastName)
    } else if str_eq(text, "Numerale") {
        Some(Pos::Numeral)
    } else if str_eq(text, "Postposition") {
        Some(Pos::Postposition)
    } else if str_eq(text, "Pr\u{e4}position") {
        Some(Pos::Preposition)
    } else if str_eq(text, "Redewendung") {
        Some(Pos::Idiom)
    } else if str_eq(text, "Sprichwort") {
        Some(Pos::Proverb)
    } else if str_eq(text, "Symbol") {
        Some(Pos::Symbol)
    } else if str_eq(text, "Substantiv") {
        Some(Pos::Noun)
    } else if str_eq(text, "Toponym") {
        Some(Pos::Toponym)
    } else if str_eq(text, "Verb") {
        Some(Pos::Verb)
    } else if str_eq(text, "Vorname") {
        Some(Pos::FirstName)
    } else if str_eq(text, "Wortverbindung") {
        Some(Pos::CompoundWord)
    } else {
        None
    }
}

/// The decoded part-of-speech name of the first marker parameter, if any.
pub open spec fn spec_pos_param(p: Parameter) -> Option<Pos> {
    match crate::util::spec_parse_text(p.value@) {
        Some(t) => spec_pos_of(t),
        None => None,
    }
}

/// The decoded language of the second marker parameter, if any.
pub open spec fn spec_language_param(p: Parameter) -> Option<Language> {
    match crate::util::spec_parse_text(p.value@) {
        Some(t) => spec_language_of(t),
        None => None,
    }
}

/// The outcome of a part-of-speech marker: the tag if both parameters decode
/// and the language parameter matches the active language; otherwise no tag
/// and exactly one warning saying what failed.
pub open spec fn spec_parse_pos_template(
    lang: Option<Language>,
    node: Node,
    params: Seq<Parameter>,
) -> (Option<Pos>, Seq<Warning>) {
    if params.len() == 2 && params[0].name is None && params[1].name is None {
        if spec_pos_param(params[0]) is None {
            (
                None,
                seq![
                    warn(
                        lang,
                        params[0].start,
                        params[0].end,
                        WarningMessage::ValueUnrecognized,
                    ),
                ],
            )
        } else if spec_language_param(params[1]) is None {
            (
                None,
                seq![
                    warn(
                        lang,
                        params[1].start,
                        params[1].end,
                        WarningMessage::ValueUnrecognized,
                    ),
                ],
            )
        } else if Some(spec_language_param(params[1])->Some_0) == lang {
            (Some(spec_pos_param(params[0])->Some_0), Seq::empty())
        } else {
            (
                None,
                seq![
                    warn(lang, params[1].start, params[1].end, WarningMessage::ValueConflicting),
                ],
            )
        }
    } else {
        (
            None,
            seq![
                warn(lang, node.spec_start(), node.spec_end(), WarningMessage::ValueUnrecognized),
            ],
        )
    }
}

/// A part-of-speech marker whose language parameter does not match the
/// active language never yields a tag, and yields exactly one conflicting-
/// value warning at the language parameter's span.
pub proof fn lemma_pos_language_conflict(
    lang: Option<Language>,
    node: Node,
    params: Seq<Parameter>,
)
    requires
        params.len() == 2,
        params[0].name is None,
        params[1].name is None,
        spec_pos_param(params[0]) is Some,
        spec_language_param(params[1]) is Some,
        Some(spec_language_param(params[1])->Some_0) != lang,
    ensures
        ({
            let (p, w) = spec_parse_pos_template(lang, node, params);
            p is None && w == seq![
                warn(lang, params[1].start, params[1].end, WarningMessage::ValueConflicting),
            ]
        }),
{
}

/// Decodes a part-of-speech marker: its first unnamed parameter must name a
/// part of speech and its second a language equal to the active language,
/// else no tag is produced and a warning is recorded.
pub fn parse_pos_template(
    context: &mut Context,
    template_node: &Node,
    parameters: &Vec<Parameter>,
) -> (r: Option<Pos>)
    ensures
        ctx_keeps(*old(context), *final(context)),
        ({
            let (p, w) = spec_parse_pos_template(
                old(context).language,
                *template_node,
                parameters@,
            );
            r == p && final(context).warnings@ == old(context).warnings@ + w
        }),
{
    proof {
        crate::list::lemma_push_concat_warning();
    }
    if parameters.len() == 2 {
        let p0 = &parameters[0];
        let p1 = &parameters[1];
        if p0.name.is_none() && p1.name.is_none() {
            let pos = match parse_text(p0.value.as_slice()) {
                Some(text) => pos_of(text.as_str()),
                None => None,
            };
            match pos {
                None => {
                    add_warning(context, p0.start, p0.end, WarningMessage::ValueUnrecognized);
                    return None;
                },
                Some(pos) => {
                    let language = match parse_text(p1.value.as_slice()) {
                        Some(text) => Language::from_name(text.as_str()),
                        None => None,
                    };
                    match language {
                        None => {
                            add_warning(
                                context,
                                p1.start,
                                p1.end,
                                WarningMessage::ValueUnrecognized,
                            );
                            return None;
                        },
                        Some(language) => {
                            let matches_context = match context.language {
                                Some(active) => active == language,
                                None => false,
                            };
                            if matches_context {
                                proof {
                                    assert(old(context).warnings@ + Seq::<Warning>::empty()
                                        =~= old(context).warnings@);
                                }
                                return Some(pos);
                            }
                            add_warning(
                                context,
                                p1.start,
                                p1.end,
                                WarningMessage::ValueConflicting,
                            );
                            return None;
                        },
                    }
                },
            }
        }
    }
    let start = template_node.start();
    let end = template_node.end();
    add_warning(context, start, end, WarningMessage::ValueUnrecognized);
    None
}

} // verus!
