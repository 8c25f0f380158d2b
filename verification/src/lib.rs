//! Parse dictionary pages from the German language edition of Wiktionary into
//! structured data.
//!
//! The input is the page title, the source text and the sequence of [`Node`]
//! values the caller obtained by tokenizing the source text; positions in the
//! nodes count characters of the source text.  [`parse`] walks the node
//! sequence once, left to right, and produces an [`Output`]: the dictionary
//! entries by language together with a log of warnings.  Malformed input never
//! aborts the parse; every anomaly is recorded as a [`Warning`] and the
//! offending fragment is preserved verbatim as a [`Flowing::Unknown`] element.

use vstd::prelude::*;

pub mod examples;
pub mod language;
pub mod languages;
pub mod list;
pub mod node;
pub mod overview;
pub mod pos_section;
pub mod pos_template;
pub mod pronunciation;
pub mod util;

pub use languages::Language;
pub use node::{DefinitionListItem, DefinitionListItemType, ListItem, Node, Parameter};

verus! {

/// Identifier for a kind of warning from the parser.
#[derive(Clone, Copy, Debug, PartialEq, Eq, Hash, Structural)]
pub enum WarningMessage {
    /// The element is a duplicate of something that comes before it.
    Duplicate,
    /// The element is missing some required content.
    Empty,
    /// The section following the heading is missing some required content.
    SectionEmpty,
    /// The element is recognized but intentionally not represented in the
    /// output.
    Supplementary,
    /// The element is not recognized.
    Unrecognized,
    /// The value of the element conflicts with information occurring before
    /// it.
    ValueConflicting,
    /// The element is recognized, but its value is not.
    ValueUnrecognized,
}

/// Part of speech.
#[derive(Clone, Copy, Debug, PartialEq, Eq, Hash, Structural)]
pub enum Pos {
    /// Abbreviation.
    Abbreviation,
    /// Adjective.
    Adjective,
    /// Adverb.
    Adverb,
    /// Compound word.
    CompoundWord,
    /// Conjugated form.
    ConjugatedForm,
    /// Conjunction.
    Conjunction,
    /// Declined form.
    DeclinedForm,
    /// First name.
    FirstName,
    /// Idiom.
    Idiom,
    /// Interjection.
    Interjection,
    /// Last name.
    LastName,
    /// Local adverb.
    LocalAdverb,
    /// Noun.
    Noun,
    /// Numeral.
    Numeral,
    /// Past participle.
    PastParticiple,
    /// Postposition.
    Postposition,
    /// Preposition.
    Preposition,
    /// Proper noun.
    ProperNoun,
    /// Proverb.
    Proverb,
    /// Symbol.
    Symbol,
    /// Toponym.
    Toponym,
    /// Verb.
    Verb,
}

/// Warning from the parser telling that something is not well-formed.
#[derive(Clone, Copy, Debug, PartialEq, Eq)]
pub struct Warning {
    /// The character position in the source text where the warning ends.
    pub end: usize,
    /// The language of the language section in which the warning occurred, if
    /// any.
    pub language: Option<crate::languages::Language>,
    /// An identifier for the kind of warning.
    pub message: WarningMessage,
    /// The character position in the source text where the warning starts.
    pub start: usize,
}

/// An element in a sequence that allows different kinds of elements.
#[derive(Debug)]
pub enum Flowing {
    /// Audio sample.
    Audio {
        /// The file name referred to.
        file_name: String,
        /// The label to display for the audio sample.
        label: Option<String>,
        /// The language of the audio.
        language: Option<String>,
    },
    /// Toggle bold text.
    Bold,
    /// Comment tag.
    Comment,
    /// Indication that something is of common gender.
    CommonGender,
    /// Indication that something is a comparative.
    Comparative,
    /// Placeholder for an audio sample that has not been filled in.
    EmptyAudio,
    /// Indication that something is of feminine gender.
    FeminineGender,
    /// Indication that something is a genitive.
    Genitive,
    /// Pronunciation written in IPA.
    Ipa {
        /// The pronunciation written in IPA.
        ipa: String,
    },
    /// Toggle italic text.
    Italic,
    /// Language as a noun.
    Language {
        /// The language referred to.
        language: String,
    },
    /// Language as an adjective.
    LanguageAdjective {
        /// The language referred to.
        language: String,
    },
    /// Link.
    Link {
        /// The target the link refers to.
        target: String,
        /// The text to display for the link.
        text: String,
    },
    /// Unordered list.
    List {
        /// The items of the list.
        items: Vec<Vec<Flowing>>,
    },
    /// Indication that something is of masculine gender.
    MasculineGender,
    /// Indication that something is of neuter gender.
    NeuterGender,
    /// Indication that something has no plural.
    NoPlural,
    /// Indication that something is a past participle.
    PastParticiple,
    /// Indication that something is a plural.
    Plural,
    /// Indication that something is a first plural form.
    Plural1,
    /// Indication that something is a second plural form.
    Plural2,
    /// Indication that something is a third plural form.
    Plural3,
    /// Indication that something is a fourth plural form.
    Plural4,
    /// Part of speech.
    Pos {
        /// The part of speech.
        pos: Pos,
    },
    /// Indication that something is a preterite.
    Preterite,
    /// Quality control marker.
    QualityControl,
    /// Indication of a reference whose content is not parsed.
    Reference,
    /// Rhyme.
    Rhyme {
        /// The rhyme.
        rhyme: String,
    },
    /// Indication that something is a superlative.
    Superlative,
    /// End of superscript.
    SuperscriptEnd,
    /// Start of superscript.
    SuperscriptStart,
    /// Link to a dictionary entry.
    Term {
        /// The language the link refers to.
        language: String,
        /// The term the link refers to.
        term: String,
        /// Transliteration of the term.
        transliteration: Option<String>,
    },
    /// Chunk of plain text.
    Text {
        /// The text to display.
        value: String,
    },
    /// Element that could not be recognized; holds the source text of the
    /// element.
    Unknown {
        /// The source text of the element.
        value: String,
    },
}

/// The mathematical value of a [`Flowing`] element: every piece of text is a
/// sequence of characters.
#[verifier::ext_equal]
pub enum FlowingV {
    /// Audio sample.
    Audio {
        /// The file name referred to.
        file_name: Seq<char>,
        /// The label to display.
        label: Option<Seq<char>>,
        /// The language of the audio.
        language: Option<Seq<char>>,
    },
    /// Toggle bold text.
    Bold,
    /// Comment tag.
    Comment,
    /// Common gender.
    CommonGender,
    /// Comparative.
    Comparative,
    /// Audio placeholder.
    EmptyAudio,
    /// Feminine gender.
    FeminineGender,
    /// Genitive.
    Genitive,
    /// IPA pronunciation.
    Ipa {
        /// The pronunciation.
        ipa: Seq<char>,
    },
    /// Toggle italic text.
    Italic,
    /// Language as a noun.
    Language {
        /// The language referred to.
        language: Seq<char>,
    },
    /// Language as an adjective.
    LanguageAdjective {
        /// The language referred to.
        language: Seq<char>,
    },
    /// Link.
    Link {
        /// The link target.
        target: Seq<char>,
        /// The link text.
        text: Seq<char>,
    },
    /// Unordered list.
    List {
        /// The items of the list.
        items: Seq<Seq<FlowingV>>,
    },
    /// Masculine gender.
    MasculineGender,
    /// Neuter gender.
    NeuterGender,
    /// No plural.
    NoPlural,
    /// Past participle.
    PastParticiple,
    /// Plural.
    Plural,
    /// First plural form.
    Plural1,
    /// Second plural form.
    Plural2,
    /// Third plural form.
    Plural3,
    /// Fourth plural form.
    Plural4,
    /// Part of speech.
    Pos {
        /// The part of speech.
        pos: Pos,
    },
    /// Preterite.
    Preterite,
    /// Quality control marker.
    QualityControl,
    /// Reference marker.
    Reference,
    /// Rhyme.
    Rhyme {
        /// The rhyme.
        rhyme: Seq<char>,
    },
    /// Superlative.
    Superlative,
    /// End of superscript.
    SuperscriptEnd,
    /// Start of superscript.
    SuperscriptStart,
    /// Link to a dictionary entry.
    Term {
        /// The language the link refers to.
        language: Seq<char>,
        /// The term the link refers to.
        term: Seq<char>,
        /// Transliteration of the term.
        transliteration: Option<Seq<char>>,
    },
    /// Plain text.
    Text {
        /// The text.
        value: Seq<char>,
    },
    /// Unrecognized element, holding its source text.
    Unknown {
        /// The source text of the element.
        value: Seq<char>,
    },
}

/// The view of an optional string.
pub open spec fn opt_str_view(o: Option<String>) -> Option<Seq<char>> {
    match o {
        Some(s) => Some(s@),
        None => None,
    }
}

/// The mathematical value of one element.
pub open spec fn flowing_view(f: Flowing) -> FlowingV
    decreases f,
{
    match f {
        Flowing::Audio { file_name, label, language } => FlowingV::Audio {
            file_name: file_name@,
            label: opt_str_view(label),
            language: opt_str_view(language),
        },
        Flowing::Bold => FlowingV::Bold,
        Flowing::Comment => FlowingV::Comment,
        Flowing::CommonGender => FlowingV::CommonGender,
        Flowing::Comparative => FlowingV::Comparative,
        Flowing::EmptyAudio => FlowingV::EmptyAudio,
        Flowing::FeminineGender => FlowingV::FeminineGender,
        Flowing::Genitive => FlowingV::Genitive,
        Flowing::Ipa { ipa } => FlowingV::Ipa { ipa: ipa@ },
        Flowing::Italic => FlowingV::Italic,
        Flowing::Language { language } => FlowingV::Language { language: language@ },
        Flowing::LanguageAdjective { language } => FlowingV::LanguageAdjective {
            language: language@,
        },
        Flowing::Link { target, text } => FlowingV::Link { target: target@, text: text@ },
        Flowing::List { items } => FlowingV::List { items: rows_view(items@) },
        Flowing::MasculineGender => FlowingV::MasculineGender,
        Flowing::NeuterGender => FlowingV::NeuterGender,
        Flowing::NoPlural => FlowingV::NoPlural,
        Flowing::PastParticiple => FlowingV::PastParticiple,
        Flowing::Plural => FlowingV::Plural,
        Flowing::Plural1 => FlowingV::Plural1,
        Flowing::Plural2 => FlowingV::Plural2,
        Flowing::Plural3 => FlowingV::Plural3,
        Flowing::Plural4 => FlowingV::Plural4,
        Flowing::Pos { pos } => FlowingV::Pos { pos },
        Flowing::Preterite => FlowingV::Preterite,
        Flowing::QualityControl => FlowingV::QualityControl,
        Flowing::Reference => FlowingV::Reference,
        Flowing::Rhyme { rhyme } => FlowingV::Rhyme { rhyme: rhyme@ },
        Flowing::Superlative => FlowingV::Superlative,
        Flowing::SuperscriptEnd => FlowingV::SuperscriptEnd,
        Flowing::SuperscriptStart => FlowingV::SuperscriptStart,
        Flowing::Term { language, term, transliteration } => FlowingV::Term {
            language: language@,
            term: term@,
            transliteration: opt_str_view(transliteration),
        },
        Flowing::Text { value } => FlowingV::Text { value: value@ },
        Flowing::Unknown { value } => FlowingV::Unknown { value: value@ },
    }
}

/// The mathematical value of a sequence of elements.
pub open spec fn row_view(row: Seq<Flowing>) -> Seq<FlowingV>
    decreases row,
{
    if row.len() == 0 {
        Seq::empty()
    } else {
        seq![flowing_view(row[0])] + row_view(row.subrange(1, row.len() as int))
    }
}

/// The mathematical value of a sequence of element sequences.
pub open spec fn rows_view(rows: Seq<Vec<Flowing>>) -> Seq<Seq<FlowingV>>
    decreases rows,
{
    if rows.len() == 0 {
        Seq::empty()
    } else {
        seq![row_view(rows[0]@)] + rows_view(rows.subrange(1, rows.len() as int))
    }
}

impl View for Flowing {
    type V = FlowingV;

    open spec fn view(&self) -> FlowingV {
        flowing_view(*self)
    }
}

/// `row_view` distributes over concatenation.
pub proof fn lemma_row_view_concat(a: Seq<Flowing>, b: Seq<Flowing>)
    ensures
        row_view(a + b) == row_view(a) + row_view(b),
    decreases a,
{
    if a.len() == 0 {
        assert(a + b =~= b);
        assert(row_view(a) + row_view(b) =~= row_view(b));
    } else {
        assert((a + b).subrange(1, (a + b).len() as int) =~= a.subrange(1, a.len() as int) + b);
        lemma_row_view_concat(a.subrange(1, a.len() as int), b);
        assert(row_view(a + b) =~= row_view(a) + row_view(b));
    }
}

/// `row_view` maps `push` to `push`.
pub proof fn lemma_row_view_push(a: Seq<Flowing>, f: Flowing)
    ensures
        row_view(a.push(f)) == row_view(a).push(flowing_view(f)),
{
    assert(a.push(f) =~= a + seq![f]);
    lemma_row_view_concat(a, seq![f]);
    assert(seq![f].subrange(1, 1) =~= Seq::<Flowing>::empty());
    assert(row_view(seq![f].subrange(1, 1)) =~= Seq::<FlowingV>::empty());
    assert(row_view(seq![f]) =~= seq![flowing_view(f)]);
    assert(row_view(a).push(flowing_view(f)) =~= row_view(a) + seq![flowing_view(f)]);
}

/// The length of a viewed row equals the length of the row.
pub proof fn lemma_row_view_len(a: Seq<Flowing>)
    ensures
        row_view(a).len() == a.len(),
        forall|i: int| 0 <= i < a.len() ==> row_view(a)[i] == flowing_view(#[trigger] a[i]),
    decreases a,
{
    if a.len() > 0 {
        let rest = a.subrange(1, a.len() as int);
        lemma_row_view_len(rest);
        assert forall|i: int| 0 <= i < a.len() implies row_view(a)[i] == flowing_view(
            #[trigger] a[i],
        ) by {
            if i > 0 {
                assert(rest[i - 1] == a[i]);
                assert(row_view(a)[i] == row_view(rest)[i - 1]);
            }
        }
    }
}

/// `rows_view` distributes over concatenation.
pub proof fn lemma_rows_view_concat(a: Seq<Vec<Flowing>>, b: Seq<Vec<Flowing>>)
    ensures
        rows_view(a + b) == rows_view(a) + rows_view(b),
    decreases a,
{
    if a.len() == 0 {
        assert(a + b =~= b);
        assert(rows_view(a) + rows_view(b) =~= rows_view(b));
    } else {
        assert((a + b).subrange(1, (a + b).len() as int) =~= a.subrange(1, a.len() as int) + b);
        lemma_rows_view_concat(a.subrange(1, a.len() as int), b);
        assert(rows_view(a + b) =~= rows_view(a) + rows_view(b));
    }
}

/// `rows_view` maps `push` to `push`.
pub proof fn lemma_rows_view_push(a: Seq<Vec<Flowing>>, r: Vec<Flowing>)
    ensures
        rows_view(a.push(r)) == rows_view(a).push(row_view(r@)),
{
    assert(a.push(r) =~= a + seq![r]);
    lemma_rows_view_concat(a, seq![r]);
    assert(seq![r].subrange(1, 1) =~= Seq::<Vec<Flowing>>::empty());
    assert(rows_view(seq![r].subrange(1, 1)) =~= Seq::<Seq<FlowingV>>::empty());
    assert(rows_view(seq![r]) =~= seq![row_view(r@)]);
    assert(rows_view(a).push(row_view(r@)) =~= rows_view(a) + seq![row_view(r@)]);
}

/// The length of a viewed row sequence equals its length.
pub proof fn lemma_rows_view_len(a: Seq<Vec<Flowing>>)
    ensures
        rows_view(a).len() == a.len(),
        forall|i: int| 0 <= i < a.len() ==> rows_view(a)[i] == row_view(#[trigger] a[i]@),
    decreases a,
{
    if a.len() > 0 {
        let rest = a.subrange(1, a.len() as int);
        lemma_rows_view_len(rest);
        assert forall|i: int| 0 <= i < a.len() implies rows_view(a)[i] == row_view(
            #[trigger] a[i]@,
        ) by {
            if i > 0 {
                assert(rest[i - 1] == a[i]);
                assert(rows_view(a)[i] == rows_view(rest)[i - 1]);
            }
        }
    }
}

/// Usage example.
#[derive(Debug)]
pub struct Example {
    /// The example in the language of the entry.
    pub example: Vec<Flowing>,
    /// The German translation of the example.
    pub translation: Vec<Flowing>,
}

/// The mathematical value of an [`Example`].
#[verifier::ext_equal]
pub struct ExampleV {
    /// The example in the language of the entry.
    pub example: Seq<FlowingV>,
    /// The German translation of the example.
    pub translation: Seq<FlowingV>,
}

impl View for Example {
    type V = ExampleV;

    open spec fn view(&self) -> ExampleV {
        ExampleV { example: row_view(self.example@), translation: row_view(self.translation@) }
    }
}

/// The mathematical value of a sequence of examples.
pub open spec fn examples_view(s: Seq<Example>) -> Seq<ExampleV>
    decreases s,
{
    if s.len() == 0 {
        Seq::empty()
    } else {
        seq![s[0]@] + examples_view(s.subrange(1, s.len() as int))
    }
}

/// `examples_view` maps `push` to `push`.
pub proof fn lemma_examples_view_push(a: Seq<Example>, e: Example)
    ensures
        examples_view(a.push(e)) == examples_view(a).push(e@),
    decreases a,
{
    if a.len() == 0 {
        assert(a.push(e) =~= seq![e]);
        assert(seq![e].subrange(1, 1) =~= Seq::<Example>::empty());
        assert(examples_view(seq![e].subrange(1, 1)) =~= Seq::<ExampleV>::empty());
        assert(examples_view(seq![e]) =~= seq![e@]);
        assert(examples_view(a).push(e@) =~= seq![e@]);
    } else {
        let rest = a.subrange(1, a.len() as int);
        assert(a.push(e).subrange(1, a.push(e).len() as int) =~= rest.push(e));
        lemma_examples_view_push(rest, e);
        assert(examples_view(a.push(e)) =~= examples_view(a).push(e@));
    }
}

/// The length and elements of a viewed example sequence.
pub proof fn lemma_examples_view_len(a: Seq<Example>)
    ensures
        examples_view(a).len() == a.len(),
        forall|i: int| 0 <= i < a.len() ==> examples_view(a)[i] == #[trigger] a[i]@,
    decreases a,
{
    if a.len() > 0 {
        let rest = a.subrange(1, a.len() as int);
        lemma_examples_view_len(rest);
        assert forall|i: int| 0 <= i < a.len() implies examples_view(a)[i] == #[trigger] a[i]@ by {
            if i > 0 {
                assert(rest[i - 1] == a[i]);
                assert(examples_view(a)[i] == examples_view(rest)[i - 1]);
            }
        }
    }
}

/// Information from the overview template in a part-of-speech entry.  The
/// parameters are accepted with minimal validation and carried through.
#[derive(Debug)]
pub struct Overview {
    /// The name of the overview template.
    pub name: String,
    /// The named parameters, in insertion order, each name held once.
    pub named_parameters: Vec<(String, String)>,
    /// The unnamed parameters in order.
    pub unnamed_parameters: Vec<Vec<Flowing>>,
}

/// The mathematical value of an [`Overview`].
#[verifier::ext_equal]
pub struct OverviewV {
    /// The name of the overview template.
    pub name: Seq<char>,
    /// The named parameters, in insertion order.
    pub named_parameters: Seq<(Seq<char>, Seq<char>)>,
    /// The unnamed parameters in order.
    pub unnamed_parameters: Seq<Seq<FlowingV>>,
}

/// The mathematical value of a sequence of name-value pairs.
pub open spec fn pairs_view(s: Seq<(String, String)>) -> Seq<(Seq<char>, Seq<char>)>
    decreases s,
{
    if s.len() == 0 {
        Seq::empty()
    } else {
        seq![(s[0].0@, s[0].1@)] + pairs_view(s.subrange(1, s.len() as int))
    }
}

/// The length and elements of a viewed pair sequence.
pub proof fn lemma_pairs_view_len(a: Seq<(String, String)>)
    ensures
        pairs_view(a).len() == a.len(),
        forall|i: int|
            0 <= i < a.len() ==> pairs_view(a)[i] == (#[trigger] a[i].0@, a[i].1@),
    decreases a,
{
    if a.len() > 0 {
        let rest = a.subrange(1, a.len() as int);
        lemma_pairs_view_len(rest);
        assert forall|i: int|
            0 <= i < a.len() implies pairs_view(a)[i] == (#[trigger] a[i].0@, a[i].1@) by {
            if i > 0 {
                assert(rest[i - 1] == a[i]);
                assert(pairs_view(a)[i] == pairs_view(rest)[i - 1]);
            }
        }
    }
}

/// `pairs_view` maps `push` to `push`.
pub proof fn lemma_pairs_view_push(a: Seq<(String, String)>, p: (String, String))
    ensures
        pairs_view(a.push(p)) == pairs_view(a).push((p.0@, p.1@)),
    decreases a,
{
    if a.len() == 0 {
        assert(a.push(p) =~= seq![p]);
        assert(seq![p].subrange(1, 1) =~= Seq::<(String, String)>::empty());
        assert(pairs_view(seq![p].subrange(1, 1)) =~= Seq::<(Seq<char>, Seq<char>)>::empty());
        assert(pairs_view(seq![p]) =~= seq![(p.0@, p.1@)]);
        assert(pairs_view(a).push((p.0@, p.1@)) =~= seq![(p.0@, p.1@)]);
    } else {
        let rest = a.subrange(1, a.len() as int);
        assert(a.push(p).subrange(1, a.push(p).len() as int) =~= rest.push(p));
        lemma_pairs_view_push(rest, p);
        assert(pairs_view(a.push(p)) =~= pairs_view(a).push((p.0@, p.1@)));
    }
}

/// `pairs_view` maps in-place update to in-place update.
pub proof fn lemma_pairs_view_update(a: Seq<(String, String)>, i: int, p: (String, String))
    requires
        0 <= i < a.len(),
    ensures
        pairs_view(a.update(i, p)) == pairs_view(a).update(i, (p.0@, p.1@)),
    decreases a,
{
    let b = a.update(i, p);
    lemma_pairs_view_len(a);
    lemma_pairs_view_len(b);
    assert forall|j: int| 0 <= j < a.len() implies pairs_view(b)[j] == pairs_view(a).update(
        i,
        (p.0@, p.1@),
    )[j] by {
        assert(pairs_view(b)[j] == (b[j].0@, b[j].1@));
        if j == i {
            assert(b[j] == p);
        } else {
            assert(b[j] == a[j]);
            assert(pairs_view(a)[j] == (a[j].0@, a[j].1@));
        }
    }
    assert(pairs_view(b) =~= pairs_view(a).update(i, (p.0@, p.1@)));
}

impl View for Overview {
    type V = OverviewV;

    open spec fn view(&self) -> OverviewV {
        OverviewV {
            name: self.name@,
            named_parameters: pairs_view(self.named_parameters@),
            unnamed_parameters: rows_view(self.unnamed_parameters@),
        }
    }
}

/// The entry for a part of speech within the entry for a language.
#[derive(Debug)]
pub struct PosEntry {
    /// Abbreviations.
    pub abbreviations: Vec<Vec<Flowing>>,
    /// Affectionate forms.
    pub affectionate_forms: Vec<Vec<Flowing>>,
    /// Antonyms.
    pub antonyms: Vec<Vec<Flowing>>,
    /// Audio samples, from the pronunciation section.
    pub audio: Vec<Flowing>,
    /// Compound words.
    pub compound_words: Vec<Vec<Flowing>>,
    /// Definitions.
    pub definitions: Vec<Vec<Flowing>>,
    /// Details from the part-of-speech heading.
    pub details: Vec<Flowing>,
    /// Diminutives.
    pub diminutives: Vec<Vec<Flowing>>,
    /// Etymology.
    pub etymology: Vec<Vec<Flowing>>,
    /// Usage examples.
    pub examples: Vec<Example>,
    /// Feminine forms.
    pub feminine_forms: Vec<Vec<Flowing>>,
    /// Hypernyms.
    pub hypernyms: Vec<Vec<Flowing>>,
    /// Hyphenation.
    pub hyphenation: Vec<Vec<Flowing>>,
    /// Hyponyms.
    pub hyponyms: Vec<Vec<Flowing>>,
    /// Idioms.
    pub idioms: Vec<Vec<Flowing>>,
    /// IPA pronunciation, from the pronunciation section.
    pub ipa: Vec<Flowing>,
    /// Masculine forms.
    pub masculine_forms: Vec<Vec<Flowing>>,
    /// Spellings that are no longer valid.
    pub no_longer_valid_spellings: Vec<Vec<Flowing>>,
    /// The overview template of the entry, if one was recognized.
    pub overview: Option<Overview>,
    /// The part of speech of the entry, from the heading.
    pub pos: Pos,
    /// Proverbs.
    pub proverbs: Vec<Vec<Flowing>>,
    /// Related words.
    pub related_words: Vec<Vec<Flowing>>,
    /// Rhymes, from the pronunciation section.
    pub rhymes: Vec<Flowing>,
    /// Short forms.
    pub short_forms: Vec<Vec<Flowing>>,
    /// Similar words.
    pub similar_words: Vec<Vec<Flowing>>,
    /// Symbols.
    pub symbols: Vec<Vec<Flowing>>,
    /// Synonyms.
    pub synonyms: Vec<Vec<Flowing>>,
    /// Typical word combinations.
    pub typical_word_combinations: Vec<Vec<Flowing>>,
    /// Variant forms.
    pub variants: Vec<Vec<Flowing>>,
}

/// The mathematical value of a [`PosEntry`].
#[verifier::ext_equal]
pub struct PosEntryV {
    /// Abbreviations.
    pub abbreviations: Seq<Seq<FlowingV>>,
    /// Affectionate forms.
    pub affectionate_forms: Seq<Seq<FlowingV>>,
    /// Antonyms.
    pub antonyms: Seq<Seq<FlowingV>>,
    /// Audio samples.
    pub audio: Seq<FlowingV>,
    /// Compound words.
    pub compound_words: Seq<Seq<FlowingV>>,
    /// Definitions.
    pub definitions: Seq<Seq<FlowingV>>,
    /// Details from the part-of-speech heading.
    pub details: Seq<FlowingV>,
    /// Diminutives.
    pub diminutives: Seq<Seq<FlowingV>>,
    /// Etymology.
    pub etymology: Seq<Seq<FlowingV>>,
    /// Usage examples.
    pub examples: Seq<ExampleV>,
    /// Feminine forms.
    pub feminine_forms: Seq<Seq<FlowingV>>,
    /// Hypernyms.
    pub hypernyms: Seq<Seq<FlowingV>>,
    /// Hyphenation.
    pub hyphenation: Seq<Seq<FlowingV>>,
    /// Hyponyms.
    pub hyponyms: Seq<Seq<FlowingV>>,
    /// Idioms.
    pub idioms: Seq<Seq<FlowingV>>,
    /// IPA pronunciation.
    pub ipa: Seq<FlowingV>,
    /// Masculine forms.
    pub masculine_forms: Seq<Seq<FlowingV>>,
    /// Spellings that are no longer valid.
    pub no_longer_valid_spellings: Seq<Seq<FlowingV>>,
    /// The overview template of the entry, if any.
    pub overview: Option<OverviewV>,
    /// The part of speech of the entry.
    pub pos: Pos,
    /// Proverbs.
    pub proverbs: Seq<Seq<FlowingV>>,
    /// Related words.
    pub related_words: Seq<Seq<FlowingV>>,
    /// Rhymes.
    pub rhymes: Seq<FlowingV>,
    /// Short forms.
    pub short_forms: Seq<Seq<FlowingV>>,
    /// Similar words.
    pub similar_words: Seq<Seq<FlowingV>>,
    /// Symbols.
    pub symbols: Seq<Seq<FlowingV>>,
    /// Synonyms.
    pub synonyms: Seq<Seq<FlowingV>>,
    /// Typical word combinations.
    pub typical_word_combinations: Seq<Seq<FlowingV>>,
    /// Variant forms.
    pub variants: Seq<Seq<FlowingV>>,
}

impl View for PosEntry {
    type V = PosEntryV;

    open spec fn view(&self) -> PosEntryV {
        PosEntryV {
            abbreviations: rows_view(self.abbreviations@),
            affectionate_forms: rows_view(self.affectionate_forms@),
            antonyms: rows_view(self.antonyms@),
            audio: row_view(self.audio@),
            compound_words: rows_view(self.compound_words@),
            definitions: rows_view(self.definitions@),
            details: row_view(self.details@),
            diminutives: rows_view(self.diminutives@),
            etymology: rows_view(self.etymology@),
            examples: examples_view(self.examples@),
            feminine_forms: rows_view(self.feminine_forms@),
            hypernyms: rows_view(self.hypernyms@),
            hyphenation: rows_view(self.hyphenation@),
            hyponyms: rows_view(self.hyponyms@),
            idioms: rows_view(self.idioms@),
            ipa: row_view(self.ipa@),
            masculine_forms: rows_view(self.masculine_forms@),
            no_longer_valid_spellings: rows_view(self.no_longer_valid_spellings@),
            overview: match self.overview {
                Some(o) => Some(o@),
                None => None,
            },
            pos: self.pos,
            proverbs: rows_view(self.proverbs@),
            related_words: rows_view(self.related_words@),
            rhymes: row_view(self.rhymes@),
            short_forms: rows_view(self.short_forms@),
            similar_words: rows_view(self.similar_words@),
            symbols: rows_view(self.symbols@),
            synonyms: rows_view(self.synonyms@),
            typical_word_combinations: rows_view(self.typical_word_combinations@),
            variants: rows_view(self.variants@),
        }
    }
}

/// The mathematical value of a sequence of part-of-speech entries.
pub open spec fn pos_entries_view(s: Seq<PosEntry>) -> Seq<PosEntryV>
    decreases s,
{
    if s.len() == 0 {
        Seq::empty()
    } else {
        seq![s[0]@] + pos_entries_view(s.subrange(1, s.len() as int))
    }
}

/// `pos_entries_view` maps `push` to `push`.
pub proof fn lemma_pos_entries_view_push(a: Seq<PosEntry>, e: PosEntry)
    ensures
        pos_entries_view(a.push(e)) == pos_entries_view(a).push(e@),
    decreases a,
{
    if a.len() == 0 {
        assert(a.push(e) =~= seq![e]);
        assert(seq![e].subrange(1, 1) =~= Seq::<PosEntry>::empty());
        assert(pos_entries_view(seq![e].subrange(1, 1)) =~= Seq::<PosEntryV>::empty());
        assert(pos_entries_view(seq![e]) =~= seq![e@]);
        assert(pos_entries_view(a).push(e@) =~= seq![e@]);
    } else {
        let rest = a.subrange(1, a.len() as int);
        assert(a.push(e).subrange(1, a.push(e).len() as int) =~= rest.push(e));
        lemma_pos_entries_view_push(rest, e);
        assert(pos_entries_view(a.push(e)) =~= pos_entries_view(a).push(e@));
    }
}

/// The length and elements of a viewed entry sequence.
pub proof fn lemma_pos_entries_view_len(a: Seq<PosEntry>)
    ensures
        pos_entries_view(a).len() == a.len(),
        forall|i: int| 0 <= i < a.len() ==> pos_entries_view(a)[i] == #[trigger] a[i]@,
    decreases a,
{
    if a.len() > 0 {
        let rest = a.subrange(1, a.len() as int);
        lemma_pos_entries_view_len(rest);
        assert forall|i: int|
            0 <= i < a.len() implies pos_entries_view(a)[i] == #[trigger] a[i]@ by {
            if i > 0 {
                assert(rest[i - 1] == a[i]);
                assert(pos_entries_view(a)[i] == pos_entries_view(rest)[i - 1]);
            }
        }
    }
}

/// Dictionary entry for a single language.
#[derive(Debug)]
pub struct LanguageEntry {
    /// The language of the entry.
    pub language: Language,
    /// Entries for parts of speech for this language.
    pub pos_entries: Vec<PosEntry>,
}

/// The mathematical value of a [`LanguageEntry`].
#[verifier::ext_equal]
pub struct LanguageEntryV {
    /// The language of the entry.
    pub language: Language,
    /// Entries for parts of speech for this language.
    pub pos_entries: Seq<PosEntryV>,
}

impl View for LanguageEntry {
    type V = LanguageEntryV;

    open spec fn view(&self) -> LanguageEntryV {
        LanguageEntryV { language: self.language, pos_entries: pos_entries_view(self.pos_entries@) }
    }
}

/// The mathematical value of a sequence of language entries.
pub open spec fn language_entries_view(s: Seq<LanguageEntry>) -> Seq<LanguageEntryV>
    decreases s,
{
    if s.len() == 0 {
        Seq::empty()
    } else {
        seq![s[0]@] + language_entries_view(s.subrange(1, s.len() as int))
    }
}

/// `language_entries_view` maps `push` to `push`.
pub proof fn lemma_language_entries_view_push(a: Seq<LanguageEntry>, e: LanguageEntry)
    ensures
        language_entries_view(a.push(e)) == language_entries_view(a).push(e@),
    decreases a,
{
    if a.len() == 0 {
        assert(a.push(e) =~= seq![e]);
        assert(seq![e].subrange(1, 1) =~= Seq::<LanguageEntry>::empty());
        assert(language_entries_view(seq![e].subrange(1, 1)) =~= Seq::<LanguageEntryV>::empty());
        assert(language_entries_view(seq![e]) =~= seq![e@]);
        assert(language_entries_view(a).push(e@) =~= seq![e@]);
    } else {
        let rest = a.subrange(1, a.len() as int);
        assert(a.push(e).subrange(1, a.push(e).len() as int) =~= rest.push(e));
        lemma_language_entries_view_push(rest, e);
        assert(language_entries_view(a.push(e)) =~= language_entries_view(a).push(e@));
    }
}

/// The length and elements of a viewed language entry sequence.
pub proof fn lemma_language_entries_view_len(a: Seq<LanguageEntry>)
    ensures
        language_entries_view(a).len() == a.len(),
        forall|i: int| 0 <= i < a.len() ==> language_entries_view(a)[i] == #[trigger] a[i]@,
    decreases a,
{
    if a.len() > 0 {
        let rest = a.subrange(1, a.len() as int);
        lemma_language_entries_view_len(rest);
        assert forall|i: int|
            0 <= i < a.len() implies language_entries_view(a)[i] == #[trigger] a[i]@ by {
            if i > 0 {
                assert(rest[i - 1] == a[i]);
                assert(language_entries_view(a)[i] == language_entries_view(rest)[i - 1]);
            }
        }
    }
}

/// Output of parsing a page.
#[derive(Debug)]
pub struct Output {
    /// The dictionary entries by language.
    pub language_entries: Vec<LanguageEntry>,
    /// Warnings from the parser telling that something is not well-formed.
    pub warnings: Vec<Warning>,
}

/// The mathematical value of an [`Output`].
#[verifier::ext_equal]
pub struct OutputV {
    /// The dictionary entries by language.
    pub language_entries: Seq<LanguageEntryV>,
    /// Warnings from the parser.
    pub warnings: Seq<Warning>,
}

impl View for Output {
    type V = OutputV;

    open spec fn view(&self) -> OutputV {
        OutputV {
            language_entries: language_entries_view(self.language_entries@),
            warnings: self.warnings@,
        }
    }
}

/// One step of the top-level scan at node `i`: the language entries
/// appended, the next index, the warnings, and whether the scan stops.
pub open spec fn spec_parse_step(
    title: Seq<char>,
    src: Seq<char>,
    nodes: Seq<Node>,
    i: int,
) -> (Seq<LanguageEntryV>, int, Seq<Warning>, bool) {
    if i < 0 || i >= nodes.len() {
        (Seq::empty(), i, Seq::empty(), true)
    } else {
        let node = nodes[i];
        match node {
            Node::Heading { level, nodes: children, .. } => {
                if level < 2 {
                    (
                        Seq::empty(),
                        i,
                        seq![
                            util::warn(
                                None,
                                node.spec_start(),
                                node.spec_end(),
                                WarningMessage::Unrecognized,
                            ),
                        ],
                        true,
                    )
                } else if level == 2 {
                    if children@.len() == 3 && children@[0] is Text && children@[1] is Template
                        && children@[2] is Text && children@[2]->Text_value@ == ")"@
                        && children@[0]->Text_value@ == title + " ("@ && util::spec_text_equals(
                        children@[1]->Template_name@,
                        "Sprache"@,
                    ) && children@[1]->Template_parameters@.len() == 1
                        && children@[1]->Template_parameters@[0].name is None
                        && util::spec_parse_text(
                        children@[1]->Template_parameters@[0].value@,
                    ) is Some {
                        let p = children@[1]->Template_parameters@[0];
                        let lname = util::spec_parse_text(p.value@)->Some_0;
                        match languages::spec_language_of(lname) {
                            None => (
                                Seq::empty(),
                                i + 1,
                                seq![
                                    util::warn(
                                        None,
                                        p.start,
                                        p.end,
                                        WarningMessage::ValueUnrecognized,
                                    ),
                                ],
                                false,
                            ),
                            Some(l) => {
                                let (consumed, w, entry) = language::spec_parse_language(
                                    src,
                                    Some(l),
                                    node,
                                    nodes,
                                    i + 1,
                                );
                                match entry {
                                    Some(ev) => (seq![ev], i + 1 + consumed, w, false),
                                    None => (Seq::empty(), i + 1 + consumed, w, false),
                                }
                            },
                        }
                    } else {
                        (
                            Seq::empty(),
                            i + 1,
                            seq![
                                util::warn(
                                    None,
                                    node.spec_start(),
                                    node.spec_end(),
                                    WarningMessage::ValueUnrecognized,
                                ),
                            ],
                            false,
                        )
                    }
                } else {
                    (
                        Seq::empty(),
                        i + 1,
                        seq![
                            util::warn(
                                None,
                                node.spec_start(),
                                node.spec_end(),
                                WarningMessage::Unrecognized,
                            ),
                        ],
                        false,
                    )
                }
            },
            _ => (
                Seq::empty(),
                i + 1,
                seq![
                    util::warn(
                        None,
                        node.spec_start(),
                        node.spec_end(),
                        WarningMessage::Unrecognized,
                    ),
                ],
                false,
            ),
        }
    }
}

/// The top-level scan from node `i` on: the language entries and warnings.
pub open spec fn spec_parse_scan(
    title: Seq<char>,
    src: Seq<char>,
    nodes: Seq<Node>,
    i: int,
) -> (Seq<LanguageEntryV>, Seq<Warning>)
    decreases nodes.len() - i,
{
    if i < 0 || i >= nodes.len() {
        (Seq::empty(), Seq::empty())
    } else {
        let (es, i1, w1, stop) = spec_parse_step(title, src, nodes, i);
        if stop {
            (es, w1)
        } else if i1 <= i || i1 > nodes.len() {
            (es, w1)
        } else {
            let (es2, w2) = spec_parse_scan(title, src, nodes, i1);
            (es + es2, w1 + w2)
        }
    }
}

/// The full outcome of parsing a page: its language entries and warnings.
pub open spec fn spec_parse(title: Seq<char>, src: Seq<char>, nodes: Seq<Node>) -> OutputV {
    let (entries, warnings) = spec_parse_scan(title, src, nodes, 0);
    OutputV { language_entries: entries, warnings }
}

/// Every language entry of the output owns at least one part-of-speech
/// entry: a language section yielding none contributes nothing.
pub proof fn lemma_output_entries_nonempty(
    title: Seq<char>,
    src: Seq<char>,
    nodes: Seq<Node>,
    i: int,
)
    ensures
        forall|k: int|
            0 <= k < spec_parse_scan(title, src, nodes, i).0.len() ==> (
            #[trigger] spec_parse_scan(title, src, nodes, i).0[k]).pos_entries.len() > 0,
    decreases nodes.len() - i,
{
    if 0 <= i < nodes.len() {
        let (es, i1, w1, stop) = spec_parse_step(title, src, nodes, i);
        assert(forall|k: int| 0 <= k < es.len() ==> (#[trigger] es[k]).pos_entries.len() > 0);
        if !stop && i < i1 <= nodes.len() {
            lemma_output_entries_nonempty(title, src, nodes, i1);
            let rest = spec_parse_scan(title, src, nodes, i1);
            assert(forall|k: int|
                0 <= k < (es + rest.0).len() ==> ((#[trigger] (es + rest.0)[k])
                    ).pos_entries.len() > 0) by {
                assert(forall|k: int|
                    0 <= k < (es + rest.0).len() ==> (es + rest.0)[k] == (if k < es.len() {
                        es[k]
                    } else {
                        rest.0[k - es.len()]
                    }));
            }
        }
    }
}

/// One step of the top-level dispatcher.
#[verifier::rlimit(100)]
fn parse_step(
    context: &mut util::Context,
    title: &str,
    nodes: &[Node],
    i: usize,
    language_entries: &mut Vec<LanguageEntry>,
) -> (r: (usize, bool))
    requires
        old(context).language is None,
        node::nodes_wf(nodes@, old(context).wiki_text@.len()),
        i < nodes@.len(),
        nodes@.len() < usize::MAX,
    ensures
        final(context).language is None,
        final(context).wiki_text@ == old(context).wiki_text@,
        ({
            let (es, i1, w1, stop) = spec_parse_step(
                title@,
                old(context).wiki_text@,
                nodes@,
                i as int,
            );
            &&& language_entries_view(final(language_entries)@) == language_entries_view(
                old(language_entries)@,
            ) + es
            &&& final(context).warnings@ == old(context).warnings@ + w1
            &&& r.1 == stop
            &&& (!stop ==> r.0 as int == i1 && i < i1 <= nodes@.len() + 1)
            &&& (stop ==> r.0 == i)
        }),
{
    proof {
        crate::list::lemma_push_concat_warning();
        assert(node::node_wf(nodes@[i as int], old(context).wiki_text@.len()));
        assert(language_entries_view(old(language_entries)@) + Seq::<LanguageEntryV>::empty()
            =~= language_entries_view(old(language_entries)@));
    }
    match &nodes[i] {
        Node::Heading { level, nodes: children, .. } => {
            if *level < 2 {
                let start = nodes[i].start();
                let end = nodes[i].end();
                util::add_warning(context, start, end, WarningMessage::Unrecognized);
                (i, true)
            } else if *level == 2 {
                let mut matched = false;
                let mut result_i = i + 1;
                if children.len() == 3 {
                    if let Node::Text { value: v0, .. } = &children[0] {
                        if let Node::Template { name: tn, parameters: tp, .. } = &children[1] {
                            if let Node::Text { value: v2, .. } = &children[2] {
                                let expected = title.to_owned().concat(" (");
                                if util::str_eq(v2.as_str(), ")") && util::str_eq(
                                    v0.as_str(),
                                    expected.as_str(),
                                ) && util::text_equals(tn.as_slice(), "Sprache") && tp.len()
                                    == 1 {
                                    let p = &tp[0];
                                    if p.name.is_none() {
                                        if let Some(lname) = util::parse_text(
                                            p.value.as_slice(),
                                        ) {
                                            matched = true;
                                            match Language::from_name(lname.as_str()) {
                                                None => {
                                                    util::add_warning(
                                                        context,
                                                        p.start,
                                                        p.end,
                                                        WarningMessage::ValueUnrecognized,
                                                    );
                                                },
                                                Some(l) => {
                                                    context.language = Some(l);
                                                    let consumed = language::parse_language(
                                                        context,
                                                        &nodes[i],
                                                        nodes,
                                                        i + 1,
                                                        language_entries,
                                                    );
                                                    context.language = None;
                                                    result_i = i + 1 + consumed;
                                                    proof {
                                                        let (es, i1, w1, stop) = spec_parse_step(
                                                            title@,
                                                            old(context).wiki_text@,
                                                            nodes@,
                                                            i as int,
                                                        );
                                                        if es.len() > 0 {
                                                            assert(language_entries_view(
                                                                old(language_entries)@,
                                                            ).push(es[0])
                                                                =~= language_entries_view(
                                                                old(language_entries)@,
                                                            ) + es);
                                                        }
                                                    }
                                                },
                                            }
                                        }
                                    }
                                }
                            }
                        }
                    }
                }
                if !matched {
                    let start = nodes[i].start();
                    let end = nodes[i].end();
                    util::add_warning(context, start, end, WarningMessage::ValueUnrecognized);
                }
                (result_i, false)
            } else {
                let start = nodes[i].start();
                let end = nodes[i].end();
                util::add_warning(context, start, end, WarningMessage::Unrecognized);
                (i + 1, false)
            }
        },
        _ => {
            let start = nodes[i].start();
            let end = nodes[i].end();
            util::add_warning(context, start, end, WarningMessage::Unrecognized);
            (i + 1, false)
        },
    }
}

/// Parses a dictionary page into structured data.
///
/// `title` is the title of the page, `wiki_text` its source text, and
/// `nodes` the sequence of nodes obtained by tokenizing the source text,
/// with positions counting characters of `wiki_text`.  The parse always
/// returns a complete [`Output`]; malformed input degrades to warnings and
/// fallback elements, never to a failure.
pub fn parse(title: &str, wiki_text: &str, nodes: &[Node]) -> (r: Output)
    requires
        node::nodes_wf(nodes@, wiki_text@.len()),
        nodes@.len() < usize::MAX,
    ensures
        r@ == spec_parse(title@, wiki_text@, nodes@),
{
    let mut context = util::Context { language: None, warnings: Vec::new(), wiki_text };
    let mut language_entries: Vec<LanguageEntry> = Vec::new();
    let mut done = false;
    let mut i: usize = 0;
    proof {
        assert(language_entries_view(language_entries@) =~= Seq::<LanguageEntryV>::empty());
        assert(Seq::<LanguageEntryV>::empty() + spec_parse_scan(title@, wiki_text@, nodes@, 0).0
            =~= spec_parse_scan(title@, wiki_text@, nodes@, 0).0);
        assert(Seq::<Warning>::empty() + spec_parse_scan(title@, wiki_text@, nodes@, 0).1
            =~= spec_parse_scan(title@, wiki_text@, nodes@, 0).1);
    }
    while i < nodes.len() && !done
        invariant
            0 <= i <= nodes@.len() + 1,
            nodes@.len() < usize::MAX,
            node::nodes_wf(nodes@, wiki_text@.len()),
            context.language is None,
            context.wiki_text@ == wiki_text@,
            !done ==> ({
                let full = spec_parse_scan(title@, wiki_text@, nodes@, 0);
                let rest = spec_parse_scan(title@, wiki_text@, nodes@, i as int);
                &&& full.0 == language_entries_view(language_entries@) + rest.0
                &&& full.1 == context.warnings@ + rest.1
            }),
            done ==> ({
                let full = spec_parse_scan(title@, wiki_text@, nodes@, 0);
                &&& full.0 == language_entries_view(language_entries@)
                &&& full.1 == context.warnings@
            }),
        decreases nodes@.len() + 1 - i, (if done { 0int } else { 1int }),
    {
        let ghost g_i = i;
        let ghost w_pre = context.warnings@;
        let ghost le_pre = language_entries_view(language_entries@);
        let (ni, stop) = parse_step(&mut context, title, nodes, i, &mut language_entries);
        let ghost stp = spec_parse_step(title@, wiki_text@, nodes@, g_i as int);
        if stop {
            proof {
                let rest_pre = spec_parse_scan(title@, wiki_text@, nodes@, g_i as int);
                assert(rest_pre.0 == stp.0 && rest_pre.1 == stp.2);
                assert(stp.0 =~= Seq::<LanguageEntryV>::empty());
                assert(le_pre + Seq::<LanguageEntryV>::empty() =~= le_pre);
            }
            done = true;
        } else {
            proof {
                let rest_pre = spec_parse_scan(title@, wiki_text@, nodes@, g_i as int);
                if stp.1 > nodes@.len() {
                    assert(rest_pre.0 == stp.0 && rest_pre.1 == stp.2);
                    let rest_new = spec_parse_scan(title@, wiki_text@, nodes@, stp.1);
                    assert(rest_new.0 =~= Seq::<LanguageEntryV>::empty());
                    assert(rest_new.1 =~= Seq::<Warning>::empty());
                    assert(language_entries_view(language_entries@)
                        + Seq::<LanguageEntryV>::empty() =~= language_entries_view(
                        language_entries@,
                    ));
                    assert(context.warnings@ + Seq::<Warning>::empty() =~= context.warnings@);
                    assert((le_pre + stp.0) + rest_new.0 =~= le_pre + rest_pre.0);
                    assert((w_pre + stp.2) + rest_new.1 =~= w_pre + rest_pre.1);
                } else {
                    let rest_new = spec_parse_scan(title@, wiki_text@, nodes@, stp.1);
                    assert(rest_pre.0 == stp.0 + rest_new.0);
                    assert(rest_pre.1 == stp.2 + rest_new.1);
                    assert((le_pre + stp.0) + rest_new.0 =~= le_pre + rest_pre.0);
                    assert((w_pre + stp.2) + rest_new.1 =~= w_pre + rest_pre.1);
                }
            }
            i = ni;
        }
    }
    proof {
        if !done {
            let rest = spec_parse_scan(title@, wiki_text@, nodes@, i as int);
            assert(rest.0 =~= Seq::<LanguageEntryV>::empty());
            assert(rest.1 =~= Seq::<Warning>::empty());
            assert(language_entries_view(language_entries@) + Seq::<LanguageEntryV>::empty()
                =~= language_entries_view(language_entries@));
            assert(context.warnings@ + Seq::<Warning>::empty() =~= context.warnings@);
        }
    }
    Output { language_entries, warnings: context.warnings }
}

} // verus!

