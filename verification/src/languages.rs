//! Identifiers for languages and the lookup from German language names.
//!
//! The mapping from names to tags is a closed table; [`spec_language_of`]
//! states it and [`Language::from_name`] is proved to implement it exactly.

use vstd::prelude::*;

use crate::util::str_eq;

verus! {

/// Identifier for a language.
#[derive(Clone, Copy, Debug, PartialEq, Eq, Hash, Structural)]
#[allow(missing_docs)]
pub enum Language {
    Aa,
    Ab,
    Ae,
    Af,
    Ak,
    Am,
    An,
    Ar,
    Arc,
    As,
    Av,
    Ay,
    Az,
    Ba,
    Be,
    Bg,
    Bh,
    Bi,
    Bm,
    Bn,
    Bo,
    Br,
    Bs,
    By,
    Ca,
    Ce,
    Ch,
    Co,
    Cr,
    Cs,
    Cu,
    Cv,
    Cy,
    Da,
    De,
    Dv,
    Dz,
    Ee,
    El,
    En,
    Eo,
    Es,
    Et,
    Eu,
    Fa,
    Ff,
    Fi,
    Fj,
    Fo,
    Fr,
    Fy,
    Ga,
    Gd,
    Gl,
    Gn,
    Gu,
    Gv,
    Ha,
    He,
    Hi,
    Ho,
    Hr,
    Ht,
    Hu,
    Hy,
    Hz,
    Ia,
    Id,
    Ie,
    Ii,
    Ik,
    Is,
    It,
    Iu,
    Ja,
    Jv,
    Ka,
    Kg,
    Ki,
    Kj,
    Kk,
    Kl,
    Km,
    Kn,
    Ko,
    Kr,
    Ks,
    Ku,
    Kv,
    Kw,
    Ky,
    La,
    Lb,
    Lg,
    Li,
    Ln,
    Lo,
    Lt,
    Lu,
    Lv,
    Mg,
    Mh,
    Mi,
    Mk,
    Ml,
    Mn,
    Mr,
    Ms,
    Mt,
    My,
    Na,
    Nb,
    Nd,
    Ne,
    Ng,
    Nl,
    Nn,
    No,
    Nr,
    Nv,
    Ny,
    Oc,
    Oj,
    Om,
    Or,
    Os,
    Pa,
    Pi,
    Pl,
    Ps,
    Pt,
    Qu,
    Rm,
    Rn,
    Ro,
    Ru,
    Rw,
    Sa,
    Sc,
    Sd,
    Se,
    Sg,
    Si,
    Sk,
    Sl,
    Sm,
    Sn,
    So,
    Sq,
    Sr,
    Ss,
    St,
    Su,
    Sv,
    Sw,
    Ta,
    Te,
    Tg,
    Th,
    Ti,
    Tk,
    Tl,
    Tn,
    To,
    Tr,
    Ts,
    Tt,
    Tw,
    Ty,
    Ug,
    Uk,
    Ur,
    Uz,
    Ve,
    Vi,
    Vo,
    Wa,
    Wo,
    Xh,
    Yi,
    Yo,
    Za,
    Zh,
    Zu,
}

/// One stretch of the language-name table.
pub open spec fn spec_language_table_0(name: Seq<char>) -> Option<Language> {
    if name == "(Neu-)Awarisch"@ {
        Some(Language::Av)
    } else if name == "(Neu-)Griechisch"@ {
        Some(Language::El)
    } else if name == "(Schottisch-)Gälisch"@ {
        Some(Language::Gd)
    } else if name == "Abchasisch"@ {
        Some(Language::Ab)
    } else if name == "Afar"@ {
        Some(Language::Aa)
    } else if name == "Afrikaans"@ {
        Some(Language::Af)
    } else if name == "Akan"@ {
        Some(Language::Ak)
    } else if name == "Albanisch"@ {
        Some(Language::Sq)
    } else if name == "Altkirchenslawisch"@ {
        Some(Language::Cu)
    } else if name == "Amharisch"@ {
        Some(Language::Am)
    } else if name == "Anishinabe"@ {
        Some(Language::Oj)
    } else if name == "Arabisch"@ {
        Some(Language::Ar)
    } else if name == "Aragonesisch"@ {
        Some(Language::An)
    } else if name == "Aramäisch"@ {
        Some(Language::Arc)
    } else if name == "Armenisch"@ {
        Some(Language::Hy)
    } else if name == "Aserbaidschanisch"@ {
        Some(Language::Az)
    } else if name == "Assamesisch/Assami"@ {
        Some(Language::As)
    } else if name == "Avestisch"@ {
        Some(Language::Ae)
    } else if name == "Aymara"@ {
        Some(Language::Ay)
    } else if name == "Bambara"@ {
        Some(Language::Bm)
    } else if name == "Banyumasan"@ {
        Some(Language::By)
    } else if name == "Baschkirisch"@ {
        Some(Language::Ba)
    } else if name == "Baskisch"@ {
        Some(Language::Eu)
    } else if name == "Bengalisch"@ {
        Some(Language::Bn)
    } else {
        None
    }
}

fn language_table_0(name: &str) -> (r: Option<Language>)
    ensures
        r == spec_language_table_0(name@),
{
    if str_eq(name, "(Neu-)Awarisch") {
        Some(Language::Av)
    } else if str_eq(name, "(Neu-)Griechisch") {
        Some(Language::El)
    } else if str_eq(name, "(Schottisch-)Gälisch") {
        Some(Language::Gd)
    } else if str_eq(name, "Abchasisch") {
        Some(Language::Ab)
    } else if str_eq(name, "Afar") {
        Some(Language::Aa)
    } else if str_eq(name, "Afrikaans") {
        Some(Language::Af)
    } else if str_eq(name, "Akan") {
        Some(Language::Ak)
    } else if str_eq(name, "Albanisch") {
        Some(Language::Sq)
    } else if str_eq(name, "Altkirchenslawisch") {
        Some(Language::Cu)
    } else if str_eq(name, "Amharisch") {
        Some(Language::Am)
    } else if str_eq(name, "Anishinabe") {
        Some(Language::Oj)
    } else if str_eq(name, "Arabisch") {
        Some(Language::Ar)
    } else if str_eq(name, "Aragonesisch") {
        Some(Language::An)
    } else if str_eq(name, "Aramäisch") {
        Some(Language::Arc)
    } else if str_eq(name, "Armenisch") {
        Some(Language::Hy)
    } else if str_eq(name, "Aserbaidschanisch") {
        Some(Language::Az)
    } else if str_eq(name, "Assamesisch/Assami") {
        Some(Language::As)
    } else if str_eq(name, "Avestisch") {
        Some(Language::Ae)
    } else if str_eq(name, "Aymara") {
        Some(Language::Ay)
    } else if str_eq(name, "Bambara") {
        Some(Language::Bm)
    } else if str_eq(name, "Banyumasan") {
        Some(Language::By)
    } else if str_eq(name, "Baschkirisch") {
        Some(Language::Ba)
    } else if str_eq(name, "Baskisch") {
        Some(Language::Eu)
    } else if str_eq(name, "Bengalisch") {
        Some(Language::Bn)
    } else {
        None
    }
}

/// One stretch of the language-name table.
pub open spec fn spec_language_table_1(name: Seq<char>) -> Option<Language> {
    if name == "Bihari"@ {
        Some(Language::Bh)
    } else if name == "Birmanisch"@ {
        Some(Language::My)
    } else if name == "Bislama"@ {
        Some(Language::Bi)
    } else if name == "Bokmål"@ {
        Some(Language::Nb)
    } else if name == "Bosnisch"@ {
        Some(Language::Bs)
    } else if name == "Bretonisch"@ {
        Some(Language::Br)
    } else if name == "Bulgarisch"@ {
        Some(Language::Bg)
    } else if name == "Chamorro"@ {
        Some(Language::Ch)
    } else if name == "Chichewa"@ {
        Some(Language::Ny)
    } else if name == "Chinesisch"@ {
        Some(Language::Zh)
    } else if name == "Cree"@ {
        Some(Language::Cr)
    } else if name == "Deutsch"@ {
        Some(Language::De)
    } else if name == "Dhivehi"@ {
        Some(Language::Dv)
    } else if name == "Dzongkha"@ {
        Some(Language::Dz)
    } else if name == "Dänisch"@ {
        Some(Language::Da)
    } else if name == "Englisch"@ {
        Some(Language::En)
    } else if name == "Esperanto"@ {
        Some(Language::Eo)
    } else if name == "Estnisch"@ {
        Some(Language::Et)
    } else if name == "Ewe"@ {
        Some(Language::Ee)
    } else if name == "Fidschi"@ {
        Some(Language::Fj)
    } else if name == "Finnisch"@ {
        Some(Language::Fi)
    } else if name == "Französisch"@ {
        Some(Language::Fr)
    } else if name == "Friesisch"@ {
        Some(Language::Fy)
    } else if name == "Fula"@ {
        Some(Language::Ff)
    } else {
        None
    }
}

fn language_table_1(name: &str) -> (r: Option<Language>)
    ensures
        r == spec_language_table_1(name@),
{
    if str_eq(name, "Bihari") {
        Some(Language::Bh)
    } else if str_eq(name, "Birmanisch") {
        Some(Language::My)
    } else if str_eq(name, "Bislama") {
        Some(Language::Bi)
    } else if str_eq(name, "Bokmål") {
        Some(Language::Nb)
    } else if str_eq(name, "Bosnisch") {
        Some(Language::Bs)
    } else if str_eq(name, "Bretonisch") {
        Some(Language::Br)
    } else if str_eq(name, "Bulgarisch") {
        Some(Language::Bg)
    } else if str_eq(name, "Chamorro") {
        Some(Language::Ch)
    } else if str_eq(name, "Chichewa") {
        Some(Language::Ny)
    } else if str_eq(name, "Chinesisch") {
        Some(Language::Zh)
    } else if str_eq(name, "Cree") {
        Some(Language::Cr)
    } else if str_eq(name, "Deutsch") {
        Some(Language::De)
    } else if str_eq(name, "Dhivehi") {
        Some(Language::Dv)
    } else if str_eq(name, "Dzongkha") {
        Some(Language::Dz)
    } else if str_eq(name, "Dänisch") {
        Some(Language::Da)
    } else if str_eq(name, "Englisch") {
        Some(Language::En)
    } else if str_eq(name, "Esperanto") {
        Some(Language::Eo)
    } else if str_eq(name, "Estnisch") {
        Some(Language::Et)
    } else if str_eq(name, "Ewe") {
        Some(Language::Ee)
    } else if str_eq(name, "Fidschi") {
        Some(Language::Fj)
    } else if str_eq(name, "Finnisch") {
        Some(Language::Fi)
    } else if str_eq(name, "Französisch") {
        Some(Language::Fr)
    } else if str_eq(name, "Friesisch") {
        Some(Language::Fy)
    } else if str_eq(name, "Fula") {
        Some(Language::Ff)
    } else {
        None
    }
}

/// One stretch of the language-name table.
pub open spec fn spec_language_table_2(name: Seq<char>) -> Option<Language> {
    if name == "Färöisch"@ {
        Some(Language::Fo)
    } else if name == "Galicisch"@ {
        Some(Language::Gl)
    } else if name == "Ganda"@ {
        Some(Language::Lg)
    } else if name == "Georgisch"@ {
        Some(Language::Ka)
    } else if name == "Guaraní"@ {
        Some(Language::Gn)
    } else if name == "Gujarati"@ {
        Some(Language::Gu)
    } else if name == "Haitianisch"@ {
        Some(Language::Ht)
    } else if name == "Hausa"@ {
        Some(Language::Ha)
    } else if name == "Hebräisch"@ {
        Some(Language::He)
    } else if name == "Herero"@ {
        Some(Language::Hz)
    } else if name == "Hindi"@ {
        Some(Language::Hi)
    } else if name == "Hiri Motu"@ {
        Some(Language::Ho)
    } else if name == "Indonesisch"@ {
        Some(Language::Id)
    } else if name == "Interlingua"@ {
        Some(Language::Ia)
    } else if name == "Interlingue"@ {
        Some(Language::Ie)
    } else if name == "Inuktitut"@ {
        Some(Language::Iu)
    } else if name == "Inupiaq"@ {
        Some(Language::Ik)
    } else if name == "Irisch"@ {
        Some(Language::Ga)
    } else if name == "Isländisch"@ {
        Some(Language::Is)
    } else if name == "Italienisch"@ {
        Some(Language::It)
    } else if name == "Japanisch"@ {
        Some(Language::Ja)
    } else if name == "Javanisch"@ {
        Some(Language::Jv)
    } else if name == "Jiddisch"@ {
        Some(Language::Yi)
    } else if name == "Kalaallisut; Grönländisch"@ {
        Some(Language::Kl)
    } else {
        None
    }
}

fn language_table_2(name: &str) -> (r: Option<Language>)
    ensures
        r == spec_language_table_2(name@),
{
    if str_eq(name, "Färöisch") {
        Some(Language::Fo)
    } else if str_eq(name, "Galicisch") {
        Some(Language::Gl)
    } else if str_eq(name, "Ganda") {
        Some(Language::Lg)
    } else if str_eq(name, "Georgisch") {
        Some(Language::Ka)
    } else if str_eq(name, "Guaraní") {
        Some(Language::Gn)
    } else if str_eq(name, "Gujarati") {
        Some(Language::Gu)
    } else if str_eq(name, "Haitianisch") {
        Some(Language::Ht)
    } else if str_eq(name, "Hausa") {
        Some(Language::Ha)
    } else if str_eq(name, "Hebräisch") {
        Some(Language::He)
    } else if str_eq(name, "Herero") {
        Some(Language::Hz)
    } else if str_eq(name, "Hindi") {
        Some(Language::Hi)
    } else if str_eq(name, "Hiri Motu") {
        Some(Language::Ho)
    } else if str_eq(name, "Indonesisch") {
        Some(Language::Id)
    } else if str_eq(name, "Interlingua") {
        Some(Language::Ia)
    } else if str_eq(name, "Interlingue") {
        Some(Language::Ie)
    } else if str_eq(name, "Inuktitut") {
        Some(Language::Iu)
    } else if str_eq(name, "Inupiaq") {
        Some(Language::Ik)
    } else if str_eq(name, "Irisch") {
        Some(Language::Ga)
    } else if str_eq(name, "Isländisch") {
        Some(Language::Is)
    } else if str_eq(name, "Italienisch") {
        Some(Language::It)
    } else if str_eq(name, "Japanisch") {
        Some(Language::Ja)
    } else if str_eq(name, "Javanisch") {
        Some(Language::Jv)
    } else if str_eq(name, "Jiddisch") {
        Some(Language::Yi)
    } else if str_eq(name, "Kalaallisut; Grönländisch") {
        Some(Language::Kl)
    } else {
        None
    }
}

/// One stretch of the language-name table.
pub open spec fn spec_language_table_3(name: Seq<char>) -> Option<Language> {
    if name == "Kannada"@ {
        Some(Language::Kn)
    } else if name == "Kanuri"@ {
        Some(Language::Kr)
    } else if name == "Kasachisch"@ {
        Some(Language::Kk)
    } else if name == "Kaschmirisch"@ {
        Some(Language::Ks)
    } else if name == "Katalanisch"@ {
        Some(Language::Ca)
    } else if name == "Khmer"@ {
        Some(Language::Km)
    } else if name == "Kikuyu"@ {
        Some(Language::Ki)
    } else if name == "Kiluba (Luba-Katanga)"@ {
        Some(Language::Lu)
    } else if name == "Kinyarwanda"@ {
        Some(Language::Rw)
    } else if name == "Kirgisisch"@ {
        Some(Language::Ky)
    } else if name == "Kirundi"@ {
        Some(Language::Rn)
    } else if name == "Komi"@ {
        Some(Language::Kv)
    } else if name == "Kongo, Kikongo"@ {
        Some(Language::Kg)
    } else if name == "Koreanisch"@ {
        Some(Language::Ko)
    } else if name == "Kornisch"@ {
        Some(Language::Kw)
    } else if name == "Korsisch"@ {
        Some(Language::Co)
    } else if name == "Kroatisch"@ {
        Some(Language::Hr)
    } else if name == "Kuanyama"@ {
        Some(Language::Kj)
    } else if name == "Kurdisch"@ {
        Some(Language::Ku)
    } else if name == "Laotisch"@ {
        Some(Language::Lo)
    } else if name == "Lateinisch"@ {
        Some(Language::La)
    } else if name == "Lettisch"@ {
        Some(Language::Lv)
    } else if name == "Limburgisch"@ {
        Some(Language::Li)
    } else if name == "Lingala"@ {
        Some(Language::Ln)
    } else {
        None
    }
}

fn language_table_3(name: &str) -> (r: Option<Language>)
    ensures
        r == spec_language_table_3(name@),
{
    if str_eq(name, "Kannada") {
        Some(Language::Kn)
    } else if str_eq(name, "Kanuri") {
        Some(Language::Kr)
    } else if str_eq(name, "Kasachisch") {
        Some(Language::Kk)
    } else if str_eq(name, "Kaschmirisch") {
        Some(Language::Ks)
    } else if str_eq(name, "Katalanisch") {
        Some(Language::Ca)
    } else if str_eq(name, "Khmer") {
        Some(Language::Km)
    } else if str_eq(name, "Kikuyu") {
        Some(Language::Ki)
    } else if str_eq(name, "Kiluba (Luba-Katanga)") {
        Some(Language::Lu)
    } else if str_eq(name, "Kinyarwanda") {
        Some(Language::Rw)
    } else if str_eq(name, "Kirgisisch") {
        Some(Language::Ky)
    } else if str_eq(name, "Kirundi") {
        Some(Language::Rn)
    } else if str_eq(name, "Komi") {
        Some(Language::Kv)
    } else if str_eq(name, "Kongo, Kikongo") {
        Some(Language::Kg)
    } else if str_eq(name, "Koreanisch") {
        Some(Language::Ko)
    } else if str_eq(name, "Kornisch") {
        Some(Language::Kw)
    } else if str_eq(name, "Korsisch") {
        Some(Language::Co)
    } else if str_eq(name, "Kroatisch") {
        Some(Language::Hr)
    } else if str_eq(name, "Kuanyama") {
        Some(Language::Kj)
    } else if str_eq(name, "Kurdisch") {
        Some(Language::Ku)
    } else if str_eq(name, "Laotisch") {
        Some(Language::Lo)
    } else if str_eq(name, "Lateinisch") {
        Some(Language::La)
    } else if str_eq(name, "Lettisch") {
        Some(Language::Lv)
    } else if str_eq(name, "Limburgisch") {
        Some(Language::Li)
    } else if str_eq(name, "Lingala") {
        Some(Language::Ln)
    } else {
        None
    }
}

/// One stretch of the language-name table.
pub open spec fn spec_language_table_4(name: Seq<char>) -> Option<Language> {
    if name == "Litauisch"@ {
        Some(Language::Lt)
    } else if name == "Luxemburgisch"@ {
        Some(Language::Lb)
    } else if name == "Madagassisch"@ {
        Some(Language::Mg)
    } else if name == "Malaiisch"@ {
        Some(Language::Ms)
    } else if name == "Malayalam"@ {
        Some(Language::Ml)
    } else if name == "Maltesisch"@ {
        Some(Language::Mt)
    } else if name == "Manx"@ {
        Some(Language::Gv)
    } else if name == "Maori"@ {
        Some(Language::Mi)
    } else if name == "Marathi"@ {
        Some(Language::Mr)
    } else if name == "Marshallesisch"@ {
        Some(Language::Mh)
    } else if name == "Mazedonisch"@ {
        Some(Language::Mk)
    } else if name == "Mongolisch"@ {
        Some(Language::Mn)
    } else if name == "Nauruisch"@ {
        Some(Language::Na)
    } else if name == "Navajo"@ {
        Some(Language::Nv)
    } else if name == "Ndonga"@ {
        Some(Language::Ng)
    } else if name == "Nepalesisch"@ {
        Some(Language::Ne)
    } else if name == "Niederländisch"@ {
        Some(Language::Nl)
    } else if name == "Nord-Ndebele"@ {
        Some(Language::Nd)
    } else if name == "Norwegisch"@ {
        Some(Language::No)
    } else if name == "Nynorsk (Neunorwegisch)"@ {
        Some(Language::Nn)
    } else if name == "Okzitanisch"@ {
        Some(Language::Oc)
    } else if name == "Oriya"@ {
        Some(Language::Or)
    } else if name == "Oromo"@ {
        Some(Language::Om)
    } else if name == "Ossetisch"@ {
        Some(Language::Os)
    } else {
        None
    }
}

fn language_table_4(name: &str) -> (r: Option<Language>)
    ensures
        r == spec_language_table_4(name@),
{
    if str_eq(name, "Litauisch") {
        Some(Language::Lt)
    } else if str_eq(name, "Luxemburgisch") {
        Some(Language::Lb)
    } else if str_eq(name, "Madagassisch") {
        Some(Language::Mg)
    } else if str_eq(name, "Malaiisch") {
        Some(Language::Ms)
    } else if str_eq(name, "Malayalam") {
        Some(Language::Ml)
    } else if str_eq(name, "Maltesisch") {
        Some(Language::Mt)
    } else if str_eq(name, "Manx") {
        Some(Language::Gv)
    } else if str_eq(name, "Maori") {
        Some(Language::Mi)
    } else if str_eq(name, "Marathi") {
        Some(Language::Mr)
    } else if str_eq(name, "Marshallesisch") {
        Some(Language::Mh)
    } else if str_eq(name, "Mazedonisch") {
        Some(Language::Mk)
    } else if str_eq(name, "Mongolisch") {
        Some(Language::Mn)
    } else if str_eq(name, "Nauruisch") {
        Some(Language::Na)
    } else if str_eq(name, "Navajo") {
        Some(Language::Nv)
    } else if str_eq(name, "Ndonga") {
        Some(Language::Ng)
    } else if str_eq(name, "Nepalesisch") {
        Some(Language::Ne)
    } else if str_eq(name, "Niederländisch") {
        Some(Language::Nl)
    } else if str_eq(name, "Nord-Ndebele") {
        Some(Language::Nd)
    } else if str_eq(name, "Norwegisch") {
        Some(Language::No)
    } else if str_eq(name, "Nynorsk (Neunorwegisch)") {
        Some(Language::Nn)
    } else if str_eq(name, "Okzitanisch") {
        Some(Language::Oc)
    } else if str_eq(name, "Oriya") {
        Some(Language::Or)
    } else if str_eq(name, "Oromo") {
        Some(Language::Om)
    } else if str_eq(name, "Ossetisch") {
        Some(Language::Os)
    } else {
        None
    }
}

/// One stretch of the language-name table.
pub open spec fn spec_language_table_5(name: Seq<char>) -> Option<Language> {
    if name == "Pali"@ {
        Some(Language::Pi)
    } else if name == "Pandschabi"@ {
        Some(Language::Pa)
    } else if name == "Paschtu"@ {
        Some(Language::Ps)
    } else if name == "Persisch"@ {
        Some(Language::Fa)
    } else if name == "Polnisch"@ {
        Some(Language::Pl)
    } else if name == "Portugiesisch"@ {
        Some(Language::Pt)
    } else if name == "Quechua"@ {
        Some(Language::Qu)
    } else if name == "Rumänisch"@ {
        Some(Language::Ro)
    } else if name == "Russisch"@ {
        Some(Language::Ru)
    } else if name == "Rätoromanisch"@ {
        Some(Language::Rm)
    } else if name == "Samisch"@ {
        Some(Language::Se)
    } else if name == "Samoanisch"@ {
        Some(Language::Sm)
    } else if name == "Sango"@ {
        Some(Language::Sg)
    } else if name == "Sanskrit"@ {
        Some(Language::Sa)
    } else if name == "Sardisch"@ {
        Some(Language::Sc)
    } else if name == "Schwedisch"@ {
        Some(Language::Sv)
    } else if name == "Serbisch"@ {
        Some(Language::Sr)
    } else if name == "Sesotho"@ {
        Some(Language::St)
    } else if name == "Setswana"@ {
        Some(Language::Tn)
    } else if name == "Shona"@ {
        Some(Language::Sn)
    } else if name == "Sindhi"@ {
        Some(Language::Sd)
    } else if name == "Singhalesisch"@ {
        Some(Language::Si)
    } else if name == "Siswati"@ {
        Some(Language::Ss)
    } else if name == "Slowakisch"@ {
        Some(Language::Sk)
    } else {
        None
    }
}

fn language_table_5(name: &str) -> (r: Option<Language>)
    ensures
        r == spec_language_table_5(name@),
{
    if str_eq(name, "Pali") {
        Some(Language::Pi)
    } else if str_eq(name, "Pandschabi") {
        Some(Language::Pa)
    } else if str_eq(name, "Paschtu") {
        Some(Language::Ps)
    } else if str_eq(name, "Persisch") {
        Some(Language::Fa)
    } else if str_eq(name, "Polnisch") {
        Some(Language::Pl)
    } else if str_eq(name, "Portugiesisch") {
        Some(Language::Pt)
    } else if str_eq(name, "Quechua") {
        Some(Language::Qu)
    } else if str_eq(name, "Rumänisch") {
        Some(Language::Ro)
    } else if str_eq(name, "Russisch") {
        Some(Language::Ru)
    } else if str_eq(name, "Rätoromanisch") {
        Some(Language::Rm)
    } else if str_eq(name, "Samisch") {
        Some(Language::Se)
    } else if str_eq(name, "Samoanisch") {
        Some(Language::Sm)
    } else if str_eq(name, "Sango") {
        Some(Language::Sg)
    } else if str_eq(name, "Sanskrit") {
        Some(Language::Sa)
    } else if str_eq(name, "Sardisch") {
        Some(Language::Sc)
    } else if str_eq(name, "Schwedisch") {
        Some(Language::Sv)
    } else if str_eq(name, "Serbisch") {
        Some(Language::Sr)
    } else if str_eq(name, "Sesotho") {
        Some(Language::St)
    } else if str_eq(name, "Setswana") {
        Some(Language::Tn)
    } else if str_eq(name, "Shona") {
        Some(Language::Sn)
    } else if str_eq(name, "Sindhi") {
        Some(Language::Sd)
    } else if str_eq(name, "Singhalesisch") {
        Some(Language::Si)
    } else if str_eq(name, "Siswati") {
        Some(Language::Ss)
    } else if str_eq(name, "Slowakisch") {
        Some(Language::Sk)
    } else {
        None
    }
}

/// One stretch of the language-name table.
pub open spec fn spec_language_table_6(name: Seq<char>) -> Option<Language> {
    if name == "Slowenisch"@ {
        Some(Language::Sl)
    } else if name == "Somali"@ {
        Some(Language::So)
    } else if name == "Spanisch"@ {
        Some(Language::Es)
    } else if name == "Sundanesisch"@ {
        Some(Language::Su)
    } else if name == "Swahili"@ {
        Some(Language::Sw)
    } else if name == "Süd-Ndebele"@ {
        Some(Language::Nr)
    } else if name == "Tadschikisch"@ {
        Some(Language::Tg)
    } else if name == "Tagalog"@ {
        Some(Language::Tl)
    } else if name == "Tahitianisch"@ {
        Some(Language::Ty)
    } else if name == "Tamilisch"@ {
        Some(Language::Ta)
    } else if name == "Tatarisch"@ {
        Some(Language::Tt)
    } else if name == "Telugu"@ {
        Some(Language::Te)
    } else if name == "Thailändisch"@ {
        Some(Language::Th)
    } else if name == "Tibetisch"@ {
        Some(Language::Bo)
    } else if name == "Tigrinya"@ {
        Some(Language::Ti)
    } else if name == "Tongaisch"@ {
        Some(Language::To)
    } else if name == "Tschechisch"@ {
        Some(Language::Cs)
    } else if name == "Tschetschenisch"@ {
        Some(Language::Ce)
    } else if name == "Tschuwaschisch"@ {
        Some(Language::Cv)
    } else if name == "Tsonga"@ {
        Some(Language::Ts)
    } else if name == "Turkmenisch"@ {
        Some(Language::Tk)
    } else if name == "Twi"@ {
        Some(Language::Tw)
    } else if name == "Türkisch"@ {
        Some(Language::Tr)
    } else if name == "Uigurisch"@ {
        Some(Language::Ug)
    } else {
        None
    }
}

fn language_table_6(name: &str) -> (r: Option<Language>)
    ensures
        r == spec_language_table_6(name@),
{
    if str_eq(name, "Slowenisch") {
        Some(Language::Sl)
    } else if str_eq(name, "Somali") {
        Some(Language::So)
    } else if str_eq(name, "Spanisch") {
        Some(Language::Es)
    } else if str_eq(name, "Sundanesisch") {
        Some(Language::Su)
    } else if str_eq(name, "Swahili") {
        Some(Language::Sw)
    } else if str_eq(name, "Süd-Ndebele") {
        Some(Language::Nr)
    } else if str_eq(name, "Tadschikisch") {
        Some(Language::Tg)
    } else if str_eq(name, "Tagalog") {
        Some(Language::Tl)
    } else if str_eq(name, "Tahitianisch") {
        Some(Language::Ty)
    } else if str_eq(name, "Tamilisch") {
        Some(Language::Ta)
    } else if str_eq(name, "Tatarisch") {
        Some(Language::Tt)
    } else if str_eq(name, "Telugu") {
        Some(Language::Te)
    } else if str_eq(name, "Thailändisch") {
        Some(Language::Th)
    } else if str_eq(name, "Tibetisch") {
        Some(Language::Bo)
    } else if str_eq(name, "Tigrinya") {
        Some(Language::Ti)
    } else if str_eq(name, "Tongaisch") {
        Some(Language::To)
    } else if str_eq(name, "Tschechisch") {
        Some(Language::Cs)
    } else if str_eq(name, "Tschetschenisch") {
        Some(Language::Ce)
    } else if str_eq(name, "Tschuwaschisch") {
        Some(Language::Cv)
    } else if str_eq(name, "Tsonga") {
        Some(Language::Ts)
    } else if str_eq(name, "Turkmenisch") {
        Some(Language::Tk)
    } else if str_eq(name, "Twi") {
        Some(Language::Tw)
    } else if str_eq(name, "Türkisch") {
        Some(Language::Tr)
    } else if str_eq(name, "Uigurisch") {
        Some(Language::Ug)
    } else {
        None
    }
}

/// One stretch of the language-name table.
pub open spec fn spec_language_table_7(name: Seq<char>) -> Option<Language> {
    if name == "Ukrainisch"@ {
        Some(Language::Uk)
    } else if name == "Ungarisch"@ {
        Some(Language::Hu)
    } else if name == "Urdu"@ {
        Some(Language::Ur)
    } else if name == "Usbekisch"@ {
        Some(Language::Uz)
    } else if name == "Venda"@ {
        Some(Language::Ve)
    } else if name == "Vietnamesisch"@ {
        Some(Language::Vi)
    } else if name == "Volapük"@ {
        Some(Language::Vo)
    } else if name == "Walisisch"@ {
        Some(Language::Cy)
    } else if name == "Wallonisch"@ {
        Some(Language::Wa)
    } else if name == "Weißrussisch"@ {
        Some(Language::Be)
    } else if name == "Wolof"@ {
        Some(Language::Wo)
    } else if name == "Yi"@ {
        Some(Language::Ii)
    } else if name == "Yoruba"@ {
        Some(Language::Yo)
    } else if name == "Zhuang"@ {
        Some(Language::Za)
    } else if name == "isiXhosa"@ {
        Some(Language::Xh)
    } else if name == "isiZulu"@ {
        Some(Language::Zu)
    } else {
        None
    }
}

fn language_table_7(name: &str) -> (r: Option<Language>)
    ensures
        r == spec_language_table_7(name@),
{
    if str_eq(name, "Ukrainisch") {
        Some(Language::Uk)
    } else if str_eq(name, "Ungarisch") {
        Some(Language::Hu)
    } else if str_eq(name, "Urdu") {
        Some(Language::Ur)
    } else if str_eq(name, "Usbekisch") {
        Some(Language::Uz)
    } else if str_eq(name, "Venda") {
        Some(Language::Ve)
    } else if str_eq(name, "Vietnamesisch") {
        Some(Language::Vi)
    } else if str_eq(name, "Volapük") {
        Some(Language::Vo)
    } else if str_eq(name, "Walisisch") {
        Some(Language::Cy)
    } else if str_eq(name, "Wallonisch") {
        Some(Language::Wa)
    } else if str_eq(name, "Weißrussisch") {
        Some(Language::Be)
    } else if str_eq(name, "Wolof") {
        Some(Language::Wo)
    } else if str_eq(name, "Yi") {
        Some(Language::Ii)
    } else if str_eq(name, "Yoruba") {
        Some(Language::Yo)
    } else if str_eq(name, "Zhuang") {
        Some(Language::Za)
    } else if str_eq(name, "isiXhosa") {
        Some(Language::Xh)
    } else if str_eq(name, "isiZulu") {
        Some(Language::Zu)
    } else {
        None
    }
}

/// The closed mapping from German language names to language tags.
pub open spec fn spec_language_of(name: Seq<char>) -> Option<Language> {
    if spec_language_table_0(name) is Some {
        spec_language_table_0(name)
    } else if spec_language_table_1(name) is Some {
        spec_language_table_1(name)
    } else if spec_language_table_2(name) is Some {
        spec_language_table_2(name)
    } else if spec_language_table_3(name) is Some {
        spec_language_table_3(name)
    } else if spec_language_table_4(name) is Some {
        spec_language_table_4(name)
    } else if spec_language_table_5(name) is Some {
        spec_language_table_5(name)
    } else if spec_language_table_6(name) is Some {
        spec_language_table_6(name)
    } else if spec_language_table_7(name) is Some {
        spec_language_table_7(name)
    } else {
        None
    }
}

impl Language {
    /// Returns the language corresponding to the given language name, if any.
    pub fn from_name(name: &str) -> (r: Option<Language>)
        ensures
            r == spec_language_of(name@),
    {
        let r0 = language_table_0(name);
        if r0.is_some() {
            return r0;
        }
        let r1 = language_table_1(name);
        if r1.is_some() {
            return r1;
        }
        let r2 = language_table_2(name);
        if r2.is_some() {
            return r2;
        }
        let r3 = language_table_3(name);
        if r3.is_some() {
            return r3;
        }
        let r4 = language_table_4(name);
        if r4.is_some() {
            return r4;
        }
        let r5 = language_table_5(name);
        if r5.is_some() {
            return r5;
        }
        let r6 = language_table_6(name);
        if r6.is_some() {
            return r6;
        }
        let r7 = language_table_7(name);
        if r7.is_some() {
            return r7;
        }
        None
    }
}

} // verus!
