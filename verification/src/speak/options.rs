//! Set various Deepgram features to control how the speech is generated.
//!
//! See the [Deepgram API Reference][api] for more info.
//!
//! [api]: https://developers.deepgram.com/docs/tts-feature-overview

use vstd::prelude::*;

use crate::outside::form_urlencode_pairs;
use crate::text::{decimal, form_pairs, form_pairs_of_plain_pairs, form_plain, optional_pair, pair_views, plain_pairs, u32_decimal};

verus! {

/// Used as a parameter for [`OptionsBuilder::model`].
///
/// See the [Deepgram Model feature docs][docs] for more info.
///
/// [docs]: https://developers.deepgram.com/docs/tts-models
#[derive(Debug, PartialEq, Eq, Clone, Hash)]
#[non_exhaustive]
pub enum Model {
    #[allow(missing_docs)]
    AuraAsteriaEn,
    #[allow(missing_docs)]
    AuraLunaEn,
    #[allow(missing_docs)]
    AuraStellaEn,
    #[allow(missing_docs)]
    AuraAthenaEn,
    #[allow(missing_docs)]
    AuraHeraEn,
    #[allow(missing_docs)]
    AuraOrionEn,
    #[allow(missing_docs)]
    AuraArcasEn,
    #[allow(missing_docs)]
    AuraPerseusEn,
    #[allow(missing_docs)]
    AuraAngusEn,
    #[allow(missing_docs)]
    AuraOrpheusEn,
    #[allow(missing_docs)]
    AuraHeliosEn,
    #[allow(missing_docs)]
    AuraZeusEn,
    // Aura-2 English voices
    #[allow(missing_docs)]
    Aura2ThaliaEn,
    #[allow(missing_docs)]
    Aura2AndromedaEn,
    #[allow(missing_docs)]
    Aura2ArcasEn,
    #[allow(missing_docs)]
    Aura2AsteriaEn,
    #[allow(missing_docs)]
    Aura2AthenaEn,
    #[allow(missing_docs)]
    Aura2HeraEn,
    #[allow(missing_docs)]
    Aura2LunaEn,
    #[allow(missing_docs)]
    Aura2OrionEn,
    #[allow(missing_docs)]
    Aura2OrpheusEn,
    #[allow(missing_docs)]
    Aura2PerseusEn,
    #[allow(missing_docs)]
    Aura2StellaEn,
    #[allow(missing_docs)]
    Aura2HeliosEn,
    #[allow(missing_docs)]
    Aura2ZeusEn,
    #[allow(missing_docs)]
    Aura2AngusEn,
    // Aura-2 Spanish voices
    #[allow(missing_docs)]
    Aura2SirioEs,
    #[allow(missing_docs)]
    Aura2HelenaEs,
    #[allow(missing_docs)]
    Aura2NestorEs,
    #[allow(missing_docs)]
    Aura2CarinaEs,
    #[allow(missing_docs)]
    CustomId(String),
}

/// The identifier under which the API knows a model.
pub open spec fn model_id(m: Model) -> Seq<char> {
    match m {
        Model::AuraAsteriaEn => "aura-asteria-en"@,
        Model::AuraLunaEn => "aura-luna-en"@,
        Model::AuraStellaEn => "aura-stella-en"@,
        Model::AuraAthenaEn => "aura-athena-en"@,
        Model::AuraHeraEn => "aura-hera-en"@,
        Model::AuraOrionEn => "aura-orion-en"@,
        Model::AuraArcasEn => "aura-arcas-en"@,
        Model::AuraPerseusEn => "aura-perseus-en"@,
        Model::AuraAngusEn => "aura-angus-en"@,
        Model::AuraOrpheusEn => "aura-orpheus-en"@,
        Model::AuraHeliosEn => "aura-helios-en"@,
        Model::AuraZeusEn => "aura-zeus-en"@,
        Model::Aura2ThaliaEn => "aura-2-thalia-en"@,
        Model::Aura2AndromedaEn => "aura-2-andromeda-en"@,
        Model::Aura2ArcasEn => "aura-2-arcas-en"@,
        Model::Aura2AsteriaEn => "aura-2-asteria-en"@,
        Model::Aura2AthenaEn => "aura-2-athena-en"@,
        Model::Aura2HeraEn => "aura-2-hera-en"@,
        Model::Aura2LunaEn => "aura-2-luna-en"@,
        Model::Aura2OrionEn => "aura-2-orion-en"@,
        Model::Aura2OrpheusEn => "aura-2-orpheus-en"@,
        Model::Aura2PerseusEn => "aura-2-perseus-en"@,
        Model::Aura2StellaEn => "aura-2-stella-en"@,
        Model::Aura2HeliosEn => "aura-2-helios-en"@,
        Model::Aura2ZeusEn => "aura-2-zeus-en"@,
        Model::Aura2AngusEn => "aura-2-angus-en"@,
        Model::Aura2SirioEs => "aura-2-sirio-es"@,
        Model::Aura2HelenaEs => "aura-2-helena-es"@,
        Model::Aura2NestorEs => "aura-2-nestor-es"@,
        Model::Aura2CarinaEs => "aura-2-carina-es"@,
        Model::CustomId(id) => id@,
    }
}

/// The identifiers of the built-in voices, each as the API names it.
pub proof fn builtin_model_ids()
    ensures
        model_id(Model::AuraAsteriaEn) == "aura-asteria-en"@,
        model_id(Model::AuraLunaEn) == "aura-luna-en"@,
        model_id(Model::AuraStellaEn) == "aura-stella-en"@,
        model_id(Model::AuraAthenaEn) == "aura-athena-en"@,
        model_id(Model::AuraHeraEn) == "aura-hera-en"@,
        model_id(Model::AuraOrionEn) == "aura-orion-en"@,
        model_id(Model::AuraArcasEn) == "aura-arcas-en"@,
        model_id(Model::AuraPerseusEn) == "aura-perseus-en"@,
        model_id(Model::AuraAngusEn) == "aura-angus-en"@,
        model_id(Model::AuraOrpheusEn) == "aura-orpheus-en"@,
        model_id(Model::AuraHeliosEn) == "aura-helios-en"@,
        model_id(Model::AuraZeusEn) == "aura-zeus-en"@,
        model_id(Model::Aura2ThaliaEn) == "aura-2-thalia-en"@,
        model_id(Model::Aura2AndromedaEn) == "aura-2-andromeda-en"@,
        model_id(Model::Aura2ArcasEn) == "aura-2-arcas-en"@,
        model_id(Model::Aura2AsteriaEn) == "aura-2-asteria-en"@,
        model_id(Model::Aura2AthenaEn) == "aura-2-athena-en"@,
        model_id(Model::Aura2HeraEn) == "aura-2-hera-en"@,
        model_id(Model::Aura2LunaEn) == "aura-2-luna-en"@,
        model_id(Model::Aura2OrionEn) == "aura-2-orion-en"@,
        model_id(Model::Aura2OrpheusEn) == "aura-2-orpheus-en"@,
        model_id(Model::Aura2PerseusEn) == "aura-2-perseus-en"@,
        model_id(Model::Aura2StellaEn) == "aura-2-stella-en"@,
        model_id(Model::Aura2HeliosEn) == "aura-2-helios-en"@,
        model_id(Model::Aura2ZeusEn) == "aura-2-zeus-en"@,
        model_id(Model::Aura2AngusEn) == "aura-2-angus-en"@,
        model_id(Model::Aura2SirioEs) == "aura-2-sirio-es"@,
        model_id(Model::Aura2HelenaEs) == "aura-2-helena-es"@,
        model_id(Model::Aura2NestorEs) == "aura-2-nestor-es"@,
        model_id(Model::Aura2CarinaEs) == "aura-2-carina-es"@,
{
}

/// The Spanish voices.
pub open spec fn spanish_model(m: Model) -> bool {
    m is Aura2SirioEs || m is Aura2HelenaEs || m is Aura2NestorEs || m is Aura2CarinaEs
}

/// Voices of the Aura-2 generation.
pub open spec fn aura2_model(m: Model) -> bool {
    m is Aura2ThaliaEn || m is Aura2AndromedaEn || m is Aura2ArcasEn || m is Aura2AsteriaEn || m is Aura2AthenaEn || m is Aura2HeraEn || m is Aura2LunaEn || m is Aura2OrionEn || m is Aura2OrpheusEn || m is Aura2PerseusEn || m is Aura2StellaEn || m is Aura2HeliosEn || m is Aura2ZeusEn || m is Aura2AngusEn || m is Aura2SirioEs || m is Aura2HelenaEs || m is Aura2NestorEs || m is Aura2CarinaEs
}

/// Characters of the identifiers of the built-in voices: lower-case letters, digits and `-`.
pub open spec fn id_char(c: char) -> bool {
    ('a' <= c <= 'z') || ('0' <= c <= '9') || c == '-'
}

/// Length and three characters of an identifier, which tell the built-in voices apart.
spec fn id_fingerprint(id: Seq<char>) -> (nat, char, char, char) {
    (id.len(), id[5], id[7], id[10])
}

/// The built-in voice with a fingerprint, if any.
spec fn model_of_fingerprint(f: (nat, char, char, char)) -> Option<Model> {
    if f == (15nat, 'a', 't', 'i') {
        Some(Model::AuraAsteriaEn)
    } else     if f == (12nat, 'l', 'n', 'e') {
        Some(Model::AuraLunaEn)
    } else     if f == (14nat, 's', 'e', 'a') {
        Some(Model::AuraStellaEn)
    } else     if f == (14nat, 'a', 'h', 'a') {
        Some(Model::AuraAthenaEn)
    } else     if f == (12nat, 'h', 'r', 'e') {
        Some(Model::AuraHeraEn)
    } else     if f == (13nat, 'o', 'i', '-') {
        Some(Model::AuraOrionEn)
    } else     if f == (13nat, 'a', 'c', '-') {
        Some(Model::AuraArcasEn)
    } else     if f == (15nat, 'p', 'r', 'u') {
        Some(Model::AuraPerseusEn)
    } else     if f == (13nat, 'a', 'g', '-') {
        Some(Model::AuraAngusEn)
    } else     if f == (15nat, 'o', 'p', 'u') {
        Some(Model::AuraOrpheusEn)
    } else     if f == (14nat, 'h', 'l', 's') {
        Some(Model::AuraHeliosEn)
    } else     if f == (12nat, 'z', 'u', 'e') {
        Some(Model::AuraZeusEn)
    } else     if f == (16nat, '2', 't', 'l') {
        Some(Model::Aura2ThaliaEn)
    } else     if f == (19nat, '2', 'a', 'r') {
        Some(Model::Aura2AndromedaEn)
    } else     if f == (15nat, '2', 'a', 'a') {
        Some(Model::Aura2ArcasEn)
    } else     if f == (17nat, '2', 'a', 'e') {
        Some(Model::Aura2AsteriaEn)
    } else     if f == (16nat, '2', 'a', 'e') {
        Some(Model::Aura2AthenaEn)
    } else     if f == (14nat, '2', 'h', 'a') {
        Some(Model::Aura2HeraEn)
    } else     if f == (14nat, '2', 'l', 'a') {
        Some(Model::Aura2LunaEn)
    } else     if f == (15nat, '2', 'o', 'o') {
        Some(Model::Aura2OrionEn)
    } else     if f == (17nat, '2', 'o', 'h') {
        Some(Model::Aura2OrpheusEn)
    } else     if f == (17nat, '2', 'p', 's') {
        Some(Model::Aura2PerseusEn)
    } else     if f == (16nat, '2', 's', 'l') {
        Some(Model::Aura2StellaEn)
    } else     if f == (16nat, '2', 'h', 'i') {
        Some(Model::Aura2HeliosEn)
    } else     if f == (14nat, '2', 'z', 's') {
        Some(Model::Aura2ZeusEn)
    } else     if f == (15nat, '2', 'a', 'u') {
        Some(Model::Aura2AngusEn)
    } else     if f == (15nat, '2', 's', 'i') {
        Some(Model::Aura2SirioEs)
    } else     if f == (16nat, '2', 'h', 'e') {
        Some(Model::Aura2HelenaEs)
    } else     if f == (16nat, '2', 'n', 't') {
        Some(Model::Aura2NestorEs)
    } else     if f == (16nat, '2', 'c', 'i') {
        Some(Model::Aura2CarinaEs)
    } else {
        None
    }
}

/// What each built-in identifier is made of: its fingerprint names its voice, it starts with
/// `aura-` (`aura-2-` exactly for the Aura-2 voices) and is made of identifier characters.
proof fn lemma_builtin_model_id(m: Model)
    requires
        !(m is CustomId),
    ensures
        model_of_fingerprint(id_fingerprint(model_id(m))) == Some(m),
        model_id(m).len() >= 7,
        model_id(m).subrange(0, 5) == "aura-"@,
        (model_id(m).subrange(0, 7) == "aura-2-"@) <==> aura2_model(m),
        model_id(m).subrange(model_id(m).len() - 3, model_id(m).len() as int)
            == (if spanish_model(m) { "-es"@ } else { "-en"@ }),
        forall|i: int| 0 <= i < model_id(m).len() ==> id_char(#[trigger] model_id(m)[i]),
{
    reveal_strlit("aura-");
    reveal_strlit("aura-2-");
    reveal_strlit("-es");
    reveal_strlit("-en");
    match m {
        Model::AuraAsteriaEn => {
            reveal_strlit("aura-asteria-en");
        },
        Model::AuraLunaEn => {
            reveal_strlit("aura-luna-en");
        },
        Model::AuraStellaEn => {
            reveal_strlit("aura-stella-en");
        },
        Model::AuraAthenaEn => {
            reveal_strlit("aura-athena-en");
        },
        Model::AuraHeraEn => {
            reveal_strlit("aura-hera-en");
        },
        Model::AuraOrionEn => {
            reveal_strlit("aura-orion-en");
        },
        Model::AuraArcasEn => {
            reveal_strlit("aura-arcas-en");
        },
        Model::AuraPerseusEn => {
            reveal_strlit("aura-perseus-en");
        },
        Model::AuraAngusEn => {
            reveal_strlit("aura-angus-en");
        },
        Model::AuraOrpheusEn => {
            reveal_strlit("aura-orpheus-en");
        },
        Model::AuraHeliosEn => {
            reveal_strlit("aura-helios-en");
        },
        Model::AuraZeusEn => {
            reveal_strlit("aura-zeus-en");
        },
        Model::Aura2ThaliaEn => {
            reveal_strlit("aura-2-thalia-en");
        },
        Model::Aura2AndromedaEn => {
            reveal_strlit("aura-2-andromeda-en");
        },
        Model::Aura2ArcasEn => {
            reveal_strlit("aura-2-arcas-en");
        },
        Model::Aura2AsteriaEn => {
            reveal_strlit("aura-2-asteria-en");
        },
        Model::Aura2AthenaEn => {
            reveal_strlit("aura-2-athena-en");
        },
        Model::Aura2HeraEn => {
            reveal_strlit("aura-2-hera-en");
        },
        Model::Aura2LunaEn => {
            reveal_strlit("aura-2-luna-en");
        },
        Model::Aura2OrionEn => {
            reveal_strlit("aura-2-orion-en");
        },
        Model::Aura2OrpheusEn => {
            reveal_strlit("aura-2-orpheus-en");
        },
        Model::Aura2PerseusEn => {
            reveal_strlit("aura-2-perseus-en");
        },
        Model::Aura2StellaEn => {
            reveal_strlit("aura-2-stella-en");
        },
        Model::Aura2HeliosEn => {
            reveal_strlit("aura-2-helios-en");
        },
        Model::Aura2ZeusEn => {
            reveal_strlit("aura-2-zeus-en");
        },
        Model::Aura2AngusEn => {
            reveal_strlit("aura-2-angus-en");
        },
        Model::Aura2SirioEs => {
            reveal_strlit("aura-2-sirio-es");
        },
        Model::Aura2HelenaEs => {
            reveal_strlit("aura-2-helena-es");
        },
        Model::Aura2NestorEs => {
            reveal_strlit("aura-2-nestor-es");
        },
        Model::Aura2CarinaEs => {
            reveal_strlit("aura-2-carina-es");
        },
        Model::CustomId(_) => {},
    }
    assert(model_id(m).subrange(0, 5) =~= "aura-"@);
    if aura2_model(m) {
        assert(model_id(m).subrange(0, 7) =~= "aura-2-"@);
    } else {
        assert(model_id(m).subrange(0, 7)[5] != "aura-2-"@[5]);
    }
}

/// The identifiers of the built-in voices: distinct voices have distinct identifiers; each
/// starts with `aura-`, and with `aura-2-` exactly for the Aura-2 voices; each ends in `-es`
/// for the Spanish voices and in `-en` for the others; each is made of
/// lower-case letters, digits and `-`. A custom model's identifier is its own text.
pub proof fn model_ids_are_distinct_and_well_formed(m1: Model, m2: Model)
    ensures
        !(m1 is CustomId) && !(m2 is CustomId) && m1 != m2 ==> model_id(m1) != model_id(m2),
        !(m1 is CustomId) ==> model_id(m1).subrange(0, 5) == "aura-"@,
        !(m1 is CustomId) ==> ((model_id(m1).subrange(0, 7) == "aura-2-"@) <==> aura2_model(m1)),
        !(m1 is CustomId) ==> model_id(m1).subrange(model_id(m1).len() - 3, model_id(m1).len() as int)
            == (if spanish_model(m1) { "-es"@ } else { "-en"@ }),
        !(m1 is CustomId) ==> forall|i: int| 0 <= i < model_id(m1).len() ==> id_char(#[trigger] model_id(m1)[i]),
        m1 matches Model::CustomId(s) ==> model_id(m1) == s@,
{
    if !(m1 is CustomId) {
        lemma_builtin_model_id(m1);
    }
    if !(m2 is CustomId) {
        lemma_builtin_model_id(m2);
    }
}

impl AsRef<str> for Model {
    /// The identifier under which the API knows this model.
    fn as_ref(&self) -> (id: &str)
        ensures
            id@ == model_id(*self),
    {
        match self {
            Model::AuraAsteriaEn => "aura-asteria-en",
            Model::AuraLunaEn => "aura-luna-en",
            Model::AuraStellaEn => "aura-stella-en",
            Model::AuraAthenaEn => "aura-athena-en",
            Model::AuraHeraEn => "aura-hera-en",
            Model::AuraOrionEn => "aura-orion-en",
            Model::AuraArcasEn => "aura-arcas-en",
            Model::AuraPerseusEn => "aura-perseus-en",
            Model::AuraAngusEn => "aura-angus-en",
            Model::AuraOrpheusEn => "aura-orpheus-en",
            Model::AuraHeliosEn => "aura-helios-en",
            Model::AuraZeusEn => "aura-zeus-en",
            Model::Aura2ThaliaEn => "aura-2-thalia-en",
            Model::Aura2AndromedaEn => "aura-2-andromeda-en",
            Model::Aura2ArcasEn => "aura-2-arcas-en",
            Model::Aura2AsteriaEn => "aura-2-asteria-en",
            Model::Aura2AthenaEn => "aura-2-athena-en",
            Model::Aura2HeraEn => "aura-2-hera-en",
            Model::Aura2LunaEn => "aura-2-luna-en",
            Model::Aura2OrionEn => "aura-2-orion-en",
            Model::Aura2OrpheusEn => "aura-2-orpheus-en",
            Model::Aura2PerseusEn => "aura-2-perseus-en",
            Model::Aura2StellaEn => "aura-2-stella-en",
            Model::Aura2HeliosEn => "aura-2-helios-en",
            Model::Aura2ZeusEn => "aura-2-zeus-en",
            Model::Aura2AngusEn => "aura-2-angus-en",
            Model::Aura2SirioEs => "aura-2-sirio-es",
            Model::Aura2HelenaEs => "aura-2-helena-es",
            Model::Aura2NestorEs => "aura-2-nestor-es",
            Model::Aura2CarinaEs => "aura-2-carina-es",
            Model::CustomId(id) => id.as_str(),
        }
    }
}

/// Encoding value
///
/// See the [Deepgram Encoding feature docs][docs] for more info.
///
/// [docs]: https://developers.deepgram.com/docs/tts-encoding
#[derive(Debug, PartialEq, Clone)]
#[non_exhaustive]
pub enum Encoding {
    /// 16-bit, little endian, signed PCM WAV data
    Linear16,
    /// Mu-law encoded WAV data
    Mulaw,
    /// Alaw
    Alaw,
    /// Mp3
    Mp3,
    /// Ogg Opus
    Opus,
    /// Free Lossless Audio Codec (FLAC) encoded data
    Flac,
    /// Aac
    Aac,
    #[allow(missing_docs)]
    CustomEncoding(String),
}

/// The name under which the API knows an encoding.
pub open spec fn encoding_name(e: Encoding) -> Seq<char> {
    match e {
        Encoding::Linear16 => "linear16"@,
        Encoding::Mulaw => "mulaw"@,
        Encoding::Alaw => "alaw"@,
        Encoding::Mp3 => "mp3"@,
        Encoding::Opus => "opus"@,
        Encoding::Flac => "flac"@,
        Encoding::Aac => "aac"@,
        Encoding::CustomEncoding(name) => name@,
    }
}

impl Encoding {
    /// The name under which the API knows this encoding.
    pub fn as_str(&self) -> (name: &str)
        ensures
            name@ == encoding_name(*self),
    {
        match self {
            Encoding::Linear16 => "linear16",
            Encoding::Mulaw => "mulaw",
            Encoding::Alaw => "alaw",
            Encoding::Mp3 => "mp3",
            Encoding::Opus => "opus",
            Encoding::Flac => "flac",
            Encoding::Aac => "aac",
            Encoding::CustomEncoding(name) => name.as_str(),
        }
    }
}

/// Container value
///
/// See the [Deepgram Container feature docs][docs] for more info.
///
/// [docs]: https://developers.deepgram.com/docs/tts-container
#[derive(Debug, PartialEq, Clone)]
#[non_exhaustive]
pub enum Container {
    #[allow(missing_docs)]
    Wav,
    #[allow(missing_docs)]
    Ogg,
    /// No container: the raw audio stream (the API's `none`).
    NoContainer,
    #[allow(missing_docs)]
    CustomContainer(String),
}

/// The name under which the API knows a container.
pub open spec fn container_name(c: Container) -> Seq<char> {
    match c {
        Container::Wav => "wav"@,
        Container::Ogg => "ogg"@,
        Container::NoContainer => "none"@,
        Container::CustomContainer(name) => name@,
    }
}

impl Container {
    /// The name under which the API knows this container.
    pub fn as_str(&self) -> (name: &str)
        ensures
            name@ == container_name(*self),
    {
        match self {
            Container::Wav => "wav",
            Container::Ogg => "ogg",
            Container::NoContainer => "none",
            Container::CustomContainer(name) => name.as_str(),
        }
    }
}

/// Used as a parameter for requests that synthesize speech.
#[derive(Debug, PartialEq, Clone)]
pub struct Options {
    model: Option<Model>,
    encoding: Option<Encoding>,
    sample_rate: Option<u32>,
    container: Option<Container>,
    bit_rate: Option<u32>,
}

/// What an [`Options`] holds: each feature, if it was set.
pub struct OptionsView {
    pub model: Option<Model>,
    pub encoding: Option<Encoding>,
    pub sample_rate: Option<u32>,
    pub container: Option<Container>,
    pub bit_rate: Option<u32>,
}

impl View for Options {
    type V = OptionsView;

    closed spec fn view(&self) -> OptionsView {
        OptionsView {
            model: self.model,
            encoding: self.encoding,
            sample_rate: self.sample_rate,
            container: self.container,
            bit_rate: self.bit_rate,
        }
    }
}

impl OptionsView {
    /// These options with the model set to `model`, the other features as they are.
    pub open spec fn with_model(self, model: Model) -> OptionsView {
        OptionsView { model: Some(model), ..self }
    }

    /// These options with the encoding set to `encoding`, the other features as they are.
    pub open spec fn with_encoding(self, encoding: Encoding) -> OptionsView {
        OptionsView { encoding: Some(encoding), ..self }
    }

    /// These options with the sample rate set to `sample_rate`, the other features as they are.
    pub open spec fn with_sample_rate(self, sample_rate: u32) -> OptionsView {
        OptionsView { sample_rate: Some(sample_rate), ..self }
    }

    /// These options with the container set to `container`, the other features as they are.
    pub open spec fn with_container(self, container: Container) -> OptionsView {
        OptionsView { container: Some(container), ..self }
    }

    /// These options with the bit rate set to `bit_rate`, the other features as they are.
    pub open spec fn with_bit_rate(self, bit_rate: u32) -> OptionsView {
        OptionsView { bit_rate: Some(bit_rate), ..self }
    }
}

/// Setting two different features gives the same options in either order; setting all five
/// gives options with each of them, whatever the order.
pub proof fn option_setters_commute(v: OptionsView, m: Model, e: Encoding, r: u32, c: Container, br: u32)
    ensures
        v.with_model(m).with_encoding(e) == v.with_encoding(e).with_model(m),
        v.with_model(m).with_sample_rate(r) == v.with_sample_rate(r).with_model(m),
        v.with_model(m).with_container(c) == v.with_container(c).with_model(m),
        v.with_model(m).with_bit_rate(br) == v.with_bit_rate(br).with_model(m),
        v.with_encoding(e).with_sample_rate(r) == v.with_sample_rate(r).with_encoding(e),
        v.with_encoding(e).with_container(c) == v.with_container(c).with_encoding(e),
        v.with_encoding(e).with_bit_rate(br) == v.with_bit_rate(br).with_encoding(e),
        v.with_sample_rate(r).with_container(c) == v.with_container(c).with_sample_rate(r),
        v.with_sample_rate(r).with_bit_rate(br) == v.with_bit_rate(br).with_sample_rate(r),
        v.with_container(c).with_bit_rate(br) == v.with_bit_rate(br).with_container(c),
        v.with_model(m).with_encoding(e).with_sample_rate(r).with_container(c).with_bit_rate(br) == (OptionsView {
            model: Some(m),
            encoding: Some(e),
            sample_rate: Some(r),
            container: Some(c),
            bit_rate: Some(br),
        }),
{
}

/// Options with no feature set.
pub open spec fn empty_options() -> OptionsView {
    OptionsView { model: None, encoding: None, sample_rate: None, container: None, bit_rate: None }
}

/// The query pairs that stand for a set of options: the features that are set, in the
/// order model, encoding, sample rate, container, bit rate.
pub open spec fn options_query(o: OptionsView) -> Seq<(Seq<char>, Seq<char>)> {
    optional_pair("model"@, match o.model { Some(m) => Some(model_id(m)), None => None })
    + optional_pair("encoding"@, match o.encoding { Some(e) => Some(encoding_name(e)), None => None })
    + optional_pair("sample_rate"@, match o.sample_rate { Some(r) => Some(decimal(r as nat)), None => None })
    + optional_pair("container"@, match o.container { Some(c) => Some(container_name(c)), None => None })
    + optional_pair("bit_rate"@, match o.bit_rate { Some(r) => Some(decimal(r as nat)), None => None })
}

/// The number of features set in a set of options.
pub open spec fn options_feature_count(o: OptionsView) -> int {
    (if o.model is Some { 1int } else { 0int })
    + (if o.encoding is Some { 1int } else { 0int })
    + (if o.sample_rate is Some { 1int } else { 0int })
    + (if o.container is Some { 1int } else { 0int })
    + (if o.bit_rate is Some { 1int } else { 0int })
}

/// Each feature that is set appears in the query, whatever the others are: the model by its
/// identifier, the encoding and the container by their names, the sample rate and the bit
/// rate in decimal; and there is exactly one pair for each feature that is set.
pub proof fn each_set_option_is_queried(o: OptionsView)
    ensures
        o.model is Some ==> options_query(o).contains(("model"@, model_id(o.model->0))),
        o.encoding is Some ==> options_query(o).contains(("encoding"@, encoding_name(o.encoding->0))),
        o.sample_rate is Some ==> options_query(o).contains(("sample_rate"@, decimal(o.sample_rate->0 as nat))),
        o.container is Some ==> options_query(o).contains(("container"@, container_name(o.container->0))),
        o.bit_rate is Some ==> options_query(o).contains(("bit_rate"@, decimal(o.bit_rate->0 as nat))),
        options_query(o).len() == options_feature_count(o),
{
    let q = options_query(o);
    let a = optional_pair("model"@, match o.model { Some(m) => Some(model_id(m)), None => None });
    let b = optional_pair("encoding"@, match o.encoding { Some(e) => Some(encoding_name(e)), None => None });
    let c = optional_pair("sample_rate"@, match o.sample_rate { Some(r) => Some(decimal(r as nat)), None => None });
    let d = optional_pair("container"@, match o.container { Some(k) => Some(container_name(k)), None => None });
    let e = optional_pair("bit_rate"@, match o.bit_rate { Some(r) => Some(decimal(r as nat)), None => None });
    assert(q == a + b + c + d + e);
    if o.model is Some {
        assert(q[0] == ("model"@, model_id(o.model->0)));
    }
    if o.encoding is Some {
        assert(q[a.len() as int] == ("encoding"@, encoding_name(o.encoding->0)));
    }
    if o.sample_rate is Some {
        assert(q[(a.len() + b.len()) as int] == ("sample_rate"@, decimal(o.sample_rate->0 as nat)));
    }
    if o.container is Some {
        assert(q[(a.len() + b.len() + c.len()) as int] == ("container"@, container_name(o.container->0)));
    }
    if o.bit_rate is Some {
        assert(q[(a.len() + b.len() + c.len() + d.len()) as int] == ("bit_rate"@, decimal(o.bit_rate->0 as nat)));
    }
}

/// The documented example: options with the model `aura-arcas-en` and the encoding `flac`
/// are urlencoded as `model=aura-arcas-en&encoding=flac`.
pub proof fn urlencoded_example()
    ensures
        form_pairs(options_query(empty_options().with_model(Model::AuraArcasEn).with_encoding(Encoding::Flac)))
            == "model=aura-arcas-en&encoding=flac"@,
{
    reveal_strlit("model");
    reveal_strlit("aura-arcas-en");
    reveal_strlit("encoding");
    reveal_strlit("flac");
    reveal_strlit("model=aura-arcas-en&encoding=flac");
    let pairs = options_query(empty_options().with_model(Model::AuraArcasEn).with_encoding(Encoding::Flac));
    assert(pairs =~= seq![("model"@, "aura-arcas-en"@), ("encoding"@, "flac"@)]);
    assert(form_plain("model"@));
    assert(form_plain("aura-arcas-en"@));
    assert(form_plain("encoding"@));
    assert(form_plain("flac"@));
    assert forall|i: int| 0 <= i < pairs.len() implies form_plain(#[trigger] pairs[i].0) && form_plain(pairs[i].1) by {
        if i == 0 {
            assert(pairs[i] == ("model"@, "aura-arcas-en"@));
        } else {
            assert(pairs[i] == ("encoding"@, "flac"@));
        }
    }
    form_pairs_of_plain_pairs(pairs);
    let first = seq![("model"@, "aura-arcas-en"@)];
    assert(pairs.drop_last() =~= first);
    assert(plain_pairs(first) == "model"@ + seq!['='] + "aura-arcas-en"@);
    assert(plain_pairs(pairs) == plain_pairs(first) + seq!['&'] + "encoding"@ + seq!['='] + "flac"@);
    assert(plain_pairs(pairs) =~= "model=aura-arcas-en&encoding=flac"@);
}

/// Builds an [`Options`] object using [the Builder pattern][builder].
///
/// [builder]: https://rust-unofficial.github.io/patterns/patterns/creational/builder.html
#[derive(Debug, PartialEq, Clone)]
pub struct OptionsBuilder(Options);

impl View for OptionsBuilder {
    type V = OptionsView;

    closed spec fn view(&self) -> OptionsView {
        self.0@
    }
}

/// Appends a query pair to `pairs`.
fn push_pair(pairs: &mut Vec<(String, String)>, key: &str, value: String)
    ensures
        pair_views(final(pairs)@) == pair_views(old(pairs)@).push((key@, value@)),
{
    let ghost before = pairs@;
    pairs.push((key.to_owned(), value));
    assert(pair_views(pairs@) =~= pair_views(before).push((key@, value@)));
}

impl Options {
    /// Construct a new [`OptionsBuilder`].
    pub fn builder() -> (b: OptionsBuilder)
        ensures
            b@ == empty_options(),
    {
        OptionsBuilder::new()
    }

    /// The query pairs that stand for these options: each feature that is set, in the order
    /// model, encoding, sample rate, container, bit rate.
    pub fn query_pairs(&self) -> (pairs: Vec<(String, String)>)
        ensures
            pair_views(pairs@) == options_query(self@),
    {
        let mut pairs: Vec<(String, String)> = Vec::new();
        assert(pair_views(pairs@) =~= Seq::empty());
        if let Some(model) = &self.model {
            push_pair(&mut pairs, "model", model.as_ref().to_owned());
        }
        assert(pair_views(pairs@) =~= optional_pair(
            "model"@,
            match self.model { Some(m) => Some(model_id(m)), None => None },
        ));
        let ghost after_model = pair_views(pairs@);
        if let Some(encoding) = &self.encoding {
            push_pair(&mut pairs, "encoding", encoding.as_str().to_owned());
        }
        assert(pair_views(pairs@) =~= after_model + optional_pair(
            "encoding"@,
            match self.encoding { Some(e) => Some(encoding_name(e)), None => None },
        ));
        let ghost after_encoding = pair_views(pairs@);
        if let Some(sample_rate) = self.sample_rate {
            push_pair(&mut pairs, "sample_rate", u32_decimal(sample_rate));
        }
        assert(pair_views(pairs@) =~= after_encoding + optional_pair(
            "sample_rate"@,
            match self.sample_rate { Some(r) => Some(decimal(r as nat)), None => None },
        ));
        let ghost after_rate = pair_views(pairs@);
        if let Some(container) = &self.container {
            push_pair(&mut pairs, "container", container.as_str().to_owned());
        }
        assert(pair_views(pairs@) =~= after_rate + optional_pair(
            "container"@,
            match self.container { Some(c) => Some(container_name(c)), None => None },
        ));
        let ghost after_container = pair_views(pairs@);
        if let Some(bit_rate) = self.bit_rate {
            push_pair(&mut pairs, "bit_rate", u32_decimal(bit_rate));
        }
        assert(pair_views(pairs@) =~= after_container + optional_pair(
            "bit_rate"@,
            match self.bit_rate { Some(r) => Some(decimal(r as nat)), None => None },
        ));
        pairs
    }

    /// Return the Options in urlencoded format: the query pairs of [`Options::query_pairs`],
    /// each as `key=value` with both sides form-urlencoded, joined by `&`.
    ///
    /// This is intended primarily to help with debugging API requests.
    pub fn urlencoded(&self) -> (res: Result<String, serde_urlencoded::ser::Error>)
        ensures
            res is Ok,
            res->Ok_0@ == form_pairs(options_query(self@)),
    {
        let pairs = self.query_pairs();
        form_urlencode_pairs(&pairs)
    }
}

impl OptionsBuilder {
    /// Construct a new [`OptionsBuilder`].
    pub fn new() -> (b: Self)
        ensures
            b@ == empty_options(),
    {
        OptionsBuilder(Options {
            model: None,
            encoding: None,
            sample_rate: None,
            container: None,
            bit_rate: None,
        })
    }

    /// Set the Model feature.
    pub fn model(self, model: Model) -> (b: Self)
        ensures
            b@ == self@.with_model(model),
    {
        let mut options = self.0;
        options.model = Some(model);
        OptionsBuilder(options)
    }

    /// Set the Encoding feature.
    pub fn encoding(self, encoding: Encoding) -> (b: Self)
        ensures
            b@ == self@.with_encoding(encoding),
    {
        let mut options = self.0;
        options.encoding = Some(encoding);
        OptionsBuilder(options)
    }

    /// Set the Sample Rate feature.
    pub fn sample_rate(self, sample_rate: u32) -> (b: Self)
        ensures
            b@ == self@.with_sample_rate(sample_rate),
    {
        let mut options = self.0;
        options.sample_rate = Some(sample_rate);
        OptionsBuilder(options)
    }

    /// Set the Container feature.
    pub fn container(self, container: Container) -> (b: Self)
        ensures
            b@ == self@.with_container(container),
    {
        let mut options = self.0;
        options.container = Some(container);
        OptionsBuilder(options)
    }

    /// Set the Bit Rate feature.
    pub fn bit_rate(self, bit_rate: u32) -> (b: Self)
        ensures
            b@ == self@.with_bit_rate(bit_rate),
    {
        let mut options = self.0;
        options.bit_rate = Some(bit_rate);
        OptionsBuilder(options)
    }

    /// Finish building the [`Options`] object.
    pub fn build(self) -> (o: Options)
        ensures
            o@ == self@,
    {
        self.0
    }
}

impl Default for OptionsBuilder {
    fn default() -> (b: Self)
        ensures
            b@ == empty_options(),
    {
        Self::new()
    }
}


} // verus!
