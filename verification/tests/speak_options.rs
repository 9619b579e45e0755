use deepgram::speak::options::{Container, Encoding, Model, Options, OptionsBuilder};

use deepgram::text::u32_decimal;

#[test]
fn urlencoded_doc_example() {
    let options = Options::builder().model(Model::AuraArcasEn).encoding(Encoding::Flac).build();
    assert_eq!(&options.urlencoded().unwrap(), "model=aura-arcas-en&encoding=flac");
}

#[test]
fn urlencoded_all_features_in_fixed_order() {
    let options = OptionsBuilder::new()
        .bit_rate(48000)
        .container(Container::Wav)
        .sample_rate(16000)
        .encoding(Encoding::Linear16)
        .model(Model::Aura2ThaliaEn)
        .build();
    assert_eq!(
        options.urlencoded().unwrap(),
        "model=aura-2-thalia-en&encoding=linear16&sample_rate=16000&container=wav&bit_rate=48000"
    );
}

#[test]
fn urlencoded_empty_options() {
    let options = OptionsBuilder::default().build();
    assert_eq!(options.urlencoded().unwrap(), "");
    assert!(options.query_pairs().is_empty());
}

#[test]
fn urlencoded_encodes_custom_values() {
    let options = Options::builder()
        .model(Model::CustomId("my model/é".into()))
        .container(Container::NoContainer)
        .build();
    assert_eq!(options.urlencoded().unwrap(), "model=my+model%2F%C3%A9&container=none");
}

#[test]
fn last_setting_wins() {
    let options = Options::builder().sample_rate(8000).sample_rate(24000).build();
    assert_eq!(options.urlencoded().unwrap(), "sample_rate=24000");
}

#[test]
fn model_and_format_names() {
    assert_eq!(Model::AuraAsteriaEn.as_ref(), "aura-asteria-en");
    assert_eq!(Model::Aura2CarinaEs.as_ref(), "aura-2-carina-es");
    assert_eq!(Model::CustomId("x-1".into()).as_ref(), "x-1");
    assert_eq!(Encoding::Mulaw.as_str(), "mulaw");
    assert_eq!(Encoding::Aac.as_str(), "aac");
    assert_eq!(Encoding::CustomEncoding("pcm".into()).as_str(), "pcm");
    assert_eq!(Container::Ogg.as_str(), "ogg");
    assert_eq!(Container::NoContainer.as_str(), "none");
    assert_eq!(Container::CustomContainer("mkv".into()).as_str(), "mkv");
}

#[test]
fn decimal_rendering() {
    assert_eq!(u32_decimal(0), "0");
    assert_eq!(u32_decimal(7), "7");
    assert_eq!(u32_decimal(8000), "8000");
    assert_eq!(u32_decimal(u32::MAX), "4294967295");
}

#[test]
fn setters_in_any_order_give_the_same_options() {
    let a = OptionsBuilder::new()
        .model(Model::AuraLunaEn)
        .encoding(Encoding::Opus)
        .sample_rate(48000)
        .container(Container::Ogg)
        .bit_rate(64000)
        .build();
    let b = OptionsBuilder::new()
        .bit_rate(64000)
        .container(Container::Ogg)
        .sample_rate(48000)
        .encoding(Encoding::Opus)
        .model(Model::AuraLunaEn)
        .build();
    assert_eq!(a, b);
}

#[test]
fn builtin_model_ids_are_distinct() {
    let models = [
        Model::AuraAsteriaEn, Model::AuraLunaEn, Model::AuraStellaEn, Model::AuraAthenaEn, Model::AuraHeraEn,
        Model::AuraOrionEn, Model::AuraArcasEn, Model::AuraPerseusEn, Model::AuraAngusEn, Model::AuraOrpheusEn,
        Model::AuraHeliosEn, Model::AuraZeusEn, Model::Aura2ThaliaEn, Model::Aura2AndromedaEn, Model::Aura2ArcasEn,
        Model::Aura2AsteriaEn, Model::Aura2AthenaEn, Model::Aura2HeraEn, Model::Aura2LunaEn, Model::Aura2OrionEn,
        Model::Aura2OrpheusEn, Model::Aura2PerseusEn, Model::Aura2StellaEn, Model::Aura2HeliosEn, Model::Aura2ZeusEn,
        Model::Aura2AngusEn, Model::Aura2SirioEs, Model::Aura2HelenaEs, Model::Aura2NestorEs, Model::Aura2CarinaEs,
    ];
    let ids: std::collections::HashSet<&str> = models.iter().map(|m| m.as_ref()).collect();
    assert_eq!(ids.len(), models.len());
    assert!(models.iter().all(|m| m.as_ref().starts_with("aura-")));
    assert_eq!(models.iter().filter(|m| m.as_ref().starts_with("aura-2-")).count(), 18);
}
