use copper::decimal::Decimal;
use copper::encode::Encode;
use copper::ident::Identifier;
use copper::item_modifier::{ItemModifier, Range};
use copper::json::Json;
use copper::minecraft::Enchant;
use copper::predicate::{
    AdvancementPredicate, DistancePredicate, EntityPredicate, EquipmentPredicate, ItemPredicate,
    OptionalRange, PlayerPredicate, Predicate,
};
use copper::provider::{provider_to_json, NumberProvider, PlayerContextEntity, ScoreTarget};

fn dec(millis: i64) -> Decimal {
    Decimal::from_millis(millis)
}

#[test]
fn constant_provider_encodes_as_bare_scalar() {
    let n = NumberProvider::<i64>::Constant(5);
    assert_eq!(provider_to_json(&n).render(), "5");
}

#[test]
fn constant_decimal_provider_keeps_decimal_point() {
    let n = NumberProvider::<Decimal>::Constant(dec(2000));
    assert_eq!(provider_to_json(&n).render(), "2.0");
}

#[test]
fn uniform_provider_encodes_as_object() {
    let n = NumberProvider::<i64>::Uniform {
        min: Box::new(NumberProvider::Constant(1)),
        max: Box::new(NumberProvider::Constant(6)),
    };
    assert_eq!(
        provider_to_json(&n).render(),
        "{\"type\":\"uniform\",\"min\":1,\"max\":6}"
    );
}

#[test]
fn binomial_provider_nests_both_kinds() {
    let n = NumberProvider::<i64>::Binomial {
        n: Box::new(NumberProvider::Constant(8)),
        p: Box::new(NumberProvider::Constant(dec(500))),
    };
    assert_eq!(
        provider_to_json(&n).render(),
        "{\"type\":\"binomial\",\"n\":8,\"p\":0.5}"
    );
}

#[test]
fn score_provider_with_unit_scale_omits_scale() {
    let n = NumberProvider::<i64>::Score {
        target: ScoreTarget::Fixed("foo".to_string()),
        score: "bar".to_string(),
        scale: Decimal::whole(1),
    };
    assert_eq!(
        provider_to_json(&n).render(),
        "{\"type\":\"score\",\"target\":{\"type\":\"fixed\",\"name\":\"foo\"},\"score\":\"bar\"}"
    );
}

#[test]
fn score_provider_with_other_scale_keeps_scale() {
    let n = NumberProvider::<i64>::Score {
        target: ScoreTarget::Context(copper::provider::ContextEntity::Killer),
        score: "bar".to_string(),
        scale: Decimal::whole(2),
    };
    assert_eq!(
        provider_to_json(&n).render(),
        "{\"type\":\"score\",\"target\":\"killer\",\"score\":\"bar\",\"scale\":2.0}"
    );
}

#[test]
fn set_count_without_add_omits_the_flag() {
    let m = ItemModifier::SetCount {
        count: NumberProvider::Constant(3),
        add: false,
    };
    assert_eq!(m.to_json().render(), "{\"function\":\"set_count\",\"count\":3}");
}

#[test]
fn set_count_with_add_keeps_the_flag() {
    let m = ItemModifier::SetCount {
        count: NumberProvider::Constant(3),
        add: true,
    };
    assert_eq!(
        m.to_json().render(),
        "{\"function\":\"set_count\",\"count\":3,\"add\":true}"
    );
}

#[test]
fn both_limit_count_variants_share_the_discriminant() {
    let exact = ItemModifier::LimitCountExact {
        limit: NumberProvider::Constant(8),
    };
    assert_eq!(
        exact.to_json().render(),
        "{\"function\":\"limit_count\",\"limit\":8}"
    );
    let ranged = ItemModifier::LimitCountRange {
        limit: Range {
            min: NumberProvider::Constant(1),
            max: NumberProvider::Constant(8),
        },
    };
    assert_eq!(
        ranged.to_json().render(),
        "{\"function\":\"limit_count\",\"limit\":{\"min\":1,\"max\":8}}"
    );
}

#[test]
fn copy_name_carries_its_fixed_source() {
    assert_eq!(
        ItemModifier::CopyName.to_json().render(),
        "{\"function\":\"copy_name\",\"source\":\"block_entity\"}"
    );
}

#[test]
fn parameterless_modifiers_carry_only_the_discriminant() {
    assert_eq!(
        ItemModifier::ExplosionDecay.to_json().render(),
        "{\"function\":\"explosion_decay\"}"
    );
    assert_eq!(
        ItemModifier::FurnaceSmelt.to_json().render(),
        "{\"function\":\"furnace_smelt\"}"
    );
}

#[test]
fn set_enchantments_keys_by_canonical_name_in_source_order() {
    let m = ItemModifier::SetEnchantments {
        enchantments: vec![
            (Enchant::Sharpness, NumberProvider::Constant(5)),
            (Enchant::Looting, NumberProvider::Constant(3)),
        ],
        add: false,
    };
    assert_eq!(
        m.to_json().render(),
        "{\"function\":\"set_enchantments\",\"enchantments\":{\"sharpness\":5,\"looting\":3}}"
    );
}

#[test]
fn set_loot_table_omits_unset_seed() {
    let m = ItemModifier::SetLootTable {
        name: Identifier::new("pack", vec!["gifts".to_string()]),
        seed: None,
    };
    assert_eq!(
        m.to_json().render(),
        "{\"function\":\"set_loot_table\",\"name\":\"pack:gifts\"}"
    );
    let seeded = ItemModifier::SetLootTable {
        name: Identifier::new("pack", vec!["gifts".to_string()]),
        seed: Some(42),
    };
    assert_eq!(
        seeded.to_json().render(),
        "{\"function\":\"set_loot_table\",\"name\":\"pack:gifts\",\"seed\":42}"
    );
}

#[test]
fn string_values_escape_quotes_and_controls() {
    let m = ItemModifier::SetNbt {
        tag: "{display:{Name:\"a\\nb\"}}".to_string(),
    };
    assert_eq!(
        m.to_json().render(),
        "{\"function\":\"set_nbt\",\"tag\":\"{display:{Name:\\\"a\\\\nb\\\"}}\"}"
    );
    let j = Json::Str("tab\there".to_string());
    assert_eq!(j.render(), "\"tab\\there\"");
}

#[test]
fn inverted_random_chance_document() {
    let p = Predicate::Inverted {
        term: Box::new(Predicate::RandomChance { chance: dec(500) }),
    };
    assert_eq!(
        copper::predicate::predicate_to_json(&p).render(),
        "{\"condition\":\"inverted\",\"term\":{\"condition\":\"random_chance\",\"chance\":0.5}}"
    );
}

#[test]
fn alternative_renders_terms_in_order() {
    let p = Predicate::Alternative {
        terms: vec![
            Predicate::SurvivesExplosion,
            Predicate::KilledByPlayer { inverse: true },
            Predicate::KilledByPlayer { inverse: false },
        ],
    };
    assert_eq!(
        copper::predicate::predicate_to_json(&p).render(),
        "{\"condition\":\"alternative\",\"terms\":[{\"condition\":\"survives_explosion\"},{\"condition\":\"killed_by_player\",\"inverse\":true},{\"condition\":\"killed_by_player\"}]}"
    );
}

#[test]
fn weather_check_omits_unset_fields() {
    let p = Predicate::WeatherCheck {
        raining: Some(true),
        thundering: None,
    };
    assert_eq!(
        copper::predicate::predicate_to_json(&p).render(),
        "{\"condition\":\"weather_check\",\"raining\":true}"
    );
}

#[test]
fn entity_properties_with_nested_records() {
    let p = Predicate::EntityProperties {
        entity: PlayerContextEntity::This,
        predicate: EntityPredicate {
            distance: Some(DistancePredicate {
                horizontal: Some(copper::predicate::Range {
                    min: dec(0),
                    max: dec(10000),
                }),
                ..copper::prelude::default()
            }),
            equipment: Some(EquipmentPredicate {
                mainhand: Some(ItemPredicate {
                    count: Some(OptionalRange::Exact(32)),
                    ..copper::prelude::default()
                }),
                ..copper::prelude::default()
            }),
            ..copper::prelude::default()
        },
    };
    assert_eq!(
        copper::predicate::predicate_to_json(&p).render(),
        "{\"condition\":\"entity_properties\",\"entity\":\"this\",\"predicate\":{\"distance\":{\"horizontal\":{\"min\":0.0,\"max\":10.0}},\"equipment\":{\"mainhand\":{\"count\":32}}}}"
    );
}

#[test]
fn advancement_entries_take_their_variant_shape() {
    let p = Predicate::EntityProperties {
        entity: PlayerContextEntity::KillerPlayer,
        predicate: EntityPredicate {
            player: Some(PlayerPredicate {
                advancements: Some(vec![
                    (
                        Identifier::new("story", vec!["root".to_string()]),
                        AdvancementPredicate::Complete(true),
                    ),
                    (
                        Identifier::new("story", vec!["iron_tools".to_string()]),
                        AdvancementPredicate::Criteria(vec![("has_iron".to_string(), false)]),
                    ),
                ]),
                ..copper::prelude::default()
            }),
            ..copper::prelude::default()
        },
    };
    assert_eq!(
        copper::predicate::predicate_to_json(&p).render(),
        "{\"condition\":\"entity_properties\",\"entity\":\"killer_player\",\"predicate\":{\"player\":{\"advancements\":{\"story:root\":true,\"story:iron_tools\":{\"has_iron\":false}}}}}"
    );
}

#[test]
fn location_check_renames_offset_keys() {
    let p = Predicate::LocationCheck {
        offset_x: Some(1),
        offset_y: None,
        offset_z: Some(-2),
        predicate: copper::prelude::default(),
    };
    assert_eq!(
        copper::predicate::predicate_to_json(&p).render(),
        "{\"condition\":\"location_check\",\"offsetX\":1,\"offsetZ\":-2,\"predicate\":{}}"
    );
}
