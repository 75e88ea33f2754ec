use copper::decimal::Decimal;
use copper::encode::Encode;
use copper::ident::Identifier;
use copper::item_modifier::{
    ApplyBonusFormula, AttributeModifier, AttributeOperation, AttributeSlot, BannerPattern,
    CopyNbtOperation, CopyNbtOperationType, CopyNbtSource, ItemModifier, StatusEffect,
};
use copper::minecraft::{Block, Color, Effect, Enchant, Entity, Item, Structure};
use copper::predicate::{
    predicate_to_json, BlockPredicate, BlockstateValue, DamagePredicate, EffectPredicate,
    EnchantmentPredicate, EntityFlags, EntityPredicate, ItemPredicate, LocationPredicate,
    OptionalRange, PlayerPredicate, Predicate, Range, StatisticPredicate,
};
use copper::provider::{NbtContextEntity, NumberProvider, PlayerContextEntity};

fn dec(millis: i64) -> Decimal {
    Decimal::from_millis(millis)
}

fn id(namespace: &str, parts: &[&str]) -> Identifier {
    Identifier::new(namespace, parts.iter().map(|p| p.to_string()).collect())
}

#[test]
fn apply_bonus_binomial_formula() {
    let m = ItemModifier::ApplyBonus {
        enchantment: Enchant::Fortune,
        formula: ApplyBonusFormula::BinomialWithBonusCount {
            extra: 3,
            probability: dec(200),
        },
    };
    assert_eq!(
        m.to_json().render(),
        "{\"function\":\"apply_bonus\",\"enchantment\":\"fortune\",\"formula\":\"binomial_with_bonus_count\",\"parameters\":{\"extra\":3,\"probability\":0.2}}"
    );
}

#[test]
fn apply_bonus_uniform_and_ore_drops_formulas() {
    let uniform = ItemModifier::ApplyBonus {
        enchantment: Enchant::Fortune,
        formula: ApplyBonusFormula::UniformBonusCount {
            bonus_multiplier: Decimal::whole(1),
        },
    };
    assert_eq!(
        uniform.to_json().render(),
        "{\"function\":\"apply_bonus\",\"enchantment\":\"fortune\",\"formula\":\"uniform_bonus_count\",\"parameters\":{\"bonusMultiplier\":1.0}}"
    );
    let ore = ItemModifier::ApplyBonus {
        enchantment: Enchant::Fortune,
        formula: ApplyBonusFormula::OreDrops,
    };
    assert_eq!(
        ore.to_json().render(),
        "{\"function\":\"apply_bonus\",\"enchantment\":\"fortune\",\"formula\":\"ore_drops\",\"parameters\":{}}"
    );
}

#[test]
fn copy_nbt_from_storage() {
    let m = ItemModifier::CopyNbt {
        source: CopyNbtSource::Storage {
            source: id("pack", &["vault"]),
        },
        ops: vec![CopyNbtOperation {
            source: "Items".to_string(),
            target: "inv".to_string(),
            op: CopyNbtOperationType::Replace,
        }],
    };
    assert_eq!(
        m.to_json().render(),
        "{\"function\":\"copy_nbt\",\"source\":{\"storage\":{\"source\":\"pack:vault\"}},\"ops\":[{\"source\":\"Items\",\"target\":\"inv\",\"op\":\"replace\"}]}"
    );
}

#[test]
fn copy_nbt_from_context_entity() {
    let m = ItemModifier::CopyNbt {
        source: CopyNbtSource::Context {
            target: NbtContextEntity::BlockEntity,
        },
        ops: vec![],
    };
    assert_eq!(
        m.to_json().render(),
        "{\"function\":\"copy_nbt\",\"source\":{\"context\":{\"target\":\"block_entity\"}},\"ops\":[]}"
    );
}

#[test]
fn copy_state_lists_properties() {
    let m = ItemModifier::CopyState {
        block: Block::Campfire,
        properties: vec!["lit".to_string(), "waterlogged".to_string()],
    };
    assert_eq!(
        m.to_json().render(),
        "{\"function\":\"copy_state\",\"block\":\"campfire\",\"properties\":[\"lit\",\"waterlogged\"]}"
    );
}

#[test]
fn enchant_randomly_omits_unset_pool() {
    let all = ItemModifier::EnchantRandomly { enchantments: None };
    assert_eq!(all.to_json().render(), "{\"function\":\"enchant_randomly\"}");
    let pool = ItemModifier::EnchantRandomly {
        enchantments: Some(vec![Enchant::SilkTouch]),
    };
    assert_eq!(
        pool.to_json().render(),
        "{\"function\":\"enchant_randomly\",\"enchantments\":[\"silk_touch\"]}"
    );
}

#[test]
fn enchant_with_levels_keeps_plain_bool() {
    let m = ItemModifier::EnchantWithLevels {
        treasure: false,
        levels: NumberProvider::Constant(30),
    };
    assert_eq!(
        m.to_json().render(),
        "{\"function\":\"enchant_with_levels\",\"treasure\":false,\"levels\":30}"
    );
}

#[test]
fn exploration_map_prints_every_field() {
    let m = ItemModifier::ExplorationMap {
        destination: Structure::Monument,
        decoration: "red_x".to_string(),
        zoom: 2,
        search_radius: 50,
        skip_existing_chunks: false,
    };
    assert_eq!(
        m.to_json().render(),
        "{\"function\":\"exploration_map\",\"destination\":\"monument\",\"decoration\":\"red_x\",\"zoom\":2,\"search_radius\":50,\"skip_existing_chunks\":false}"
    );
}

#[test]
fn fill_player_head_names_its_entity() {
    let m = ItemModifier::FillPlayerHead {
        entity: PlayerContextEntity::This,
    };
    assert_eq!(
        m.to_json().render(),
        "{\"function\":\"fill_player_head\",\"entity\":\"this\"}"
    );
}

#[test]
fn looting_enchant_keeps_plain_limit() {
    let m = ItemModifier::LootingEnchant {
        count: NumberProvider::Constant(1),
        limit: 0,
    };
    assert_eq!(
        m.to_json().render(),
        "{\"function\":\"looting_enchant\",\"count\":1,\"limit\":0}"
    );
}

#[test]
fn set_attributes_renders_each_modifier() {
    let m = ItemModifier::SetAttributes {
        modifiers: vec![AttributeModifier {
            name: "boost".to_string(),
            attribute: "generic.max_health".to_string(),
            operation: AttributeOperation::Addition,
            amount: NumberProvider::Constant(Decimal::whole(2)),
            id: Some("a-b-c".to_string()),
            slot: AttributeSlot::Head,
        }],
    };
    assert_eq!(
        m.to_json().render(),
        "{\"function\":\"set_attributes\",\"modifiers\":[{\"name\":\"boost\",\"attribute\":\"generic.max_health\",\"operation\":\"addition\",\"amount\":2.0,\"id\":\"a-b-c\",\"slot\":\"head\"}]}"
    );
}

#[test]
fn attribute_modifier_without_id_omits_it() {
    let m = ItemModifier::SetAttributes {
        modifiers: vec![AttributeModifier {
            name: "slow".to_string(),
            attribute: "generic.movement_speed".to_string(),
            operation: AttributeOperation::MultiplyTotal,
            amount: NumberProvider::Constant(dec(-500)),
            id: None,
            slot: AttributeSlot::Feet,
        }],
    };
    assert_eq!(
        m.to_json().render(),
        "{\"function\":\"set_attributes\",\"modifiers\":[{\"name\":\"slow\",\"attribute\":\"generic.movement_speed\",\"operation\":\"multiply_total\",\"amount\":-0.5,\"slot\":\"feet\"}]}"
    );
}

#[test]
fn set_banner_pattern_flag_comes_before_patterns() {
    let appended = ItemModifier::SetBannerPattern {
        append: true,
        patterns: vec![BannerPattern {
            pattern: "stripe_top".to_string(),
            color: Color::Lime,
        }],
    };
    assert_eq!(
        appended.to_json().render(),
        "{\"function\":\"set_banner_pattern\",\"append\":true,\"patterns\":[{\"pattern\":\"stripe_top\",\"color\":\"lime\"}]}"
    );
    let replaced = ItemModifier::SetBannerPattern {
        append: false,
        patterns: vec![],
    };
    assert_eq!(
        replaced.to_json().render(),
        "{\"function\":\"set_banner_pattern\",\"patterns\":[]}"
    );
}

#[test]
fn set_contents_lists_entries() {
    let m = ItemModifier::SetContents {
        entries: vec!["a".to_string(), "b".to_string()],
    };
    assert_eq!(
        m.to_json().render(),
        "{\"function\":\"set_contents\",\"entries\":[\"a\",\"b\"]}"
    );
}

#[test]
fn set_damage_omits_false_add() {
    let m = ItemModifier::SetDamage {
        damage: NumberProvider::Constant(dec(250)),
        add: false,
    };
    assert_eq!(
        m.to_json().render(),
        "{\"function\":\"set_damage\",\"damage\":0.25}"
    );
}

#[test]
fn set_lore_keeps_field_order() {
    let m = ItemModifier::SetLore {
        lore: vec!["hello".to_string()],
        entity: PlayerContextEntity::This,
        replace: true,
    };
    assert_eq!(
        m.to_json().render(),
        "{\"function\":\"set_lore\",\"lore\":[\"hello\"],\"entity\":\"this\",\"replace\":true}"
    );
}

#[test]
fn set_name_names_its_entity() {
    let m = ItemModifier::SetName {
        name: "Fancy".to_string(),
        entity: PlayerContextEntity::Killer,
    };
    assert_eq!(
        m.to_json().render(),
        "{\"function\":\"set_name\",\"name\":\"Fancy\",\"entity\":\"killer\"}"
    );
}

#[test]
fn set_stew_effect_lists_effects() {
    let m = ItemModifier::SetStewEffect {
        effects: vec![StatusEffect {
            ty: Effect::Poison,
            duration: NumberProvider::Constant(100),
        }],
    };
    assert_eq!(
        m.to_json().render(),
        "{\"function\":\"set_stew_effect\",\"effects\":[{\"ty\":\"poison\",\"duration\":100}]}"
    );
}

#[test]
fn block_state_property_keys_by_property() {
    let p = Predicate::BlockStateProperty {
        block: Block::Campfire,
        properties: Some(vec![("lit".to_string(), "true".to_string())]),
    };
    assert_eq!(
        predicate_to_json(&p).render(),
        "{\"condition\":\"block_state_property\",\"block\":\"campfire\",\"properties\":{\"lit\":\"true\"}}"
    );
    let bare = Predicate::BlockStateProperty {
        block: Block::Campfire,
        properties: None,
    };
    assert_eq!(
        predicate_to_json(&bare).render(),
        "{\"condition\":\"block_state_property\",\"block\":\"campfire\"}"
    );
}

#[test]
fn damage_source_properties_nests_entities() {
    let p = Predicate::DamageSourceProperties {
        predicate: DamagePredicate {
            is_explosion: Some(true),
            source_entity: Some(EntityPredicate {
                ty: Some(Entity::Creeper),
                ..copper::prelude::default()
            }),
            ..copper::prelude::default()
        },
    };
    assert_eq!(
        predicate_to_json(&p).render(),
        "{\"condition\":\"damage_source_properties\",\"predicate\":{\"is_explosion\":true,\"source_entity\":{\"type\":\"creeper\"}}}"
    );
}

#[test]
fn entity_scores_render_as_pair_list() {
    let p = Predicate::EntityScores {
        entity: PlayerContextEntity::This,
        scores: vec![
            (
                "kills".to_string(),
                OptionalRange::Exact(NumberProvider::Constant(3)),
            ),
            (
                "deaths".to_string(),
                OptionalRange::Range(Range {
                    min: NumberProvider::Constant(0),
                    max: NumberProvider::Constant(2),
                }),
            ),
        ],
    };
    assert_eq!(
        predicate_to_json(&p).render(),
        "{\"condition\":\"entity_scores\",\"entity\":\"this\",\"scores\":[[\"kills\",3],[\"deaths\",{\"min\":0,\"max\":2}]]}"
    );
}

#[test]
fn match_tool_orders_item_fields() {
    let p = Predicate::MatchTool {
        predicate: ItemPredicate {
            item: Some(Item::DiamondSword),
            enchantments: Some(vec![EnchantmentPredicate {
                enchantment: Enchant::Efficiency,
                levels: OptionalRange::Exact(5),
            }]),
            ..copper::prelude::default()
        },
    };
    assert_eq!(
        predicate_to_json(&p).render(),
        "{\"condition\":\"match_tool\",\"predicate\":{\"enchantments\":[{\"enchantment\":\"efficiency\",\"levels\":5}],\"item\":\"diamond_sword\"}}"
    );
}

#[test]
fn random_chance_with_looting_keeps_both_rates() {
    let p = Predicate::RandomChanceWithLooting {
        chance: dec(100),
        looting_multiplier: dec(50),
    };
    assert_eq!(
        predicate_to_json(&p).render(),
        "{\"condition\":\"random_chance_with_looting\",\"chance\":0.1,\"looting_multiplier\":0.05}"
    );
}

#[test]
fn reference_names_the_predicate() {
    let p = Predicate::Reference {
        name: id("pack", &["is_day"]),
    };
    assert_eq!(
        predicate_to_json(&p).render(),
        "{\"condition\":\"reference\",\"name\":\"pack:is_day\"}"
    );
}

#[test]
fn survives_explosion_is_tag_only() {
    assert_eq!(
        predicate_to_json(&Predicate::SurvivesExplosion).render(),
        "{\"condition\":\"survives_explosion\"}"
    );
}

#[test]
fn table_bonus_lists_chances() {
    let p = Predicate::TableBonus {
        enchantment: 3,
        chances: vec![dec(200), dec(500), Decimal::whole(1)],
    };
    assert_eq!(
        predicate_to_json(&p).render(),
        "{\"condition\":\"table_bonus\",\"enchantment\":3,\"chances\":[0.2,0.5,1.0]}"
    );
}

#[test]
fn time_check_keeps_value_then_period() {
    let p = Predicate::TimeCheck {
        value: OptionalRange::Range(Range {
            min: NumberProvider::Constant(0),
            max: NumberProvider::Constant(12000),
        }),
        period: Some(24000),
    };
    assert_eq!(
        predicate_to_json(&p).render(),
        "{\"condition\":\"time_check\",\"value\":{\"min\":0,\"max\":12000},\"period\":24000}"
    );
}

#[test]
fn value_check_collapses_exact_range() {
    let p = Predicate::ValueCheck {
        value: NumberProvider::Constant(10),
        range: OptionalRange::Exact(NumberProvider::Constant(10)),
    };
    assert_eq!(
        predicate_to_json(&p).render(),
        "{\"condition\":\"value_check\",\"value\":10,\"range\":10}"
    );
}

#[test]
fn entity_effects_and_flags_records() {
    let p = Predicate::EntityProperties {
        entity: PlayerContextEntity::This,
        predicate: EntityPredicate {
            effects: Some(vec![(
                Effect::Speed,
                EffectPredicate {
                    ambient: Some(true),
                    amplifier: Some(OptionalRange::Exact(1)),
                    ..copper::prelude::default()
                },
            )]),
            flags: Some(EntityFlags {
                is_sneaking: Some(true),
                ..copper::prelude::default()
            }),
            ..copper::prelude::default()
        },
    };
    assert_eq!(
        predicate_to_json(&p).render(),
        "{\"condition\":\"entity_properties\",\"entity\":\"this\",\"predicate\":{\"effects\":{\"speed\":{\"ambient\":true,\"amplifier\":1}},\"flags\":{\"is_sneaking\":true}}}"
    );
}

#[test]
fn location_records_nest_block_states() {
    let p = Predicate::LocationCheck {
        offset_x: None,
        offset_y: None,
        offset_z: None,
        predicate: LocationPredicate {
            biome: Some(id("minecraft", &["desert"])),
            block: Some(BlockPredicate {
                block: Some(Block::Chest),
                state: Some(vec![
                    ("facing".to_string(), BlockstateValue::Str("north".to_string())),
                    ("waterlogged".to_string(), BlockstateValue::Bool(false)),
                    ("age".to_string(), BlockstateValue::Int(3)),
                ]),
                ..copper::prelude::default()
            }),
            smokey: Some(true),
            ..copper::prelude::default()
        },
    };
    assert_eq!(
        predicate_to_json(&p).render(),
        "{\"condition\":\"location_check\",\"predicate\":{\"biome\":\"minecraft:desert\",\"block\":{\"block\":\"chest\",\"state\":{\"facing\":\"north\",\"waterlogged\":false,\"age\":3}},\"smokey\":true}}"
    );
}

#[test]
fn player_record_keeps_declared_field_order() {
    let p = Predicate::EntityProperties {
        entity: PlayerContextEntity::This,
        predicate: EntityPredicate {
            player: Some(PlayerPredicate {
                gamemode: Some(copper::selector::GameMode::Adventure),
                level: Some(OptionalRange::Exact(7)),
                recipes: Some(vec![(id("pack", &["secret"]), true)]),
                stats: Some(vec![StatisticPredicate {
                    ty: id("minecraft", &["custom"]),
                    stat: id("minecraft", &["jump"]),
                    value: OptionalRange::Exact(2),
                }]),
                ..copper::prelude::default()
            }),
            ..copper::prelude::default()
        },
    };
    assert_eq!(
        predicate_to_json(&p).render(),
        "{\"condition\":\"entity_properties\",\"entity\":\"this\",\"predicate\":{\"player\":{\"gamemode\":\"adventure\",\"level\":7,\"recipes\":{\"pack:secret\":true},\"stats\":[{\"type\":\"minecraft:custom\",\"stat\":\"minecraft:jump\",\"value\":2}]}}}"
    );
}

#[test]
fn targeted_entity_recurses() {
    let p = Predicate::EntityProperties {
        entity: PlayerContextEntity::This,
        predicate: EntityPredicate {
            targeted_entity: Some(Box::new(EntityPredicate {
                ty: Some(Entity::Player),
                ..copper::prelude::default()
            })),
            ..copper::prelude::default()
        },
    };
    assert_eq!(
        predicate_to_json(&p).render(),
        "{\"condition\":\"entity_properties\",\"entity\":\"this\",\"predicate\":{\"targeted_entity\":{\"type\":\"player\"}}}"
    );
}
