use copper::command::{Clear, EffectGive, Give, Kill};
use copper::decimal::Decimal;
use copper::item_modifier::ItemModifier;
use copper::minecraft::{Effect, Item};
use copper::predicate::Predicate;
use copper::prelude::{at_a, at_s, Datapack, Identifier};
use copper::provider::NumberProvider;

#[test]
fn effect_give_all_defaults_prints_nothing_optional() {
    let mut f = Datapack::new("o").function(&Identifier::new("t", vec!["f".to_string()]));
    f.run(EffectGive(at_s(), Effect::Speed));
    assert_eq!(f.lines[0], "effect give @s speed");
}

#[test]
fn effect_give_trailing_flag_prints_earlier_defaults() {
    let mut f = Datapack::new("o").function(&Identifier::new("t", vec!["f".to_string()]));
    f.run(EffectGive {
        hide_particles: true,
        ..EffectGive(at_s(), Effect::Speed)
    });
    assert_eq!(f.lines[0], "effect give @s speed 30 0 true");
}

#[test]
fn effect_give_middle_deviation_prints_up_to_it() {
    let mut f = Datapack::new("o").function(&Identifier::new("t", vec!["f".to_string()]));
    f.run(EffectGive {
        amplifier: 2,
        ..EffectGive(at_a(), Effect::Poison)
    });
    assert_eq!(f.lines[0], "effect give @a poison 30 2");
    f.run(EffectGive {
        seconds: 10,
        ..EffectGive(at_a(), Effect::Poison)
    });
    assert_eq!(f.lines[1], "effect give @a poison 10");
}

#[test]
fn give_command_end_to_end() {
    let mut f = Datapack::new("o").function(&Identifier::new("t", vec!["f".to_string()]));
    f.run(Give {
        count: 50,
        ..Give(at_a().tag("foo", true), Item::Dispenser)
    });
    assert_eq!(f.lines[0], "give @a[tag=foo] dispenser 50");
}

#[test]
fn give_count_of_one_is_elided() {
    let mut f = Datapack::new("o").function(&Identifier::new("t", vec!["f".to_string()]));
    f.run(Give(at_s(), Item::Apple));
    assert_eq!(f.lines[0], "give @s apple");
}

#[test]
fn kill_prints_target_only_when_not_default() {
    let mut f = Datapack::new("o").function(&Identifier::new("t", vec!["f".to_string()]));
    f.run(Kill());
    f.run(Kill { target: at_a() });
    assert_eq!(f.lines[0], "kill");
    assert_eq!(f.lines[1], "kill @a");
}

#[test]
fn clear_with_item_prints_default_target_before_it() {
    let mut f = Datapack::new("o").function(&Identifier::new("t", vec!["f".to_string()]));
    f.run(Clear {
        item: Some((Item::Stone, None)),
        ..Clear()
    });
    assert_eq!(f.lines[0], "clear @s stone");
}

#[test]
fn datapack_plans_paths_and_contents() {
    let pack = Datapack::new("build/MyPack");
    let artifact = pack.item_modifier(
        &Identifier::new("pack", vec!["halve".to_string()]),
        &ItemModifier::SetCount {
            count: NumberProvider::Constant(1),
            add: false,
        },
    );
    assert_eq!(artifact.path, "build/MyPack/data/pack/item_modifiers/halve.json");
    assert_eq!(artifact.contents, "{\"function\":\"set_count\",\"count\":1}");

    let pred = pack.predicate(
        &Identifier::new("pack", vec!["half_chance".to_string()]),
        &Predicate::RandomChance {
            chance: Decimal::from_millis(500),
        },
    );
    assert_eq!(pred.path, "build/MyPack/data/pack/predicates/half_chance.json");
    assert_eq!(pred.contents, "{\"condition\":\"random_chance\",\"chance\":0.5}");

    assert_eq!(
        copper::datapack::pack_mcmeta(),
        "{\n    \"pack\": {\n        \"pack_format\": 7,\n        \"description\": \"Copper datapack\"\n    }\n}\n"
    );
}

#[test]
fn score_lines_render_each_operation() {
    let s = copper::score::ScoreValue::new("#x", "global");
    let t = copper::score::ScoreValue::new("#y", "global");
    assert_eq!(s.set_to(-7), "scoreboard players set #x global -7");
    assert_eq!(s.set(&t), "scoreboard players operation #x global = #y global");
    assert_eq!(s.add_const(2), "scoreboard players add #x global 2");
    assert_eq!(s.sub_const(2), "scoreboard players remove #x global 2");
    assert_eq!(s.mul_score(&t), "scoreboard players operation #x global *= #y global");
    assert_eq!(s.div_score(&t), "scoreboard players operation #x global /= #y global");
    assert_eq!(s.min_score(&t), "scoreboard players operation #x global < #y global");
    assert_eq!(s.max_score(&t), "scoreboard players operation #x global > #y global");
    assert_eq!(s.swap(&t), "scoreboard players operation #x global >< #y global");
}
