use copper::command::{Clear, EffectClear, EffectGive, Give, Kill, Setblock};
use copper::coord::{Coordinate, Coordinates};
use copper::decimal::Decimal;
use copper::minecraft::{Block, Effect, Item};
use copper::prelude::{at_a, at_s, Datapack, Identifier};
use copper::provider::{provider_to_json, NumberProvider, ScoreTarget};
use copper::selector::GameMode;

#[test]
pub fn test() {
    let pack = Datapack::new("./out/Test");
    let mut foo = pack.function(&Identifier::new("test", vec!["foo".to_string()]));
    foo.run(Give(at_a(), Item::Dirt));
    foo.run(Give {
        count: 50,
        ..Give(at_s().tag("foo", true), Item::Dispenser)
    });
    let zero = Decimal::from_millis(0);
    foo.run(Setblock(
        Coordinates::Mixed(
            Coordinate::Relative(zero),
            Coordinate::Relative(zero),
            Coordinate::Relative(zero),
        ),
        Block::DiamondBlock,
    ));
    foo.run(Setblock(
        Coordinates::Local(zero, zero, Decimal::whole(5)),
        Block::Air,
    ));
    foo.run(Kill {
        target: at_a().level(3, 5),
    });
    foo.run(Kill());
    foo.run(Clear());
    foo.run(Clear {
        target: at_a().game_mode(GameMode::Survival, true),
        item: Some((Item::Stone, Some(3))),
    });
    foo.run(EffectGive {
        target: at_s(),
        effect: Effect::Regeneration,
        seconds: 1000000,
        amplifier: 255,
        hide_particles: true,
    });
    foo.run(EffectGive(at_a(), Effect::Blindness));
    foo.run(EffectGive {
        amplifier: 3,
        ..EffectGive(at_s(), Effect::Absorption)
    });
    foo.run(EffectClear());
    foo.run(EffectClear {
        effect: Some(Effect::Blindness),
        ..EffectClear()
    });
    let x = foo.score("#x", "global");
    let y = foo.score("#y", "global");
    foo.run_line(y.set_to(5));
    foo.run_line(x.add_const(5));
    foo.run_line(x.sub_score(&y));

    assert_eq!(foo.path, "./out/Test/data/test/functions/foo.mcfunction");
    let expected = vec![
        "give @a dirt",
        "give @s[tag=foo] dispenser 50",
        "setblock ~ ~ ~ diamond_block",
        "setblock ^ ^ ^5 air",
        "kill @a[level=3..5]",
        "kill",
        "clear",
        "clear @a[gamemode=survival] stone 3",
        "effect give @s regeneration 1000000 255 true",
        "effect give @a blindness",
        "effect give @s absorption 30 3",
        "effect clear",
        "effect clear @s blindness",
        "scoreboard players set #y global 5",
        "scoreboard players add #x global 5",
        "scoreboard players operation #x global -= #y global",
    ];
    assert_eq!(foo.lines.len(), expected.len());
    for (line, want) in foo.lines.iter().zip(expected.iter()) {
        assert_eq!(line, want);
    }

    let num = NumberProvider::<i64>::Score {
        target: ScoreTarget::Fixed("foo".to_string()),
        score: "bar".to_string(),
        scale: Decimal::whole(1),
    };
    let rendered = provider_to_json(&num).render();
    assert_eq!(
        rendered,
        "{\"type\":\"score\",\"target\":{\"type\":\"fixed\",\"name\":\"foo\"},\"score\":\"bar\"}"
    );
    println!("{}", rendered);
}
