use copper::coord::{Coordinate, Coordinates};
use copper::decimal::Decimal;
use copper::ident::Identifier;
use copper::minecraft::Entity;
use copper::json::Json;
use copper::selector::{at_a, at_e, at_s, SelectorSort};

fn dec(millis: i64) -> Decimal {
    Decimal::from_millis(millis)
}

#[test]
fn coordinate_relative_zero_renders_bare_tilde() {
    let c = Coordinates::Mixed(
        Coordinate::Relative(dec(0)),
        Coordinate::Relative(dec(5000)),
        Coordinate::Absolute(dec(3000)),
    );
    assert_eq!(c.render(), "~ ~5 3");
}

#[test]
fn coordinate_fractional_values_render_their_literal() {
    let c = Coordinates::Mixed(
        Coordinate::Absolute(dec(500)),
        Coordinate::Relative(dec(-2500)),
        Coordinate::Absolute(dec(-12050)),
    );
    assert_eq!(c.render(), "0.5 ~-2.5 -12.05");
}

#[test]
fn local_coordinates_elide_zero_axes() {
    let c = Coordinates::Local(dec(0), dec(0), dec(5000));
    assert_eq!(c.render(), "^ ^ ^5");
}

#[test]
fn local_coordinates_render_set_axes() {
    let c = Coordinates::Local(dec(1500), dec(0), dec(-2000));
    assert_eq!(c.render(), "^1.5 ^ ^-2");
}

#[test]
fn bare_selector_renders_without_brackets() {
    assert_eq!(at_a().render(), "@a");
    assert_eq!(at_s().render(), "@s");
}

#[test]
fn selector_with_tag_renders_bracketed() {
    assert_eq!(at_a().tag("foo", true).render(), "@a[tag=foo]");
}

#[test]
fn selector_criteria_render_in_declared_order() {
    let s = at_e()
        .tag("boss", false)
        .limit(1)
        .sort(SelectorSort::Nearest)
        .entity(Entity::Cow, true);
    assert_eq!(s.render(), "@e[limit=1,sort=nearest,type=cow,tag=!boss]");
}

#[test]
fn selector_negated_and_ranged_criteria() {
    let s = at_a()
        .level(3, 5)
        .game_mode(copper::selector::GameMode::Spectator, false)
        .name("Grumm", true)
        .x_rot(0, 90)
        .y_rot(180, 270);
    assert_eq!(
        s.render(),
        "@a[level=3..5,gamemode=!spectator,name=Grumm,x_rotation=0..90,y_rotation=180..270]"
    );
}

#[test]
fn selector_equality_is_structural() {
    let a = at_a().tag("foo", true).limit(2);
    let b = at_a().limit(2).tag("foo", true);
    assert_eq!(a, b);
    let c = at_e().tag("foo", true).limit(2);
    assert!(a != c);
    let d = at_a().tag("foo", false).limit(2);
    assert!(a != d);
    assert_eq!(at_s(), at_s());
}

#[test]
fn identifier_canonical_and_path() {
    let id = Identifier::new(
        "pack",
        vec!["gadgets".to_string(), "doors".to_string(), "open".to_string()],
    );
    assert_eq!(id.canonical(), "pack:gadgets/doors/open");
    assert_eq!(
        id.join("root/data", "functions", "mcfunction"),
        "root/data/pack/functions/gadgets/doors/open.mcfunction"
    );
}

#[test]
fn identifier_without_folders() {
    let id = Identifier::new("minecraft", vec!["stone".to_string()]);
    assert_eq!(id.canonical(), "minecraft:stone");
    assert_eq!(id.join("d", "predicates", "json"), "d/minecraft/predicates/stone.json");
}

#[test]
fn decimal_display_elides_the_point_for_whole_values() {
    assert_eq!(Decimal::whole(5).display_string(), "5");
    assert_eq!(Decimal::from_millis(-50).display_string(), "-0.05");
    assert_eq!(Decimal::from_millis(1230).display_string(), "1.23");
    assert_eq!(Decimal::from_millis(0).display_string(), "0");
}

#[test]
fn extreme_integers_render_fully() {
    assert_eq!(Json::Int(i64::MIN).render(), "-9223372036854775808");
    assert_eq!(Json::Int(i64::MAX).render(), "9223372036854775807");
    assert_eq!(
        Decimal::from_millis(i64::MIN).display_string(),
        "-9223372036854775.808"
    );
}

#[test]
fn json_strings_escape_control_characters() {
    assert_eq!(Json::Str("a\u{1}b".to_string()).render(), "\"a\\u0001b\"");
    assert_eq!(Json::Str("a\nb\tc".to_string()).render(), "\"a\\nb\\tc\"");
    assert_eq!(Json::Str("say \"hi\"".to_string()).render(), "\"say \\\"hi\\\"\"");
}
