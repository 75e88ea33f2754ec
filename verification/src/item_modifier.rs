//! Item modifiers: the tagged loot-function tree.
//!
//! Every variant encodes as one JSON object whose `function` member carries
//! the variant's fixed snake_case wire name, followed by the variant's own
//! fields.  Boolean flag fields default to false and are omitted when
//! false; optional fields are omitted when unset.  Two variants share the
//! wire name `limit_count` and are told apart only by the shape of their
//! `limit` payload — a bare number against a `{min,max}` object.

use vstd::prelude::*;

use crate::decimal::Decimal;
use crate::encode::{items_rep, list_to_json, map_rep, map_to_json, Encode};
use crate::ident::Identifier;
use crate::json::{
    jval_of, lemma_obj_rep_1, lemma_obj_rep_2, lemma_obj_rep_3, lemma_obj_rep_4, lemma_obj_rep_6,
    str_val, JVal, Json, ObjBuilder,
};
use crate::minecraft::{Block, Color, Effect, Enchant, Structure};
use crate::provider::{NumberProvider, PlayerContextEntity, NbtContextEntity};

verus! {

/// An nbt operation for a copy-nbt item modifier.
#[derive(PartialEq, Eq, Structural, Clone, Copy, Debug)]
pub enum CopyNbtOperationType {
    /// Represents `replace`.
    Replace,
    /// Represents `append`.
    Append,
    /// Represents `merge`.
    Merge,
}

impl CopyNbtOperationType {
    /// The wire name of the variant.
    pub open spec fn name_spec(self) -> Seq<char> {
        match self {
            CopyNbtOperationType::Replace => "replace"@,
            CopyNbtOperationType::Append => "append"@,
            CopyNbtOperationType::Merge => "merge"@,
        }
    }

    /// The wire name of the variant.
    pub fn name(&self) -> (r: &'static str)
        ensures
            r@ == self.name_spec(),
    {
        match self {
            CopyNbtOperationType::Replace => "replace",
            CopyNbtOperationType::Append => "append",
            CopyNbtOperationType::Merge => "merge",
        }
    }
}

/// An attribute operation.
#[derive(PartialEq, Eq, Structural, Clone, Copy, Debug)]
pub enum AttributeOperation {
    /// Represents `addition`.
    Addition,
    /// Represents `multiply_base`.
    MultiplyBase,
    /// Represents `multiply_total`.
    MultiplyTotal,
}

impl AttributeOperation {
    /// The wire name of the variant.
    pub open spec fn name_spec(self) -> Seq<char> {
        match self {
            AttributeOperation::Addition => "addition"@,
            AttributeOperation::MultiplyBase => "multiply_base"@,
            AttributeOperation::MultiplyTotal => "multiply_total"@,
        }
    }

    /// The wire name of the variant.
    pub fn name(&self) -> (r: &'static str)
        ensures
            r@ == self.name_spec(),
    {
        match self {
            AttributeOperation::Addition => "addition",
            AttributeOperation::MultiplyBase => "multiply_base",
            AttributeOperation::MultiplyTotal => "multiply_total",
        }
    }
}

/// A slot an attribute modifier applies to.
#[derive(PartialEq, Eq, Structural, Clone, Copy, Debug)]
pub enum AttributeSlot {
    /// Represents `mainhand`.
    Mainhand,
    /// Represents `offhand`.
    Offhand,
    /// Represents `legs`.
    Legs,
    /// Represents `feet`.
    Feet,
    /// Represents `chest`.
    Chest,
    /// Represents `head`.
    Head,
}

impl AttributeSlot {
    /// The wire name of the variant.
    pub open spec fn name_spec(self) -> Seq<char> {
        match self {
            AttributeSlot::Mainhand => "mainhand"@,
            AttributeSlot::Offhand => "offhand"@,
            AttributeSlot::Legs => "legs"@,
            AttributeSlot::Feet => "feet"@,
            AttributeSlot::Chest => "chest"@,
            AttributeSlot::Head => "head"@,
        }
    }

    /// The wire name of the variant.
    pub fn name(&self) -> (r: &'static str)
        ensures
            r@ == self.name_spec(),
    {
        match self {
            AttributeSlot::Mainhand => "mainhand",
            AttributeSlot::Offhand => "offhand",
            AttributeSlot::Legs => "legs",
            AttributeSlot::Feet => "feet",
            AttributeSlot::Chest => "chest",
            AttributeSlot::Head => "head",
        }
    }
}

/// A formula for an apply-bonus item modifier.
pub enum ApplyBonusFormula {
    /// Binomial distribution (`n = level + extra`, `p = probability`).
    BinomialWithBonusCount {
        /// The extra trials beyond the enchantment level.
        extra: i64,
        /// The probability of success of an individual trial.
        probability: Decimal,
    },
    /// Uniform distribution (from 0 to `level * bonusMultiplier`).
    UniformBonusCount {
        /// The multiplier applied to the enchantment level.
        bonus_multiplier: Decimal,
    },
    /// The special function used for ore drops.
    OreDrops,
}

impl ApplyBonusFormula {
    /// The wire name of the formula.
    pub open spec fn name_spec(self) -> Seq<char> {
        match self {
            ApplyBonusFormula::BinomialWithBonusCount { .. } => "binomial_with_bonus_count"@,
            ApplyBonusFormula::UniformBonusCount { .. } => "uniform_bonus_count"@,
            ApplyBonusFormula::OreDrops => "ore_drops"@,
        }
    }

    /// The wire name of the formula.
    pub fn name(&self) -> (r: &'static str)
        ensures
            r@ == self.name_spec(),
    {
        match self {
            ApplyBonusFormula::BinomialWithBonusCount { .. } => "binomial_with_bonus_count",
            ApplyBonusFormula::UniformBonusCount { .. } => "uniform_bonus_count",
            ApplyBonusFormula::OreDrops => "ore_drops",
        }
    }

    /// The `parameters` object of the formula: its own fields, and nothing
    /// for the parameterless ore-drops formula.
    pub open spec fn params_rep(self) -> JVal {
        match self {
            ApplyBonusFormula::BinomialWithBonusCount { extra, probability } => JVal::Obj(
                seq![("extra"@, JVal::Int(extra)), ("probability"@, JVal::Dec(probability))],
            ),
            ApplyBonusFormula::UniformBonusCount { bonus_multiplier } => JVal::Obj(
                seq![("bonusMultiplier"@, JVal::Dec(bonus_multiplier))],
            ),
            ApplyBonusFormula::OreDrops => JVal::Obj(Seq::empty()),
        }
    }

    /// Encodes the `parameters` object.
    pub fn params_to_json(&self) -> (j: Json)
        ensures
            jval_of(j) == self.params_rep(),
    {
        match self {
            ApplyBonusFormula::BinomialWithBonusCount { extra, probability } => {
                let mut b = ObjBuilder::new();
                b.field("extra", Json::Int(*extra));
                b.field("probability", Json::Dec(*probability));
                let ghost r = b.rep();
                let j = b.done();
                proof {
                    lemma_obj_rep_2(
                        r,
                        ("extra"@, JVal::Int(*extra)),
                        ("probability"@, JVal::Dec(*probability)),
                    );
                }
                j
            },
            ApplyBonusFormula::UniformBonusCount { bonus_multiplier } => {
                let mut b = ObjBuilder::new();
                b.field("bonusMultiplier", Json::Dec(*bonus_multiplier));
                let ghost r = b.rep();
                let j = b.done();
                proof {
                    lemma_obj_rep_1(r, ("bonusMultiplier"@, JVal::Dec(*bonus_multiplier)));
                }
                j
            },
            ApplyBonusFormula::OreDrops => {
                let b = ObjBuilder::new();
                b.done()
            },
        }
    }
}

/// The source for a copy-nbt item modifier.
pub enum CopyNbtSource {
    /// Use an nbt storage.
    Storage {
        /// The path to the storage.
        source: Identifier,
    },
    /// Use nbt from one of the context's entities.
    Context {
        /// The entity to copy from.
        target: NbtContextEntity,
    },
}

impl Encode for CopyNbtSource {
    open spec fn json_rep(&self) -> JVal {
        match *self {
            CopyNbtSource::Storage { source } => JVal::Obj(
                seq![
                    ("storage"@, JVal::Obj(seq![("source"@, JVal::Str(source.canonical_chars()))])),
                ],
            ),
            CopyNbtSource::Context { target } => JVal::Obj(
                seq![("context"@, JVal::Obj(seq![("target"@, JVal::Str(target.name_spec()))]))],
            ),
        }
    }

    fn to_json(&self) -> (j: Json) {
        match self {
            CopyNbtSource::Storage { source } => {
                let mut inner = ObjBuilder::new();
                inner.field("source", Json::Str(source.canonical()));
                let ghost ri = inner.rep();
                let mut b = ObjBuilder::new();
                b.field("storage", inner.done());
                let ghost r = b.rep();
                let j = b.done();
                proof {
                    lemma_obj_rep_1(ri, ("source"@, JVal::Str(source.canonical_chars())));
                    lemma_obj_rep_1(
                        r,
                        (
                            "storage"@,
                            JVal::Obj(seq![("source"@, JVal::Str(source.canonical_chars()))]),
                        ),
                    );
                }
                j
            },
            CopyNbtSource::Context { target } => {
                let mut inner = ObjBuilder::new();
                inner.field("target", Json::Str(String::from_str(target.name())));
                let ghost ri = inner.rep();
                let mut b = ObjBuilder::new();
                b.field("context", inner.done());
                let ghost r = b.rep();
                let j = b.done();
                proof {
                    lemma_obj_rep_1(ri, ("target"@, JVal::Str(target.name_spec())));
                    lemma_obj_rep_1(
                        r,
                        ("context"@, JVal::Obj(seq![("target"@, JVal::Str(target.name_spec()))])),
                    );
                }
                j
            },
        }
    }
}

/// Copies nbt to the item's `tag` tag.
pub struct CopyNbtOperation {
    /// The nbt path to copy from.
    pub source: String,
    /// The nbt path to copy to, starting at the item's `tag` tag.
    pub target: String,
    /// The operation to do.
    pub op: CopyNbtOperationType,
}

impl Encode for CopyNbtOperation {
    open spec fn json_rep(&self) -> JVal {
        JVal::Obj(
            seq![
                ("source"@, JVal::Str(self.source@)),
                ("target"@, JVal::Str(self.target@)),
                ("op"@, JVal::Str(self.op.name_spec())),
            ],
        )
    }

    fn to_json(&self) -> (j: Json) {
        let mut b = ObjBuilder::new();
        b.field("source", Json::Str(self.source.clone()));
        b.field("target", Json::Str(self.target.clone()));
        b.field("op", Json::Str(String::from_str(self.op.name())));
        let ghost r = b.rep();
        let j = b.done();
        proof {
            lemma_obj_rep_3(
                r,
                ("source"@, JVal::Str(self.source@)),
                ("target"@, JVal::Str(self.target@)),
                ("op"@, JVal::Str(self.op.name_spec())),
            );
        }
        j
    }
}

/// A range between two integer providers, used by
/// [`LimitCountRange`](ItemModifier::LimitCountRange).
pub struct Range {
    /// The minimum value.
    pub min: NumberProvider<i64>,
    /// The maximum value.
    pub max: NumberProvider<i64>,
}

impl Encode for Range {
    open spec fn json_rep(&self) -> JVal {
        JVal::Obj(
            seq![("min"@, self.min.json_rep()), ("max"@, self.max.json_rep())],
        )
    }

    fn to_json(&self) -> (j: Json) {
        let mut b = ObjBuilder::new();
        b.field("min", self.min.to_json());
        b.field("max", self.max.to_json());
        let ghost r = b.rep();
        let j = b.done();
        proof {
            lemma_obj_rep_2(
                r,
                ("min"@, self.min.json_rep()),
                ("max"@, self.max.json_rep()),
            );
        }
        j
    }
}

/// An attribute modifier, used by
/// [`SetAttributes`](ItemModifier::SetAttributes).
pub struct AttributeModifier {
    /// The name of the modifier.
    pub name: String,
    /// The name of the attribute to act upon.
    pub attribute: String,
    /// The operation to do.
    pub operation: AttributeOperation,
    /// The amount of the modifier.
    pub amount: NumberProvider<Decimal>,
    /// The uuid to use; omitted when unset.
    pub id: Option<String>,
    /// The slot to apply the attribute to.
    pub slot: AttributeSlot,
}

impl Encode for AttributeModifier {
    open spec fn json_rep(&self) -> JVal {
        JVal::Obj(
            seq![
                ("name"@, JVal::Str(self.name@)),
                ("attribute"@, JVal::Str(self.attribute@)),
                ("operation"@, JVal::Str(self.operation.name_spec())),
                ("amount"@, self.amount.json_rep()),
            ] + (match self.id {
                Some(id) => seq![("id"@, JVal::Str(id@))],
                None => Seq::empty(),
            }) + seq![("slot"@, JVal::Str(self.slot.name_spec()))],
        )
    }

    fn to_json(&self) -> (j: Json) {
        let mut b = ObjBuilder::new();
        b.field("name", Json::Str(self.name.clone()));
        b.field("attribute", Json::Str(self.attribute.clone()));
        b.field("operation", Json::Str(String::from_str(self.operation.name())));
        b.field("amount", self.amount.to_json());
        proof {
            lemma_obj_rep_4(
                b.rep(),
                ("name"@, JVal::Str(self.name@)),
                ("attribute"@, JVal::Str(self.attribute@)),
                ("operation"@, JVal::Str(self.operation.name_spec())),
                ("amount"@, self.amount.json_rep()),
            );
        }
        let ghost r4 = b.rep();
        if let Some(id) = &self.id {
            b.field("id", Json::Str(id.clone()));
        }
        proof {
            assert(b.rep() =~= r4 + (match &self.id {
                Some(id) => seq![("id"@, JVal::Str(id@))],
                None => Seq::<(Seq<char>, JVal)>::empty(),
            }));
        }
        let ghost r5 = b.rep();
        b.field("slot", Json::Str(String::from_str(self.slot.name())));
        let ghost r = b.rep();
        let j = b.done();
        proof {
            assert(r =~= r5 + seq![("slot"@, JVal::Str(self.slot.name_spec()))]);
            assert(jval_of(j) =~~= self.json_rep());
        }
        j
    }
}

/// A banner pattern, used by
/// [`SetBannerPattern`](ItemModifier::SetBannerPattern).
pub struct BannerPattern {
    /// The pattern type.
    pub pattern: String,
    /// The colour of the pattern.
    pub color: Color,
}

impl Encode for BannerPattern {
    open spec fn json_rep(&self) -> JVal {
        JVal::Obj(
            seq![
                ("pattern"@, JVal::Str(self.pattern@)),
                ("color"@, JVal::Str(self.color.name_spec())),
            ],
        )
    }

    fn to_json(&self) -> (j: Json) {
        let mut b = ObjBuilder::new();
        b.field("pattern", Json::Str(self.pattern.clone()));
        b.field("color", Json::Str(String::from_str(self.color.name())));
        let ghost r = b.rep();
        let j = b.done();
        proof {
            lemma_obj_rep_2(
                r,
                ("pattern"@, JVal::Str(self.pattern@)),
                ("color"@, JVal::Str(self.color.name_spec())),
            );
        }
        j
    }
}

/// A status effect, used in [`SetStewEffect`](ItemModifier::SetStewEffect).
pub struct StatusEffect {
    /// The effect to use.
    pub ty: Effect,
    /// The duration of the effect.
    pub duration: NumberProvider<i64>,
}

impl Encode for StatusEffect {
    open spec fn json_rep(&self) -> JVal {
        JVal::Obj(
            seq![
                ("ty"@, JVal::Str(self.ty.name_spec())),
                ("duration"@, self.duration.json_rep()),
            ],
        )
    }

    fn to_json(&self) -> (j: Json) {
        let mut b = ObjBuilder::new();
        b.field("ty", Json::Str(String::from_str(self.ty.name())));
        b.field("duration", self.duration.to_json());
        let ghost r = b.rep();
        let j = b.done();
        proof {
            lemma_obj_rep_2(
                r,
                ("ty"@, JVal::Str(self.ty.name_spec())),
                ("duration"@, self.duration.json_rep()),
            );
        }
        j
    }
}

/// An item modifier: one node of the loot-function tree.
///
/// Hand one to
/// [`Datapack::item_modifier`](crate::datapack::Datapack::item_modifier).
pub enum ItemModifier {
    /// Applies a bonus count to the item, from an enchantment level formula.
    ApplyBonus {
        /// Enchantment used for level calculation.
        enchantment: Enchant,
        /// Formula to use.
        formula: ApplyBonusFormula,
    },
    /// Copies the item's name from the block entity.
    CopyName,
    /// Copies nbt from a context entity or storage to the item.
    CopyNbt {
        /// Specifies the source of the nbt.
        source: CopyNbtSource,
        /// List of copy operations to do.
        ops: Vec<CopyNbtOperation>,
    },
    /// Copies state from the dropped block to the item's `BlockStateTag` tag.
    CopyState {
        /// The block which has these states; fails if it doesn't match.
        block: Block,
        /// A list of property names to copy.
        properties: Vec<String>,
    },
    /// Enchants the item with one randomly-selected enchantment.
    EnchantRandomly {
        /// The enchantments to choose from; all applicable ones when unset.
        enchantments: Option<Vec<Enchant>>,
    },
    /// Enchants the item as an enchantment table would at the given level.
    EnchantWithLevels {
        /// Whether treasure enchantments are allowed on this item.
        treasure: bool,
        /// The exact enchantment level to use.
        levels: NumberProvider<i64>,
    },
    /// Converts an empty map into an explorer map leading to a nearby structure.
    ExplorationMap {
        /// The type of generated structure to locate.
        destination: Structure,
        /// The icon used to mark the destination on the map.
        decoration: String,
        /// The zoom level of the resulting map.
        zoom: i64,
        /// The size, in chunks, of the square area to search for structures.
        search_radius: i64,
        /// Don't search in chunks that have already been generated.
        skip_existing_chunks: bool,
    },
    /// Removes some items from a stack when there was an explosion.
    ExplosionDecay,
    /// Smelts the item as a furnace would.
    FurnaceSmelt,
    /// Adds the required item tags of a player head.
    FillPlayerHead {
        /// The player to set the head from.
        entity: PlayerContextEntity,
    },
    /// Limits the count of every item stack to an exact number.
    LimitCountExact {
        /// The number to limit the stack size to.
        limit: NumberProvider<i64>,
    },
    /// Limits the count of every item stack to a range.
    LimitCountRange {
        /// The range to limit the stack size to.
        limit: Range,
    },
    /// Adjusts the stack size from the killer's Looting level.
    LootingEnchant {
        /// The number of additional items per level of looting.
        count: NumberProvider<i64>,
        /// The maximum stack size after the looting calculation; 0 for no limit.
        limit: i64,
    },
    /// Adds attribute modifiers to the item.
    SetAttributes {
        /// A list of modifiers to add.
        modifiers: Vec<AttributeModifier>,
    },
    /// Sets the tags needed for banner patterns.
    SetBannerPattern {
        /// Whether to add patterns to existing ones.
        append: bool,
        /// A list of patterns to set.
        patterns: Vec<BannerPattern>,
    },
    /// Sets the contents of a container block item.
    SetContents {
        /// The entries to use as contents.
        entries: Vec<String>,
    },
    /// Sets the stack size.
    SetCount {
        /// The stack size to set.
        count: NumberProvider<i64>,
        /// If true, the change is relative to the current count.
        add: bool,
    },
    /// Sets the item's damage value (durability) for tools.
    SetDamage {
        /// The damage fraction to set.
        damage: NumberProvider<Decimal>,
        /// If true, the change is relative to the current damage.
        add: bool,
    },
    /// Sets the item's enchantments.
    SetEnchantments {
        /// The enchantment levels to change, keyed by enchantment.
        enchantments: Vec<(Enchant, NumberProvider<i64>)>,
        /// If true, the change is relative to the current level.
        add: bool,
    },
    /// Sets the loot table for a container.
    SetLootTable {
        /// The loot table to use.
        name: Identifier,
        /// The seed to use; a random seed when unset.
        seed: Option<i64>,
    },
    /// Adds lore to the item.
    SetLore {
        /// A list of JSON components that make up the lore.
        lore: Vec<String>,
        /// The entity to use as `@s` in the lore.
        entity: PlayerContextEntity,
        /// Whether these lines replace the existing lore.
        replace: bool,
    },
    /// Sets the display name of the item.
    SetName {
        /// A JSON name.
        name: String,
        /// The entity to use as `@s` in the name.
        entity: PlayerContextEntity,
    },
    /// Adds nbt data to the item.
    SetNbt {
        /// The tag to add.
        tag: String,
    },
    /// Sets the status effects for suspicious stew.
    SetStewEffect {
        /// The effects to apply.
        effects: Vec<StatusEffect>,
    },
}

/// The JSON document of an item modifier: an object whose `function`
/// member is the variant's wire name, followed by the variant's fields
/// in declared order, each under its omission rule.
pub open spec fn modifier_rep(m: ItemModifier) -> JVal {
    match m {
        ItemModifier::ApplyBonus { enchantment, formula } => JVal::Obj(seq![("function"@, JVal::Str("apply_bonus"@)), ("enchantment"@, JVal::Str(enchantment.name_spec())), ("formula"@, JVal::Str(formula.name_spec())), ("parameters"@, formula.params_rep())]),
        ItemModifier::CopyName => JVal::Obj(seq![("function"@, JVal::Str("copy_name"@)), ("source"@, JVal::Str("block_entity"@))]),
        ItemModifier::CopyNbt { source, ops } => JVal::Obj(seq![("function"@, JVal::Str("copy_nbt"@)), ("source"@, source.json_rep()), ("ops"@, JVal::Arr(items_rep(ops@)))]),
        ItemModifier::CopyState { block, properties } => JVal::Obj(seq![("function"@, JVal::Str("copy_state"@)), ("block"@, JVal::Str(block.name_spec())), ("properties"@, JVal::Arr(items_rep(properties@)))]),
        ItemModifier::EnchantRandomly { enchantments } => JVal::Obj(seq![("function"@, JVal::Str("enchant_randomly"@))] + (match enchantments { Some(l) => seq![("enchantments"@, JVal::Arr(items_rep(l@)))], None => Seq::empty() })),
        ItemModifier::EnchantWithLevels { treasure, levels } => JVal::Obj(seq![("function"@, JVal::Str("enchant_with_levels"@)), ("treasure"@, JVal::Bool(treasure)), ("levels"@, levels.json_rep())]),
        ItemModifier::ExplorationMap { destination, decoration, zoom, search_radius, skip_existing_chunks } => JVal::Obj(seq![("function"@, JVal::Str("exploration_map"@)), ("destination"@, JVal::Str(destination.name_spec())), ("decoration"@, JVal::Str(decoration@)), ("zoom"@, JVal::Int(zoom)), ("search_radius"@, JVal::Int(search_radius)), ("skip_existing_chunks"@, JVal::Bool(skip_existing_chunks))]),
        ItemModifier::ExplosionDecay => JVal::Obj(seq![("function"@, JVal::Str("explosion_decay"@))]),
        ItemModifier::FurnaceSmelt => JVal::Obj(seq![("function"@, JVal::Str("furnace_smelt"@))]),
        ItemModifier::FillPlayerHead { entity } => JVal::Obj(seq![("function"@, JVal::Str("fill_player_head"@)), ("entity"@, JVal::Str(entity.name_spec()))]),
        ItemModifier::LimitCountExact { limit } => JVal::Obj(seq![("function"@, JVal::Str("limit_count"@)), ("limit"@, limit.json_rep())]),
        ItemModifier::LimitCountRange { limit } => JVal::Obj(seq![("function"@, JVal::Str("limit_count"@)), ("limit"@, limit.json_rep())]),
        ItemModifier::LootingEnchant { count, limit } => JVal::Obj(seq![("function"@, JVal::Str("looting_enchant"@)), ("count"@, count.json_rep()), ("limit"@, JVal::Int(limit))]),
        ItemModifier::SetAttributes { modifiers } => JVal::Obj(seq![("function"@, JVal::Str("set_attributes"@)), ("modifiers"@, JVal::Arr(items_rep(modifiers@)))]),
        ItemModifier::SetBannerPattern { append, patterns } => JVal::Obj(seq![("function"@, JVal::Str("set_banner_pattern"@))] + (if append { seq![("append"@, JVal::Bool(true))] } else { Seq::empty() }) + seq![("patterns"@, JVal::Arr(items_rep(patterns@)))]),
        ItemModifier::SetContents { entries } => JVal::Obj(seq![("function"@, JVal::Str("set_contents"@)), ("entries"@, JVal::Arr(items_rep(entries@)))]),
        ItemModifier::SetCount { count, add } => JVal::Obj(seq![("function"@, JVal::Str("set_count"@)), ("count"@, count.json_rep())] + (if add { seq![("add"@, JVal::Bool(true))] } else { Seq::empty() })),
        ItemModifier::SetDamage { damage, add } => JVal::Obj(seq![("function"@, JVal::Str("set_damage"@)), ("damage"@, damage.json_rep())] + (if add { seq![("add"@, JVal::Bool(true))] } else { Seq::empty() })),
        ItemModifier::SetEnchantments { enchantments, add } => JVal::Obj(seq![("function"@, JVal::Str("set_enchantments"@)), ("enchantments"@, JVal::Obj(map_rep(enchantments@)))] + (if add { seq![("add"@, JVal::Bool(true))] } else { Seq::empty() })),
        ItemModifier::SetLootTable { name, seed } => JVal::Obj(seq![("function"@, JVal::Str("set_loot_table"@)), ("name"@, JVal::Str(name.canonical_chars()))] + (match seed { Some(v) => seq![("seed"@, JVal::Int(v))], None => Seq::empty() })),
        ItemModifier::SetLore { lore, entity, replace } => JVal::Obj(seq![("function"@, JVal::Str("set_lore"@)), ("lore"@, JVal::Arr(items_rep(lore@))), ("entity"@, JVal::Str(entity.name_spec()))] + (if replace { seq![("replace"@, JVal::Bool(true))] } else { Seq::empty() })),
        ItemModifier::SetName { name, entity } => JVal::Obj(seq![("function"@, JVal::Str("set_name"@)), ("name"@, JVal::Str(name@)), ("entity"@, JVal::Str(entity.name_spec()))]),
        ItemModifier::SetNbt { tag } => JVal::Obj(seq![("function"@, JVal::Str("set_nbt"@)), ("tag"@, JVal::Str(tag@))]),
        ItemModifier::SetStewEffect { effects } => JVal::Obj(seq![("function"@, JVal::Str("set_stew_effect"@)), ("effects"@, JVal::Arr(items_rep(effects@)))]),
    }
}

/// Encodes an item modifier.
pub fn modifier_to_json(m: &ItemModifier) -> (j: Json)
    ensures
        jval_of(j) == modifier_rep(*m),
{
    match m {
        ItemModifier::ApplyBonus { enchantment, formula } => {
            let mut b = ObjBuilder::new();
            b.field("function", str_val("apply_bonus"));
            b.field("enchantment", Json::Str(String::from_str(enchantment.name())));
            b.field("formula", Json::Str(String::from_str(formula.name())));
            b.field("parameters", formula.params_to_json());
            proof {
                lemma_obj_rep_4(
                    b.rep(),
                    ("function"@, JVal::Str("apply_bonus"@)),
                    ("enchantment"@, JVal::Str(enchantment.name_spec())),
                    ("formula"@, JVal::Str(formula.name_spec())),
                    ("parameters"@, formula.params_rep()),
                );
            }
            let ghost r = b.rep();
            let j = b.done();
            proof {
                assert(jval_of(j) =~~= modifier_rep(*m));
            }
            j
        },
        ItemModifier::CopyName => {
            let mut b = ObjBuilder::new();
            b.field("function", str_val("copy_name"));
            b.field("source", str_val("block_entity"));
            proof {
                lemma_obj_rep_2(
                    b.rep(),
                    ("function"@, JVal::Str("copy_name"@)),
                    ("source"@, JVal::Str("block_entity"@)),
                );
            }
            let ghost r = b.rep();
            let j = b.done();
            proof {
                assert(jval_of(j) =~~= modifier_rep(*m));
            }
            j
        },
        ItemModifier::CopyNbt { source, ops } => {
            let mut b = ObjBuilder::new();
            b.field("function", str_val("copy_nbt"));
            b.field("source", source.to_json());
            b.field("ops", list_to_json(ops));
            proof {
                lemma_obj_rep_3(
                    b.rep(),
                    ("function"@, JVal::Str("copy_nbt"@)),
                    ("source"@, source.json_rep()),
                    ("ops"@, JVal::Arr(items_rep(ops@))),
                );
            }
            let ghost r = b.rep();
            let j = b.done();
            proof {
                assert(jval_of(j) =~~= modifier_rep(*m));
            }
            j
        },
        ItemModifier::CopyState { block, properties } => {
            let mut b = ObjBuilder::new();
            b.field("function", str_val("copy_state"));
            b.field("block", Json::Str(String::from_str(block.name())));
            b.field("properties", list_to_json(properties));
            proof {
                lemma_obj_rep_3(
                    b.rep(),
                    ("function"@, JVal::Str("copy_state"@)),
                    ("block"@, JVal::Str(block.name_spec())),
                    ("properties"@, JVal::Arr(items_rep(properties@))),
                );
            }
            let ghost r = b.rep();
            let j = b.done();
            proof {
                assert(jval_of(j) =~~= modifier_rep(*m));
            }
            j
        },
        ItemModifier::EnchantRandomly { enchantments } => {
            let mut b = ObjBuilder::new();
            b.field("function", str_val("enchant_randomly"));
            proof {
                lemma_obj_rep_1(
                    b.rep(),
                    ("function"@, JVal::Str("enchant_randomly"@)),
                );
            }
            let ghost g0 = b.rep();
            if let Some(l) = enchantments {
                b.field("enchantments", list_to_json(l));
            }
            proof {
                assert(b.rep() =~= g0 + (match enchantments { Some(l) => seq![("enchantments"@, JVal::Arr(items_rep(l@)))], None => Seq::<(Seq<char>, JVal)>::empty() }));
            }
            let ghost r = b.rep();
            let j = b.done();
            proof {
                assert(jval_of(j) =~~= modifier_rep(*m));
            }
            j
        },
        ItemModifier::EnchantWithLevels { treasure, levels } => {
            let mut b = ObjBuilder::new();
            b.field("function", str_val("enchant_with_levels"));
            b.field("treasure", Json::Bool(*treasure));
            b.field("levels", levels.to_json());
            proof {
                lemma_obj_rep_3(
                    b.rep(),
                    ("function"@, JVal::Str("enchant_with_levels"@)),
                    ("treasure"@, JVal::Bool(*treasure)),
                    ("levels"@, levels.json_rep()),
                );
            }
            let ghost r = b.rep();
            let j = b.done();
            proof {
                assert(jval_of(j) =~~= modifier_rep(*m));
            }
            j
        },
        ItemModifier::ExplorationMap { destination, decoration, zoom, search_radius, skip_existing_chunks } => {
            let mut b = ObjBuilder::new();
            b.field("function", str_val("exploration_map"));
            b.field("destination", Json::Str(String::from_str(destination.name())));
            b.field("decoration", Json::Str(decoration.clone()));
            b.field("zoom", Json::Int(*zoom));
            b.field("search_radius", Json::Int(*search_radius));
            b.field("skip_existing_chunks", Json::Bool(*skip_existing_chunks));
            proof {
                lemma_obj_rep_6(
                    b.rep(),
                    ("function"@, JVal::Str("exploration_map"@)),
                    ("destination"@, JVal::Str(destination.name_spec())),
                    ("decoration"@, JVal::Str(decoration@)),
                    ("zoom"@, JVal::Int(*zoom)),
                    ("search_radius"@, JVal::Int(*search_radius)),
                    ("skip_existing_chunks"@, JVal::Bool(*skip_existing_chunks)),
                );
            }
            let ghost r = b.rep();
            let j = b.done();
            proof {
                assert(jval_of(j) =~~= modifier_rep(*m));
            }
            j
        },
        ItemModifier::ExplosionDecay => {
            let mut b = ObjBuilder::new();
            b.field("function", str_val("explosion_decay"));
            proof {
                lemma_obj_rep_1(
                    b.rep(),
                    ("function"@, JVal::Str("explosion_decay"@)),
                );
            }
            let ghost r = b.rep();
            let j = b.done();
            proof {
                assert(jval_of(j) =~~= modifier_rep(*m));
            }
            j
        },
        ItemModifier::FurnaceSmelt => {
            let mut b = ObjBuilder::new();
            b.field("function", str_val("furnace_smelt"));
            proof {
                lemma_obj_rep_1(
                    b.rep(),
                    ("function"@, JVal::Str("furnace_smelt"@)),
                );
            }
            let ghost r = b.rep();
            let j = b.done();
            proof {
                assert(jval_of(j) =~~= modifier_rep(*m));
            }
            j
        },
        ItemModifier::FillPlayerHead { entity } => {
            let mut b = ObjBuilder::new();
            b.field("function", str_val("fill_player_head"));
            b.field("entity", Json::Str(String::from_str(entity.name())));
            proof {
                lemma_obj_rep_2(
                    b.rep(),
                    ("function"@, JVal::Str("fill_player_head"@)),
                    ("entity"@, JVal::Str(entity.name_spec())),
                );
            }
            let ghost r = b.rep();
            let j = b.done();
            proof {
                assert(jval_of(j) =~~= modifier_rep(*m));
            }
            j
        },
        ItemModifier::LimitCountExact { limit } => {
            let mut b = ObjBuilder::new();
            b.field("function", str_val("limit_count"));
            b.field("limit", limit.to_json());
            proof {
                lemma_obj_rep_2(
                    b.rep(),
                    ("function"@, JVal::Str("limit_count"@)),
                    ("limit"@, limit.json_rep()),
                );
            }
            let ghost r = b.rep();
            let j = b.done();
            proof {
                assert(jval_of(j) =~~= modifier_rep(*m));
            }
            j
        },
        ItemModifier::LimitCountRange { limit } => {
            let mut b = ObjBuilder::new();
            b.field("function", str_val("limit_count"));
            b.field("limit", limit.to_json());
            proof {
                lemma_obj_rep_2(
                    b.rep(),
                    ("function"@, JVal::Str("limit_count"@)),
                    ("limit"@, limit.json_rep()),
                );
            }
            let ghost r = b.rep();
            let j = b.done();
            proof {
                assert(jval_of(j) =~~= modifier_rep(*m));
            }
            j
        },
        ItemModifier::LootingEnchant { count, limit } => {
            let mut b = ObjBuilder::new();
            b.field("function", str_val("looting_enchant"));
            b.field("count", count.to_json());
            b.field("limit", Json::Int(*limit));
            proof {
                lemma_obj_rep_3(
                    b.rep(),
                    ("function"@, JVal::Str("looting_enchant"@)),
                    ("count"@, count.json_rep()),
                    ("limit"@, JVal::Int(*limit)),
                );
            }
            let ghost r = b.rep();
            let j = b.done();
            proof {
                assert(jval_of(j) =~~= modifier_rep(*m));
            }
            j
        },
        ItemModifier::SetAttributes { modifiers } => {
            let mut b = ObjBuilder::new();
            b.field("function", str_val("set_attributes"));
            b.field("modifiers", list_to_json(modifiers));
            proof {
                lemma_obj_rep_2(
                    b.rep(),
                    ("function"@, JVal::Str("set_attributes"@)),
                    ("modifiers"@, JVal::Arr(items_rep(modifiers@))),
                );
            }
            let ghost r = b.rep();
            let j = b.done();
            proof {
                assert(jval_of(j) =~~= modifier_rep(*m));
            }
            j
        },
        ItemModifier::SetBannerPattern { append, patterns } => {
            let mut b = ObjBuilder::new();
            b.field("function", str_val("set_banner_pattern"));
            proof {
                lemma_obj_rep_1(
                    b.rep(),
                    ("function"@, JVal::Str("set_banner_pattern"@)),
                );
            }
            let ghost g0 = b.rep();
            if *append {
                b.field("append", Json::Bool(true));
            }
            proof {
                assert(b.rep() =~= g0 + (if *append { seq![("append"@, JVal::Bool(true))] } else { Seq::<(Seq<char>, JVal)>::empty() }));
            }
            let ghost g1 = b.rep();
            b.field("patterns", list_to_json(patterns));
            proof {
                assert(b.rep() =~= g1 + seq![("patterns"@, JVal::Arr(items_rep(patterns@)))]);
            }
            let ghost r = b.rep();
            let j = b.done();
            proof {
                assert(jval_of(j) =~~= modifier_rep(*m));
            }
            j
        },
        ItemModifier::SetContents { entries } => {
            let mut b = ObjBuilder::new();
            b.field("function", str_val("set_contents"));
            b.field("entries", list_to_json(entries));
            proof {
                lemma_obj_rep_2(
                    b.rep(),
                    ("function"@, JVal::Str("set_contents"@)),
                    ("entries"@, JVal::Arr(items_rep(entries@))),
                );
            }
            let ghost r = b.rep();
            let j = b.done();
            proof {
                assert(jval_of(j) =~~= modifier_rep(*m));
            }
            j
        },
        ItemModifier::SetCount { count, add } => {
            let mut b = ObjBuilder::new();
            b.field("function", str_val("set_count"));
            b.field("count", count.to_json());
            proof {
                lemma_obj_rep_2(
                    b.rep(),
                    ("function"@, JVal::Str("set_count"@)),
                    ("count"@, count.json_rep()),
                );
            }
            let ghost g0 = b.rep();
            if *add {
                b.field("add", Json::Bool(true));
            }
            proof {
                assert(b.rep() =~= g0 + (if *add { seq![("add"@, JVal::Bool(true))] } else { Seq::<(Seq<char>, JVal)>::empty() }));
            }
            let ghost r = b.rep();
            let j = b.done();
            proof {
                assert(jval_of(j) =~~= modifier_rep(*m));
            }
            j
        },
        ItemModifier::SetDamage { damage, add } => {
            let mut b = ObjBuilder::new();
            b.field("function", str_val("set_damage"));
            b.field("damage", damage.to_json());
            proof {
                lemma_obj_rep_2(
                    b.rep(),
                    ("function"@, JVal::Str("set_damage"@)),
                    ("damage"@, damage.json_rep()),
                );
            }
            let ghost g0 = b.rep();
            if *add {
                b.field("add", Json::Bool(true));
            }
            proof {
                assert(b.rep() =~= g0 + (if *add { seq![("add"@, JVal::Bool(true))] } else { Seq::<(Seq<char>, JVal)>::empty() }));
            }
            let ghost r = b.rep();
            let j = b.done();
            proof {
                assert(jval_of(j) =~~= modifier_rep(*m));
            }
            j
        },
        ItemModifier::SetEnchantments { enchantments, add } => {
            let mut b = ObjBuilder::new();
            b.field("function", str_val("set_enchantments"));
            b.field("enchantments", map_to_json(enchantments));
            proof {
                lemma_obj_rep_2(
                    b.rep(),
                    ("function"@, JVal::Str("set_enchantments"@)),
                    ("enchantments"@, JVal::Obj(map_rep(enchantments@))),
                );
            }
            let ghost g0 = b.rep();
            if *add {
                b.field("add", Json::Bool(true));
            }
            proof {
                assert(b.rep() =~= g0 + (if *add { seq![("add"@, JVal::Bool(true))] } else { Seq::<(Seq<char>, JVal)>::empty() }));
            }
            let ghost r = b.rep();
            let j = b.done();
            proof {
                assert(jval_of(j) =~~= modifier_rep(*m));
            }
            j
        },
        ItemModifier::SetLootTable { name, seed } => {
            let mut b = ObjBuilder::new();
            b.field("function", str_val("set_loot_table"));
            b.field("name", Json::Str(name.canonical()));
            proof {
                lemma_obj_rep_2(
                    b.rep(),
                    ("function"@, JVal::Str("set_loot_table"@)),
                    ("name"@, JVal::Str(name.canonical_chars())),
                );
            }
            let ghost g0 = b.rep();
            if let Some(v) = seed {
                b.field("seed", Json::Int(*v));
            }
            proof {
                assert(b.rep() =~= g0 + (match seed { Some(v) => seq![("seed"@, JVal::Int(*v))], None => Seq::<(Seq<char>, JVal)>::empty() }));
            }
            let ghost r = b.rep();
            let j = b.done();
            proof {
                assert(jval_of(j) =~~= modifier_rep(*m));
            }
            j
        },
        ItemModifier::SetLore { lore, entity, replace } => {
            let mut b = ObjBuilder::new();
            b.field("function", str_val("set_lore"));
            b.field("lore", list_to_json(lore));
            b.field("entity", Json::Str(String::from_str(entity.name())));
            proof {
                lemma_obj_rep_3(
                    b.rep(),
                    ("function"@, JVal::Str("set_lore"@)),
                    ("lore"@, JVal::Arr(items_rep(lore@))),
                    ("entity"@, JVal::Str(entity.name_spec())),
                );
            }
            let ghost g0 = b.rep();
            if *replace {
                b.field("replace", Json::Bool(true));
            }
            proof {
                assert(b.rep() =~= g0 + (if *replace { seq![("replace"@, JVal::Bool(true))] } else { Seq::<(Seq<char>, JVal)>::empty() }));
            }
            let ghost r = b.rep();
            let j = b.done();
            proof {
                assert(jval_of(j) =~~= modifier_rep(*m));
            }
            j
        },
        ItemModifier::SetName { name, entity } => {
            let mut b = ObjBuilder::new();
            b.field("function", str_val("set_name"));
            b.field("name", Json::Str(name.clone()));
            b.field("entity", Json::Str(String::from_str(entity.name())));
            proof {
                lemma_obj_rep_3(
                    b.rep(),
                    ("function"@, JVal::Str("set_name"@)),
                    ("name"@, JVal::Str(name@)),
                    ("entity"@, JVal::Str(entity.name_spec())),
                );
            }
            let ghost r = b.rep();
            let j = b.done();
            proof {
                assert(jval_of(j) =~~= modifier_rep(*m));
            }
            j
        },
        ItemModifier::SetNbt { tag } => {
            let mut b = ObjBuilder::new();
            b.field("function", str_val("set_nbt"));
            b.field("tag", Json::Str(tag.clone()));
            proof {
                lemma_obj_rep_2(
                    b.rep(),
                    ("function"@, JVal::Str("set_nbt"@)),
                    ("tag"@, JVal::Str(tag@)),
                );
            }
            let ghost r = b.rep();
            let j = b.done();
            proof {
                assert(jval_of(j) =~~= modifier_rep(*m));
            }
            j
        },
        ItemModifier::SetStewEffect { effects } => {
            let mut b = ObjBuilder::new();
            b.field("function", str_val("set_stew_effect"));
            b.field("effects", list_to_json(effects));
            proof {
                lemma_obj_rep_2(
                    b.rep(),
                    ("function"@, JVal::Str("set_stew_effect"@)),
                    ("effects"@, JVal::Arr(items_rep(effects@))),
                );
            }
            let ghost r = b.rep();
            let j = b.done();
            proof {
                assert(jval_of(j) =~~= modifier_rep(*m));
            }
            j
        },
    }
}

impl Encode for ItemModifier {
    open spec fn json_rep(&self) -> JVal {
        modifier_rep(*self)
    }

    fn to_json(&self) -> (j: Json) {
        modifier_to_json(self)
    }
}


/// `set_count` carries an `add` member exactly when the flag is true: the
/// flag defaults to false and is omitted when false.
pub proof fn lemma_set_count_add_elision(count: NumberProvider<i64>, add: bool)
    ensures
        !add ==> modifier_rep(ItemModifier::SetCount { count, add }) == JVal::Obj(
            seq![
                ("function"@, JVal::Str("set_count"@)),
                ("count"@, count.json_rep()),
            ],
        ),
        add ==> modifier_rep(ItemModifier::SetCount { count, add }) == JVal::Obj(
            seq![
                ("function"@, JVal::Str("set_count"@)),
                ("count"@, count.json_rep()),
                ("add"@, JVal::Bool(true)),
            ],
        ),
{
    let base = seq![("function"@, JVal::Str("set_count"@)), ("count"@, count.json_rep())];
    if add {
        assert(base + seq![("add"@, JVal::Bool(true))] =~= seq![
            ("function"@, JVal::Str("set_count"@)),
            ("count"@, count.json_rep()),
            ("add"@, JVal::Bool(true)),
        ]);
    } else {
        assert(base + Seq::<(Seq<char>, JVal)>::empty() =~= base);
    }
}

/// The two limiting variants emit the same `limit_count` wire name: they
/// are told apart only by the shape of the `limit` payload, a bare number
/// against a `{min,max}` object.
pub proof fn lemma_limit_count_shared_tag(exact: NumberProvider<i64>, bounds: Range)
    ensures
        modifier_rep(ItemModifier::LimitCountExact { limit: exact }) == JVal::Obj(
            seq![
                ("function"@, JVal::Str("limit_count"@)),
                ("limit"@, exact.json_rep()),
            ],
        ),
        modifier_rep(ItemModifier::LimitCountRange { limit: bounds }) == JVal::Obj(
            seq![
                ("function"@, JVal::Str("limit_count"@)),
                (
                    "limit"@,
                    JVal::Obj(
                        seq![("min"@, bounds.min.json_rep()), ("max"@, bounds.max.json_rep())],
                    ),
                ),
            ],
        ),
{
}

} // verus!
