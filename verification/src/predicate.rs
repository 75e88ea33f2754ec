//! Predicates: the tagged conditional-logic tree, and the composable
//! sub-predicate records its variants embed.
//!
//! Every predicate encodes as one JSON object whose `condition` member is
//! the variant's snake_case wire name, followed by the variant's fields.
//! A sub-predicate record is an object of its set fields alone, in declared
//! order: an unset field means "no constraint" and never appears.

use vstd::prelude::*;

use crate::decimal::Decimal;
use crate::encode::{
    items_rep, list_to_json, map_rep, map_to_json, opt_entry, opt_field, Encode,
};
use crate::ident::Identifier;
use crate::json::{
    jval_of, lemma_obj_rep_1, lemma_obj_rep_2, lemma_obj_rep_3, str_val, JVal, Json, ObjBuilder,
};
use crate::minecraft::{Block, Effect, Enchant, Entity, Item, Potion, Structure};
use crate::provider::{Number, NumberProvider, PlayerContextEntity};
use crate::selector::GameMode;

verus! {

/// A range between two numbers, encoded as a `{min,max}` object.
pub struct Range<N: Number> {
    /// The minimum value.
    pub min: N,
    /// The maximum value.
    pub max: N,
}

impl<N: Number> Encode for Range<N> {
    open spec fn json_rep(&self) -> JVal {
        JVal::Obj(seq![("min"@, self.min.json_rep()), ("max"@, self.max.json_rep())])
    }

    fn to_json(&self) -> (j: Json) {
        let mut b = ObjBuilder::new();
        b.field("min", self.min.to_json());
        b.field("max", self.max.to_json());
        let ghost r = b.rep();
        let j = b.done();
        proof {
            lemma_obj_rep_2(r, ("min"@, self.min.json_rep()), ("max"@, self.max.json_rep()));
        }
        j
    }
}

/// An optional range: an exact number or a `{min,max}` object, told apart
/// only by shape.
pub enum OptionalRange<N: Number> {
    /// Matches an exact number; encodes as the bare number.
    Exact(N),
    /// Matches a range of numbers; encodes as a `{min,max}` object.
    Range(Range<N>),
}

impl<N: Number> Encode for OptionalRange<N> {
    open spec fn json_rep(&self) -> JVal {
        match self {
            OptionalRange::Exact(n) => n.json_rep(),
            OptionalRange::Range(r) => r.json_rep(),
        }
    }

    fn to_json(&self) -> (j: Json) {
        match self {
            OptionalRange::Exact(n) => n.to_json(),
            OptionalRange::Range(r) => r.to_json(),
        }
    }
}

/// A predicate on one enchantment's level.
pub struct EnchantmentPredicate {
    /// The enchantment to check.
    pub enchantment: Enchant,
    /// The levels to allow.
    pub levels: OptionalRange<i64>,
}

impl Encode for EnchantmentPredicate {
    open spec fn json_rep(&self) -> JVal {
        JVal::Obj(
            seq![
                ("enchantment"@, JVal::Str(self.enchantment.name_spec())),
                ("levels"@, self.levels.json_rep()),
            ],
        )
    }

    fn to_json(&self) -> (j: Json) {
        let mut b = ObjBuilder::new();
        b.field("enchantment", Json::Str(String::from_str(self.enchantment.name())));
        b.field("levels", self.levels.to_json());
        let ghost r = b.rep();
        let j = b.done();
        proof {
            lemma_obj_rep_2(
                r,
                ("enchantment"@, JVal::Str(self.enchantment.name_spec())),
                ("levels"@, self.levels.json_rep()),
            );
        }
        j
    }
}

/// A predicate on one statistic's value.
pub struct StatisticPredicate {
    /// The statistic type, e.g. a custom statistic namespace.
    pub ty: Identifier,
    /// The statistic id for this type.
    pub stat: Identifier,
    /// The value to check for the statistic.
    pub value: OptionalRange<i64>,
}

impl Encode for StatisticPredicate {
    open spec fn json_rep(&self) -> JVal {
        JVal::Obj(
            seq![
                ("type"@, JVal::Str(self.ty.canonical_chars())),
                ("stat"@, JVal::Str(self.stat.canonical_chars())),
                ("value"@, self.value.json_rep()),
            ],
        )
    }

    fn to_json(&self) -> (j: Json) {
        let mut b = ObjBuilder::new();
        b.field("type", Json::Str(self.ty.canonical()));
        b.field("stat", Json::Str(self.stat.canonical()));
        b.field("value", self.value.to_json());
        let ghost r = b.rep();
        let j = b.done();
        proof {
            lemma_obj_rep_3(
                r,
                ("type"@, JVal::Str(self.ty.canonical_chars())),
                ("stat"@, JVal::Str(self.stat.canonical_chars())),
                ("value"@, self.value.json_rep()),
            );
        }
        j
    }
}

/// A block state value: a boolean, an integer or a string, encoded bare.
pub enum BlockstateValue {
    /// A boolean block state value (like `open`).
    Bool(bool),
    /// An integer block state value (like `age`).
    Int(i64),
    /// A string block state value (like `facing`).
    Str(String),
}

impl Encode for BlockstateValue {
    open spec fn json_rep(&self) -> JVal {
        match *self {
            BlockstateValue::Bool(b) => JVal::Bool(b),
            BlockstateValue::Int(i) => JVal::Int(i),
            BlockstateValue::Str(s) => JVal::Str(s@),
        }
    }

    fn to_json(&self) -> (j: Json) {
        match self {
            BlockstateValue::Bool(b) => Json::Bool(*b),
            BlockstateValue::Int(i) => Json::Int(*i),
            BlockstateValue::Str(s) => Json::Str(s.clone()),
        }
    }
}

/// A predicate on one advancement: the entry's JSON shape depends on which
/// variant it holds.
pub enum AdvancementPredicate {
    /// Checks whether the whole advancement is complete; encodes as the
    /// bare boolean.
    Complete(bool),
    /// Checks each criterion, in the form `(criterion, completeness)`;
    /// encodes as an object keyed by criterion.
    Criteria(Vec<(String, bool)>),
}

impl Encode for AdvancementPredicate {
    open spec fn json_rep(&self) -> JVal {
        match self {
            AdvancementPredicate::Complete(done) => JVal::Bool(*done),
            AdvancementPredicate::Criteria(criteria) => JVal::Obj(map_rep(criteria@)),
        }
    }

    fn to_json(&self) -> (j: Json) {
        match self {
            AdvancementPredicate::Complete(done) => Json::Bool(*done),
            AdvancementPredicate::Criteria(criteria) => map_to_json(criteria),
        }
    }
}

/// A predicate for checking an active status effect.
/// Every field is independently optional; set fields are implicitly
/// conjoined.  Start from `default()` and set only what matters.
pub struct EffectPredicate {
    /// Whether the effect came from a beacon.
    pub ambient: Option<bool>,
    /// The effect amplifier.
    pub amplifier: Option<OptionalRange<i64>>,
    /// The effect duration in ticks.
    pub duration: Option<OptionalRange<i64>>,
    /// Whether the effect has visible particles.
    pub visible: Option<bool>,
}

impl Default for EffectPredicate {
    /// The unconstrained predicate: every field unset.
    fn default() -> (r: EffectPredicate)
        ensures
            r.ambient is None,
            r.amplifier is None,
            r.duration is None,
            r.visible is None,
    {
        EffectPredicate {
            ambient: None,
            amplifier: None,
            duration: None,
            visible: None,
        }
    }
}

/// The members of the object a [`EffectPredicate`] encodes as: its set
/// fields, in declared order.
pub open spec fn effect_rep(s: EffectPredicate) -> Seq<(Seq<char>, JVal)>
{
    opt_entry("ambient"@, s.ambient) + opt_entry("amplifier"@, s.amplifier) + opt_entry("duration"@, s.duration) + opt_entry("visible"@, s.visible)
}

impl Encode for EffectPredicate {
    open spec fn json_rep(&self) -> JVal {
        JVal::Obj(effect_rep(*self))
    }

    fn to_json(&self) -> (j: Json) {
        let mut b = ObjBuilder::new();
        opt_field(&mut b, "ambient", &self.ambient);
        opt_field(&mut b, "amplifier", &self.amplifier);
        opt_field(&mut b, "duration", &self.duration);
        opt_field(&mut b, "visible", &self.visible);
        let ghost r = b.rep();
        let j = b.done();
        proof {
            assert(r =~= effect_rep(*self));
        }
        j
    }
}

/// A predicate for checking a position, axis by axis.
/// Every field is independently optional; set fields are implicitly
/// conjoined.  Start from `default()` and set only what matters.
pub struct PositionPredicate {
    /// Tests the x coordinate.
    pub x: Option<OptionalRange<i64>>,
    /// Tests the y coordinate.
    pub y: Option<OptionalRange<i64>>,
    /// Tests the z coordinate.
    pub z: Option<OptionalRange<i64>>,
}

impl Default for PositionPredicate {
    /// The unconstrained predicate: every field unset.
    fn default() -> (r: PositionPredicate)
        ensures
            r.x is None,
            r.y is None,
            r.z is None,
    {
        PositionPredicate {
            x: None,
            y: None,
            z: None,
        }
    }
}

/// The members of the object a [`PositionPredicate`] encodes as: its set
/// fields, in declared order.
pub open spec fn position_rep(s: PositionPredicate) -> Seq<(Seq<char>, JVal)>
{
    opt_entry("x"@, s.x) + opt_entry("y"@, s.y) + opt_entry("z"@, s.z)
}

impl Encode for PositionPredicate {
    open spec fn json_rep(&self) -> JVal {
        JVal::Obj(position_rep(*self))
    }

    fn to_json(&self) -> (j: Json) {
        let mut b = ObjBuilder::new();
        opt_field(&mut b, "x", &self.x);
        opt_field(&mut b, "y", &self.y);
        opt_field(&mut b, "z", &self.z);
        let ghost r = b.rep();
        let j = b.done();
        proof {
            assert(r =~= position_rep(*self));
        }
        j
    }
}

/// A predicate for checking distances.
/// Every field is independently optional; set fields are implicitly
/// conjoined.  Start from `default()` and set only what matters.
pub struct DistancePredicate {
    /// The absolute distance.
    pub absolute: Option<Range<Decimal>>,
    /// The horizontal distance.
    pub horizontal: Option<Range<Decimal>>,
    /// The distance in x.
    pub x: Option<Range<Decimal>>,
    /// The distance in y.
    pub y: Option<Range<Decimal>>,
    /// The distance in z.
    pub z: Option<Range<Decimal>>,
}

impl Default for DistancePredicate {
    /// The unconstrained predicate: every field unset.
    fn default() -> (r: DistancePredicate)
        ensures
            r.absolute is None,
            r.horizontal is None,
            r.x is None,
            r.y is None,
            r.z is None,
    {
        DistancePredicate {
            absolute: None,
            horizontal: None,
            x: None,
            y: None,
            z: None,
        }
    }
}

/// The members of the object a [`DistancePredicate`] encodes as: its set
/// fields, in declared order.
pub open spec fn distance_rep(s: DistancePredicate) -> Seq<(Seq<char>, JVal)>
{
    opt_entry("absolute"@, s.absolute) + opt_entry("horizontal"@, s.horizontal) + opt_entry("x"@, s.x) + opt_entry("y"@, s.y) + opt_entry("z"@, s.z)
}

impl Encode for DistancePredicate {
    open spec fn json_rep(&self) -> JVal {
        JVal::Obj(distance_rep(*self))
    }

    fn to_json(&self) -> (j: Json) {
        let mut b = ObjBuilder::new();
        opt_field(&mut b, "absolute", &self.absolute);
        opt_field(&mut b, "horizontal", &self.horizontal);
        opt_field(&mut b, "x", &self.x);
        opt_field(&mut b, "y", &self.y);
        opt_field(&mut b, "z", &self.z);
        let ghost r = b.rep();
        let j = b.done();
        proof {
            assert(r =~= distance_rep(*self));
        }
        j
    }
}

/// Flags to check on an entity.
/// Every field is independently optional; set fields are implicitly
/// conjoined.  Start from `default()` and set only what matters.
pub struct EntityFlags {
    /// Tests whether the entity is on fire.
    pub is_on_fire: Option<bool>,
    /// Tests whether the entity is sneaking.
    pub is_sneaking: Option<bool>,
    /// Tests whether the entity is sprinting.
    pub is_sprinting: Option<bool>,
    /// Tests whether the entity is swimming.
    pub is_swimming: Option<bool>,
    /// Tests whether the entity is a baby variant.
    pub is_baby: Option<bool>,
}

impl Default for EntityFlags {
    /// The unconstrained predicate: every field unset.
    fn default() -> (r: EntityFlags)
        ensures
            r.is_on_fire is None,
            r.is_sneaking is None,
            r.is_sprinting is None,
            r.is_swimming is None,
            r.is_baby is None,
    {
        EntityFlags {
            is_on_fire: None,
            is_sneaking: None,
            is_sprinting: None,
            is_swimming: None,
            is_baby: None,
        }
    }
}

/// The members of the object a [`EntityFlags`] encodes as: its set
/// fields, in declared order.
pub open spec fn flags_rep(s: EntityFlags) -> Seq<(Seq<char>, JVal)>
{
    opt_entry("is_on_fire"@, s.is_on_fire) + opt_entry("is_sneaking"@, s.is_sneaking) + opt_entry("is_sprinting"@, s.is_sprinting) + opt_entry("is_swimming"@, s.is_swimming) + opt_entry("is_baby"@, s.is_baby)
}

impl Encode for EntityFlags {
    open spec fn json_rep(&self) -> JVal {
        JVal::Obj(flags_rep(*self))
    }

    fn to_json(&self) -> (j: Json) {
        let mut b = ObjBuilder::new();
        opt_field(&mut b, "is_on_fire", &self.is_on_fire);
        opt_field(&mut b, "is_sneaking", &self.is_sneaking);
        opt_field(&mut b, "is_sprinting", &self.is_sprinting);
        opt_field(&mut b, "is_swimming", &self.is_swimming);
        opt_field(&mut b, "is_baby", &self.is_baby);
        let ghost r = b.rep();
        let j = b.done();
        proof {
            assert(r =~= flags_rep(*self));
        }
        j
    }
}

/// A predicate for checking an item.
/// Every field is independently optional; set fields are implicitly
/// conjoined.  Start from `default()` and set only what matters.
pub struct ItemPredicate {
    /// The amount of the item.
    pub count: Option<OptionalRange<i64>>,
    /// The item's durability.
    pub durability: Option<OptionalRange<i64>>,
    /// A list of enchantments.
    pub enchantments: Option<Vec<EnchantmentPredicate>>,
    /// A list of stored enchantments, as on an enchanted book.
    pub stored_enchantments: Option<Vec<EnchantmentPredicate>>,
    /// An item id.
    pub item: Option<Item>,
    /// An nbt string.
    pub nbt: Option<String>,
    /// A potion id.
    pub potion: Option<Potion>,
    /// An item tag.
    pub tag: Option<Identifier>,
}

impl Default for ItemPredicate {
    /// The unconstrained predicate: every field unset.
    fn default() -> (r: ItemPredicate)
        ensures
            r.count is None,
            r.durability is None,
            r.enchantments is None,
            r.stored_enchantments is None,
            r.item is None,
            r.nbt is None,
            r.potion is None,
            r.tag is None,
    {
        ItemPredicate {
            count: None,
            durability: None,
            enchantments: None,
            stored_enchantments: None,
            item: None,
            nbt: None,
            potion: None,
            tag: None,
        }
    }
}

/// The members of the object a [`ItemPredicate`] encodes as: its set
/// fields, in declared order.
pub open spec fn item_rep(s: ItemPredicate) -> Seq<(Seq<char>, JVal)>
{
    opt_entry("count"@, s.count) + opt_entry("durability"@, s.durability) + (match s.enchantments { Some(l) => seq![("enchantments"@, JVal::Arr(items_rep(l@)))], None => Seq::empty() }) + (match s.stored_enchantments { Some(l) => seq![("stored_enchantments"@, JVal::Arr(items_rep(l@)))], None => Seq::empty() }) + opt_entry("item"@, s.item) + opt_entry("nbt"@, s.nbt) + opt_entry("potion"@, s.potion) + opt_entry("tag"@, s.tag)
}

impl Encode for ItemPredicate {
    open spec fn json_rep(&self) -> JVal {
        JVal::Obj(item_rep(*self))
    }

    fn to_json(&self) -> (j: Json) {
        let mut b = ObjBuilder::new();
        opt_field(&mut b, "count", &self.count);
        opt_field(&mut b, "durability", &self.durability);
        let ghost g0 = b.rep();
        if let Some(l) = &self.enchantments {
            b.field("enchantments", list_to_json(l));
        }
        proof {
            assert(b.rep() =~= g0 + (match self.enchantments { Some(l) => seq![("enchantments"@, JVal::Arr(items_rep(l@)))], None => Seq::empty() }));
        }
        let ghost g1 = b.rep();
        if let Some(l) = &self.stored_enchantments {
            b.field("stored_enchantments", list_to_json(l));
        }
        proof {
            assert(b.rep() =~= g1 + (match self.stored_enchantments { Some(l) => seq![("stored_enchantments"@, JVal::Arr(items_rep(l@)))], None => Seq::empty() }));
        }
        opt_field(&mut b, "item", &self.item);
        opt_field(&mut b, "nbt", &self.nbt);
        opt_field(&mut b, "potion", &self.potion);
        opt_field(&mut b, "tag", &self.tag);
        let ghost r = b.rep();
        let j = b.done();
        proof {
            assert(r =~= item_rep(*self));
        }
        j
    }
}

/// A predicate on an entity's equipment.
/// Every field is independently optional; set fields are implicitly
/// conjoined.  Start from `default()` and set only what matters.
pub struct EquipmentPredicate {
    /// Checks the item in the entity's mainhand.
    pub mainhand: Option<ItemPredicate>,
    /// Checks the item in the entity's offhand.
    pub offhand: Option<ItemPredicate>,
    /// Checks the item on the entity's head.
    pub head: Option<ItemPredicate>,
    /// Checks the item on the entity's chest.
    pub chest: Option<ItemPredicate>,
    /// Checks the item on the entity's legs.
    pub legs: Option<ItemPredicate>,
    /// Checks the item on the entity's feet.
    pub feet: Option<ItemPredicate>,
}

impl Default for EquipmentPredicate {
    /// The unconstrained predicate: every field unset.
    fn default() -> (r: EquipmentPredicate)
        ensures
            r.mainhand is None,
            r.offhand is None,
            r.head is None,
            r.chest is None,
            r.legs is None,
            r.feet is None,
    {
        EquipmentPredicate {
            mainhand: None,
            offhand: None,
            head: None,
            chest: None,
            legs: None,
            feet: None,
        }
    }
}

/// The members of the object a [`EquipmentPredicate`] encodes as: its set
/// fields, in declared order.
pub open spec fn equipment_rep(s: EquipmentPredicate) -> Seq<(Seq<char>, JVal)>
{
    opt_entry("mainhand"@, s.mainhand) + opt_entry("offhand"@, s.offhand) + opt_entry("head"@, s.head) + opt_entry("chest"@, s.chest) + opt_entry("legs"@, s.legs) + opt_entry("feet"@, s.feet)
}

impl Encode for EquipmentPredicate {
    open spec fn json_rep(&self) -> JVal {
        JVal::Obj(equipment_rep(*self))
    }

    fn to_json(&self) -> (j: Json) {
        let mut b = ObjBuilder::new();
        opt_field(&mut b, "mainhand", &self.mainhand);
        opt_field(&mut b, "offhand", &self.offhand);
        opt_field(&mut b, "head", &self.head);
        opt_field(&mut b, "chest", &self.chest);
        opt_field(&mut b, "legs", &self.legs);
        opt_field(&mut b, "feet", &self.feet);
        let ghost r = b.rep();
        let j = b.done();
        proof {
            assert(r =~= equipment_rep(*self));
        }
        j
    }
}

/// A predicate for checking a block.
/// Every field is independently optional; set fields are implicitly
/// conjoined.  Start from `default()` and set only what matters.
pub struct BlockPredicate {
    /// The block to check.
    pub block: Option<Block>,
    /// A block tag.
    pub tag: Option<Identifier>,
    /// The block nbt.
    pub nbt: Option<String>,
    /// Block states to check, in the form `(property, value)`.
    pub state: Option<Vec<(String, BlockstateValue)>>,
}

impl Default for BlockPredicate {
    /// The unconstrained predicate: every field unset.
    fn default() -> (r: BlockPredicate)
        ensures
            r.block is None,
            r.tag is None,
            r.nbt is None,
            r.state is None,
    {
        BlockPredicate {
            block: None,
            tag: None,
            nbt: None,
            state: None,
        }
    }
}

/// The members of the object a [`BlockPredicate`] encodes as: its set
/// fields, in declared order.
pub open spec fn block_rep(s: BlockPredicate) -> Seq<(Seq<char>, JVal)>
{
    opt_entry("block"@, s.block) + opt_entry("tag"@, s.tag) + opt_entry("nbt"@, s.nbt) + (match s.state { Some(m) => seq![("state"@, JVal::Obj(map_rep(m@)))], None => Seq::empty() })
}

impl Encode for BlockPredicate {
    open spec fn json_rep(&self) -> JVal {
        JVal::Obj(block_rep(*self))
    }

    fn to_json(&self) -> (j: Json) {
        let mut b = ObjBuilder::new();
        opt_field(&mut b, "block", &self.block);
        opt_field(&mut b, "tag", &self.tag);
        opt_field(&mut b, "nbt", &self.nbt);
        let ghost g0 = b.rep();
        if let Some(m) = &self.state {
            b.field("state", map_to_json(m));
        }
        proof {
            assert(b.rep() =~= g0 + (match self.state { Some(m) => seq![("state"@, JVal::Obj(map_rep(m@)))], None => Seq::empty() }));
        }
        let ghost r = b.rep();
        let j = b.done();
        proof {
            assert(r =~= block_rep(*self));
        }
        j
    }
}

/// A predicate for checking a fluid.
/// Every field is independently optional; set fields are implicitly
/// conjoined.  Start from `default()` and set only what matters.
pub struct FluidPredicate {
    /// The fluid to check.
    pub fluid: Option<Identifier>,
    /// A fluid tag.
    pub tag: Option<Identifier>,
    /// Fluid states to check, in the form `(property, value)`.
    pub state: Option<Vec<(String, BlockstateValue)>>,
}

impl Default for FluidPredicate {
    /// The unconstrained predicate: every field unset.
    fn default() -> (r: FluidPredicate)
        ensures
            r.fluid is None,
            r.tag is None,
            r.state is None,
    {
        FluidPredicate {
            fluid: None,
            tag: None,
            state: None,
        }
    }
}

/// The members of the object a [`FluidPredicate`] encodes as: its set
/// fields, in declared order.
pub open spec fn fluid_rep(s: FluidPredicate) -> Seq<(Seq<char>, JVal)>
{
    opt_entry("fluid"@, s.fluid) + opt_entry("tag"@, s.tag) + (match s.state { Some(m) => seq![("state"@, JVal::Obj(map_rep(m@)))], None => Seq::empty() })
}

impl Encode for FluidPredicate {
    open spec fn json_rep(&self) -> JVal {
        JVal::Obj(fluid_rep(*self))
    }

    fn to_json(&self) -> (j: Json) {
        let mut b = ObjBuilder::new();
        opt_field(&mut b, "fluid", &self.fluid);
        opt_field(&mut b, "tag", &self.tag);
        let ghost g0 = b.rep();
        if let Some(m) = &self.state {
            b.field("state", map_to_json(m));
        }
        proof {
            assert(b.rep() =~= g0 + (match self.state { Some(m) => seq![("state"@, JVal::Obj(map_rep(m@)))], None => Seq::empty() }));
        }
        let ghost r = b.rep();
        let j = b.done();
        proof {
            assert(r =~= fluid_rep(*self));
        }
        j
    }
}

/// A predicate for checking a location.
/// Every field is independently optional; set fields are implicitly
/// conjoined.  Start from `default()` and set only what matters.
pub struct LocationPredicate {
    /// The biome the location is in.
    pub biome: Option<Identifier>,
    /// The block at the location.
    pub block: Option<BlockPredicate>,
    /// The dimension the location is in.
    pub dimension: Option<Identifier>,
    /// Tests for a structure.
    pub feature: Option<Structure>,
    /// The fluid at the location.
    pub fluid: Option<FluidPredicate>,
    /// The light at the location.
    pub light: Option<OptionalRange<i64>>,
    /// Tests the position.
    pub position: Option<PositionPredicate>,
    /// True when the block is closely above a campfire or soul campfire.
    pub smokey: Option<bool>,
}

impl Default for LocationPredicate {
    /// The unconstrained predicate: every field unset.
    fn default() -> (r: LocationPredicate)
        ensures
            r.biome is None,
            r.block is None,
            r.dimension is None,
            r.feature is None,
            r.fluid is None,
            r.light is None,
            r.position is None,
            r.smokey is None,
    {
        LocationPredicate {
            biome: None,
            block: None,
            dimension: None,
            feature: None,
            fluid: None,
            light: None,
            position: None,
            smokey: None,
        }
    }
}

/// The members of the object a [`LocationPredicate`] encodes as: its set
/// fields, in declared order.
pub open spec fn location_rep(s: LocationPredicate) -> Seq<(Seq<char>, JVal)>
{
    opt_entry("biome"@, s.biome) + opt_entry("block"@, s.block) + opt_entry("dimension"@, s.dimension) + opt_entry("feature"@, s.feature) + opt_entry("fluid"@, s.fluid) + opt_entry("light"@, s.light) + opt_entry("position"@, s.position) + opt_entry("smokey"@, s.smokey)
}

impl Encode for LocationPredicate {
    open spec fn json_rep(&self) -> JVal {
        JVal::Obj(location_rep(*self))
    }

    fn to_json(&self) -> (j: Json) {
        let mut b = ObjBuilder::new();
        opt_field(&mut b, "biome", &self.biome);
        opt_field(&mut b, "block", &self.block);
        opt_field(&mut b, "dimension", &self.dimension);
        opt_field(&mut b, "feature", &self.feature);
        opt_field(&mut b, "fluid", &self.fluid);
        opt_field(&mut b, "light", &self.light);
        opt_field(&mut b, "position", &self.position);
        opt_field(&mut b, "smokey", &self.smokey);
        let ghost r = b.rep();
        let j = b.done();
        proof {
            assert(r =~= location_rep(*self));
        }
        j
    }
}

/// A predicate on the properties of a player.
/// Every field is independently optional; set fields are implicitly
/// conjoined.  Start from `default()` and set only what matters.
pub struct PlayerPredicate {
    /// Advancements to check, in the form `(name, predicate)`.
    pub advancements: Option<Vec<(Identifier, AdvancementPredicate)>>,
    /// The game mode of the player.
    pub gamemode: Option<GameMode>,
    /// The experience level of the player.
    pub level: Option<OptionalRange<i64>>,
    /// Recipes to check, in the form `(name, unlocked)`.
    pub recipes: Option<Vec<(Identifier, bool)>>,
    /// A list of statistics to match.
    pub stats: Option<Vec<StatisticPredicate>>,
}

impl Default for PlayerPredicate {
    /// The unconstrained predicate: every field unset.
    fn default() -> (r: PlayerPredicate)
        ensures
            r.advancements is None,
            r.gamemode is None,
            r.level is None,
            r.recipes is None,
            r.stats is None,
    {
        PlayerPredicate {
            advancements: None,
            gamemode: None,
            level: None,
            recipes: None,
            stats: None,
        }
    }
}

/// The members of the object a [`PlayerPredicate`] encodes as: its set
/// fields, in declared order.
pub open spec fn player_rep(s: PlayerPredicate) -> Seq<(Seq<char>, JVal)>
{
    (match s.advancements { Some(m) => seq![("advancements"@, JVal::Obj(map_rep(m@)))], None => Seq::empty() }) + opt_entry("gamemode"@, s.gamemode) + opt_entry("level"@, s.level) + (match s.recipes { Some(m) => seq![("recipes"@, JVal::Obj(map_rep(m@)))], None => Seq::empty() }) + (match s.stats { Some(l) => seq![("stats"@, JVal::Arr(items_rep(l@)))], None => Seq::empty() })
}

impl Encode for PlayerPredicate {
    open spec fn json_rep(&self) -> JVal {
        JVal::Obj(player_rep(*self))
    }

    fn to_json(&self) -> (j: Json) {
        let mut b = ObjBuilder::new();
        let ghost g0 = b.rep();
        if let Some(m) = &self.advancements {
            b.field("advancements", map_to_json(m));
        }
        proof {
            assert(b.rep() =~= g0 + (match self.advancements { Some(m) => seq![("advancements"@, JVal::Obj(map_rep(m@)))], None => Seq::empty() }));
        }
        opt_field(&mut b, "gamemode", &self.gamemode);
        opt_field(&mut b, "level", &self.level);
        let ghost g1 = b.rep();
        if let Some(m) = &self.recipes {
            b.field("recipes", map_to_json(m));
        }
        proof {
            assert(b.rep() =~= g1 + (match self.recipes { Some(m) => seq![("recipes"@, JVal::Obj(map_rep(m@)))], None => Seq::empty() }));
        }
        let ghost g2 = b.rep();
        if let Some(l) = &self.stats {
            b.field("stats", list_to_json(l));
        }
        proof {
            assert(b.rep() =~= g2 + (match self.stats { Some(l) => seq![("stats"@, JVal::Arr(items_rep(l@)))], None => Seq::empty() }));
        }
        let ghost r = b.rep();
        let j = b.done();
        proof {
            assert(r =~= player_rep(*self));
        }
        j
    }
}

/// A predicate for checking an entity.
/// Every field is independently optional; set fields are implicitly
/// conjoined.  Start from `default()` and set only what matters.
pub struct EntityPredicate {
    /// The distance between the entity and the location.
    pub distance: Option<DistancePredicate>,
    /// Status effects to check, in the form `(effect, predicate)`.
    pub effects: Option<Vec<(Effect, EffectPredicate)>>,
    /// Equipment to check on the entity.
    pub equipment: Option<EquipmentPredicate>,
    /// Flags to be checked.
    pub flags: Option<EntityFlags>,
    /// Checks the entity's location.
    pub location: Option<LocationPredicate>,
    /// Checks the entity's nbt.
    pub nbt: Option<String>,
    /// Player properties to check; fails when the entity is not a player.
    pub player: Option<PlayerPredicate>,
    /// The team the entity belongs to.
    pub team: Option<String>,
    /// The entity's type.
    pub ty: Option<Entity>,
    /// The entity this entity is targeting for attacks.
    pub targeted_entity: Option<Box<EntityPredicate>>,
    /// The vehicle this entity is riding on.
    pub vehicle: Option<Box<EntityPredicate>>,
}

impl Default for EntityPredicate {
    /// The unconstrained predicate: every field unset.
    fn default() -> (r: EntityPredicate)
        ensures
            r.distance is None,
            r.effects is None,
            r.equipment is None,
            r.flags is None,
            r.location is None,
            r.nbt is None,
            r.player is None,
            r.team is None,
            r.ty is None,
            r.targeted_entity is None,
            r.vehicle is None,
    {
        EntityPredicate {
            distance: None,
            effects: None,
            equipment: None,
            flags: None,
            location: None,
            nbt: None,
            player: None,
            team: None,
            ty: None,
            targeted_entity: None,
            vehicle: None,
        }
    }
}

/// The members of the object a [`EntityPredicate`] encodes as: its set
/// fields, in declared order.
pub open spec fn entity_rep(s: EntityPredicate) -> Seq<(Seq<char>, JVal)>
    decreases s via entity_rep_dec
{
    opt_entry("distance"@, s.distance) + (match s.effects { Some(m) => seq![("effects"@, JVal::Obj(map_rep(m@)))], None => Seq::empty() }) + opt_entry("equipment"@, s.equipment) + opt_entry("flags"@, s.flags) + opt_entry("location"@, s.location) + opt_entry("nbt"@, s.nbt) + opt_entry("player"@, s.player) + opt_entry("team"@, s.team) + opt_entry("type"@, s.ty) + (match s.targeted_entity { Some(e) => seq![("targeted_entity"@, JVal::Obj(entity_rep(*e)))], None => Seq::empty() }) + (match s.vehicle { Some(e) => seq![("vehicle"@, JVal::Obj(entity_rep(*e)))], None => Seq::empty() })
}

#[via_fn]
proof fn entity_rep_dec(s: EntityPredicate) {
    if let Some(e) = s.targeted_entity {
        assert(decreases_to!(s => s.targeted_entity));
        assert(decreases_to!(s.targeted_entity => e));
    }
    if let Some(e) = s.vehicle {
        assert(decreases_to!(s => s.vehicle));
        assert(decreases_to!(s.vehicle => e));
    }
}

/// Encodes an entity predicate.
pub fn entity_to_json(s: &EntityPredicate) -> (j: Json)
    ensures
        jval_of(j) == JVal::Obj(entity_rep(*s)),
    decreases *s,
{
    let mut b = ObjBuilder::new();
    opt_field(&mut b, "distance", &s.distance);
    let ghost g0 = b.rep();
    if let Some(m) = &s.effects {
        b.field("effects", map_to_json(m));
    }
    proof {
        assert(b.rep() =~= g0 + (match s.effects { Some(m) => seq![("effects"@, JVal::Obj(map_rep(m@)))], None => Seq::empty() }));
    }
    opt_field(&mut b, "equipment", &s.equipment);
    opt_field(&mut b, "flags", &s.flags);
    opt_field(&mut b, "location", &s.location);
    opt_field(&mut b, "nbt", &s.nbt);
    opt_field(&mut b, "player", &s.player);
    opt_field(&mut b, "team", &s.team);
    opt_field(&mut b, "type", &s.ty);
    let ghost g1 = b.rep();
    if let Some(e) = &s.targeted_entity {
        proof {
            assert(decreases_to!(*s => **e)) by {
                assert(decreases_to!(*s => s.targeted_entity));
                assert(decreases_to!(s.targeted_entity => *e));
            }
        }
        b.field("targeted_entity", entity_to_json(e));
    }
    proof {
        assert(b.rep() =~= g1 + (match s.targeted_entity { Some(e) => seq![("targeted_entity"@, JVal::Obj(entity_rep(*e)))], None => Seq::empty() }));
    }
    let ghost g2 = b.rep();
    if let Some(e) = &s.vehicle {
        proof {
            assert(decreases_to!(*s => **e)) by {
                assert(decreases_to!(*s => s.vehicle));
                assert(decreases_to!(s.vehicle => *e));
            }
        }
        b.field("vehicle", entity_to_json(e));
    }
    proof {
        assert(b.rep() =~= g2 + (match s.vehicle { Some(e) => seq![("vehicle"@, JVal::Obj(entity_rep(*e)))], None => Seq::empty() }));
    }
    let ghost r = b.rep();
    let j = b.done();
    proof {
        assert(r =~= entity_rep(*s));
    }
    j
}

impl Encode for EntityPredicate {
    open spec fn json_rep(&self) -> JVal {
        JVal::Obj(entity_rep(*self))
    }

    fn to_json(&self) -> (j: Json) {
        entity_to_json(self)
    }
}

/// A predicate for checking a damage source.
/// Every field is independently optional; set fields are implicitly
/// conjoined.  Start from `default()` and set only what matters.
pub struct DamagePredicate {
    /// Checks if the damage bypassed armor, as suffocation does.
    pub bypasses_armor: Option<bool>,
    /// Checks if the damage bypassed invulnerability.
    pub bypasses_invulnerability: Option<bool>,
    /// Checks if the damage was caused by starvation.
    pub bypasses_magic: Option<bool>,
    /// Checks if the damage originated from an explosion.
    pub is_explosion: Option<bool>,
    /// Checks if the damage originated from fire.
    pub is_fire: Option<bool>,
    /// Checks if the damage originated from magic.
    pub is_magic: Option<bool>,
    /// Checks if the damage originated from a projectile.
    pub is_projectile: Option<bool>,
    /// Checks if the damage originated from lightning.
    pub is_lightning: Option<bool>,
    /// The entity that was the direct cause of the damage.
    pub direct_entity: Option<EntityPredicate>,
    /// The entity that was the source of the damage, such as the skeleton that shot the arrow.
    pub source_entity: Option<EntityPredicate>,
}

impl Default for DamagePredicate {
    /// The unconstrained predicate: every field unset.
    fn default() -> (r: DamagePredicate)
        ensures
            r.bypasses_armor is None,
            r.bypasses_invulnerability is None,
            r.bypasses_magic is None,
            r.is_explosion is None,
            r.is_fire is None,
            r.is_magic is None,
            r.is_projectile is None,
            r.is_lightning is None,
            r.direct_entity is None,
            r.source_entity is None,
    {
        DamagePredicate {
            bypasses_armor: None,
            bypasses_invulnerability: None,
            bypasses_magic: None,
            is_explosion: None,
            is_fire: None,
            is_magic: None,
            is_projectile: None,
            is_lightning: None,
            direct_entity: None,
            source_entity: None,
        }
    }
}

/// The members of the object a [`DamagePredicate`] encodes as: its set
/// fields, in declared order.
pub open spec fn damage_rep(s: DamagePredicate) -> Seq<(Seq<char>, JVal)>
{
    opt_entry("bypasses_armor"@, s.bypasses_armor) + opt_entry("bypasses_invulnerability"@, s.bypasses_invulnerability) + opt_entry("bypasses_magic"@, s.bypasses_magic) + opt_entry("is_explosion"@, s.is_explosion) + opt_entry("is_fire"@, s.is_fire) + opt_entry("is_magic"@, s.is_magic) + opt_entry("is_projectile"@, s.is_projectile) + opt_entry("is_lightning"@, s.is_lightning) + opt_entry("direct_entity"@, s.direct_entity) + opt_entry("source_entity"@, s.source_entity)
}

impl Encode for DamagePredicate {
    open spec fn json_rep(&self) -> JVal {
        JVal::Obj(damage_rep(*self))
    }

    fn to_json(&self) -> (j: Json) {
        let mut b = ObjBuilder::new();
        opt_field(&mut b, "bypasses_armor", &self.bypasses_armor);
        opt_field(&mut b, "bypasses_invulnerability", &self.bypasses_invulnerability);
        opt_field(&mut b, "bypasses_magic", &self.bypasses_magic);
        opt_field(&mut b, "is_explosion", &self.is_explosion);
        opt_field(&mut b, "is_fire", &self.is_fire);
        opt_field(&mut b, "is_magic", &self.is_magic);
        opt_field(&mut b, "is_projectile", &self.is_projectile);
        opt_field(&mut b, "is_lightning", &self.is_lightning);
        opt_field(&mut b, "direct_entity", &self.direct_entity);
        opt_field(&mut b, "source_entity", &self.source_entity);
        let ghost r = b.rep();
        let j = b.done();
        proof {
            assert(r =~= damage_rep(*self));
        }
        j
    }
}

/// A predicate: one node of the conditional-logic tree.
///
/// Hand one to
/// [`Datapack::predicate`](crate::datapack::Datapack::predicate).
pub enum Predicate {
    /// Joins conditions with or.
    Alternative {
        /// A list of conditions to join.
        terms: Vec<Predicate>,
    },
    /// Checks the properties of a block state.
    BlockStateProperty {
        /// The test fails when this block doesn't match.
        block: Block,
        /// Properties to test, in the form `(property, expected value)`.
        properties: Option<Vec<(String, String)>>,
    },
    /// Checks the properties of the damage source.
    DamageSourceProperties {
        /// The predicate to check on the damage source.
        predicate: DamagePredicate,
    },
    /// Tests the properties of an entity.
    EntityProperties {
        /// The entity to test.
        entity: PlayerContextEntity,
        /// The predicate applied to the entity.
        predicate: EntityPredicate,
    },
    /// Tests an entity's scores.
    EntityScores {
        /// The entity to test.
        entity: PlayerContextEntity,
        /// The scores to test, in the form `(objective, value)`.
        scores: Vec<(String, OptionalRange<NumberProvider<i64>>)>,
    },
    /// Inverts a predicate.
    Inverted {
        /// The term to be negated.
        term: Box<Predicate>,
    },
    /// Tests the presence of a killer player.
    KilledByPlayer {
        /// If true, tests the absence instead.
        inverse: bool,
    },
    /// Tests the current location.
    LocationCheck {
        /// An optional offset in the x direction.
        offset_x: Option<i64>,
        /// An optional offset in the y direction.
        offset_y: Option<i64>,
        /// An optional offset in the z direction.
        offset_z: Option<i64>,
        /// The predicate to be applied to the location.
        predicate: LocationPredicate,
    },
    /// Checks the tool.
    MatchTool {
        /// The predicate to check the tool with.
        predicate: ItemPredicate,
    },
    /// Tests that a random number between 0 and 1 is less than the chance.
    RandomChance {
        /// The success rate.
        chance: Decimal,
    },
    /// A random chance adjusted by the killer's Looting level.
    RandomChanceWithLooting {
        /// The base success rate.
        chance: Decimal,
        /// The adjustment per looting level.
        looting_multiplier: Decimal,
    },
    /// Tests whether another predicate passes.
    Reference {
        /// The id of the predicate to test.
        name: Identifier,
    },
    /// Passes with probability one over the explosion radius.
    SurvivesExplosion,
    /// Passes with a probability picked from a table, indexed by enchantment level.
    TableBonus {
        /// The id of the enchantment.
        enchantment: i64,
        /// The probabilities per enchantment level, indexed from 0.
        chances: Vec<Decimal>,
    },
    /// Checks the current time.
    TimeCheck {
        /// The time value in ticks.
        value: OptionalRange<NumberProvider<i64>>,
        /// When set, the time is reduced modulo this period first.
        period: Option<i64>,
    },
    /// Checks the current weather.
    WeatherCheck {
        /// Tests whether it is raining.
        raining: Option<bool>,
        /// Tests whether it is thundering.
        thundering: Option<bool>,
    },
    /// Checks a value against a range.
    ValueCheck {
        /// The value to test.
        value: NumberProvider<i64>,
        /// The range to check against.
        range: OptionalRange<NumberProvider<i64>>,
    },
}

/// The JSON document of a predicate: an object whose `condition`
/// member is the variant's wire name, followed by the variant's fields
/// in declared order, each under its omission rule.  The recursive
/// fields of `alternative` and `inverted` re-invoke this same
/// encoding.
pub open spec fn predicate_rep(p: Predicate) -> JVal
    decreases p via predicate_rep_dec
{
    match p {
        Predicate::Alternative { terms } => JVal::Obj(seq![("condition"@, JVal::Str("alternative"@)), ("terms"@, JVal::Arr(predicates_rep(terms@)))]),
        Predicate::BlockStateProperty { block, properties } => JVal::Obj(seq![("condition"@, JVal::Str("block_state_property"@)), ("block"@, JVal::Str(block.name_spec()))] + (match properties { Some(m) => seq![("properties"@, JVal::Obj(map_rep(m@)))], None => Seq::empty() })),
        Predicate::DamageSourceProperties { predicate } => JVal::Obj(seq![("condition"@, JVal::Str("damage_source_properties"@)), ("predicate"@, JVal::Obj(damage_rep(predicate)))]),
        Predicate::EntityProperties { entity, predicate } => JVal::Obj(seq![("condition"@, JVal::Str("entity_properties"@)), ("entity"@, JVal::Str(entity.name_spec())), ("predicate"@, JVal::Obj(entity_rep(predicate)))]),
        Predicate::EntityScores { entity, scores } => JVal::Obj(seq![("condition"@, JVal::Str("entity_scores"@)), ("entity"@, JVal::Str(entity.name_spec())), ("scores"@, JVal::Arr(items_rep(scores@)))]),
        Predicate::Inverted { term } => JVal::Obj(seq![("condition"@, JVal::Str("inverted"@)), ("term"@, predicate_rep(*term))]),
        Predicate::KilledByPlayer { inverse } => JVal::Obj(seq![("condition"@, JVal::Str("killed_by_player"@))] + (if inverse { seq![("inverse"@, JVal::Bool(true))] } else { Seq::empty() })),
        Predicate::LocationCheck { offset_x, offset_y, offset_z, predicate } => JVal::Obj(seq![("condition"@, JVal::Str("location_check"@))] + (match offset_x { Some(v) => seq![("offsetX"@, JVal::Int(v))], None => Seq::empty() }) + (match offset_y { Some(v) => seq![("offsetY"@, JVal::Int(v))], None => Seq::empty() }) + (match offset_z { Some(v) => seq![("offsetZ"@, JVal::Int(v))], None => Seq::empty() }) + seq![("predicate"@, JVal::Obj(location_rep(predicate)))]),
        Predicate::MatchTool { predicate } => JVal::Obj(seq![("condition"@, JVal::Str("match_tool"@)), ("predicate"@, JVal::Obj(item_rep(predicate)))]),
        Predicate::RandomChance { chance } => JVal::Obj(seq![("condition"@, JVal::Str("random_chance"@)), ("chance"@, JVal::Dec(chance))]),
        Predicate::RandomChanceWithLooting { chance, looting_multiplier } => JVal::Obj(seq![("condition"@, JVal::Str("random_chance_with_looting"@)), ("chance"@, JVal::Dec(chance)), ("looting_multiplier"@, JVal::Dec(looting_multiplier))]),
        Predicate::Reference { name } => JVal::Obj(seq![("condition"@, JVal::Str("reference"@)), ("name"@, JVal::Str(name.canonical_chars()))]),
        Predicate::SurvivesExplosion => JVal::Obj(seq![("condition"@, JVal::Str("survives_explosion"@))]),
        Predicate::TableBonus { enchantment, chances } => JVal::Obj(seq![("condition"@, JVal::Str("table_bonus"@)), ("enchantment"@, JVal::Int(enchantment)), ("chances"@, JVal::Arr(items_rep(chances@)))]),
        Predicate::TimeCheck { value, period } => JVal::Obj(seq![("condition"@, JVal::Str("time_check"@)), ("value"@, value.json_rep())] + (match period { Some(v) => seq![("period"@, JVal::Int(v))], None => Seq::empty() })),
        Predicate::WeatherCheck { raining, thundering } => JVal::Obj(seq![("condition"@, JVal::Str("weather_check"@))] + (match raining { Some(v) => seq![("raining"@, JVal::Bool(v))], None => Seq::empty() }) + (match thundering { Some(v) => seq![("thundering"@, JVal::Bool(v))], None => Seq::empty() })),
        Predicate::ValueCheck { value, range } => JVal::Obj(seq![("condition"@, JVal::Str("value_check"@)), ("value"@, value.json_rep()), ("range"@, range.json_rep())]),
    }
}

#[via_fn]
proof fn predicate_rep_dec(p: Predicate) {
    match p {
        Predicate::Alternative { terms } => {
            assert(decreases_to!(p => terms));
            assert(decreases_to!(terms => terms@));
        },
        Predicate::Inverted { term } => {
            assert(decreases_to!(p => term));
        },
        _ => {},
    }
}

/// The JSON documents of a list of predicates, in source order.
pub open spec fn predicates_rep(s: Seq<Predicate>) -> Seq<JVal>
    decreases s,
{
    if s.len() == 0 {
        Seq::empty()
    } else {
        predicates_rep(s.subrange(0, s.len() - 1)).push(predicate_rep(s.last()))
    }
}

/// A prefix of a predicate list has the prefix of its documents.
proof fn lemma_predicates_rep_step(s: Seq<Predicate>, i: int)
    requires
        0 <= i < s.len(),
    ensures
        predicates_rep(s.subrange(0, i + 1)) == predicates_rep(s.subrange(0, i)).push(
            predicate_rep(s[i]),
        ),
{
    let pre = s.subrange(0, i + 1);
    assert(pre.subrange(0, pre.len() - 1) =~= s.subrange(0, i));
    assert(pre.last() == s[i]);
}

/// Encodes a list of predicates as a JSON array, in source order.
fn predicates_to_json(v: &Vec<Predicate>) -> (j: Json)
    ensures
        jval_of(j) == JVal::Arr(predicates_rep(v@)),
    decreases v@,
{
    let mut b = crate::json::ArrBuilder::new();
    proof {
        assert(predicates_rep(v@.subrange(0, 0)) =~= Seq::<JVal>::empty());
    }
    let mut k: usize = 0;
    while k < v.len()
        invariant
            k <= v.len(),
            b.rep() == predicates_rep(v@.subrange(0, k as int)),
        decreases v.len() - k,
    {
        proof {
            assert(decreases_to!(v@ => v@[k as int]));
        }
        b.item(predicate_to_json(&v[k]));
        proof {
            lemma_predicates_rep_step(v@, k as int);
        }
        k = k + 1;
    }
    proof {
        assert(v@.subrange(0, v@.len() as int) =~= v@);
    }
    b.done()
}

/// Encodes a predicate.
#[verifier::rlimit(100)]
pub fn predicate_to_json(p: &Predicate) -> (j: Json)
    ensures
        jval_of(j) == predicate_rep(*p),
    decreases *p,
{
    match p {
        Predicate::Alternative { terms } => {
            let mut b = ObjBuilder::new();
            b.field("condition", str_val("alternative"));
            proof {
                assert(decreases_to!(*p => terms@)) by {
                    assert(decreases_to!(*p => *terms));
                    assert(decreases_to!(*terms => terms@));
                }
            }
            b.field("terms", predicates_to_json(terms));
            proof {
                crate::json::lemma_obj_rep_2(
                    b.rep(),
                    ("condition"@, JVal::Str("alternative"@)),
                    ("terms"@, JVal::Arr(predicates_rep(terms@))),
                );
            }
            let ghost r = b.rep();
            let j = b.done();
            proof {
                assert(jval_of(j) =~~= predicate_rep(*p));
            }
            j
        },
        Predicate::BlockStateProperty { block, properties } => {
            let mut b = ObjBuilder::new();
            b.field("condition", str_val("block_state_property"));
            b.field("block", Json::Str(String::from_str(block.name())));
            proof {
                crate::json::lemma_obj_rep_2(
                    b.rep(),
                    ("condition"@, JVal::Str("block_state_property"@)),
                    ("block"@, JVal::Str(block.name_spec())),
                );
            }
            let ghost g0 = b.rep();
            if let Some(m) = properties {
                b.field("properties", map_to_json(m));
            }
            proof {
                assert(b.rep() =~= g0 + (match properties { Some(m) => seq![("properties"@, JVal::Obj(map_rep(m@)))], None => Seq::<(Seq<char>, JVal)>::empty() }));
            }
            let ghost r = b.rep();
            let j = b.done();
            proof {
                assert(jval_of(j) =~~= predicate_rep(*p));
            }
            j
        },
        Predicate::DamageSourceProperties { predicate } => {
            let mut b = ObjBuilder::new();
            b.field("condition", str_val("damage_source_properties"));
            b.field("predicate", predicate.to_json());
            proof {
                crate::json::lemma_obj_rep_2(
                    b.rep(),
                    ("condition"@, JVal::Str("damage_source_properties"@)),
                    ("predicate"@, JVal::Obj(damage_rep(*predicate))),
                );
            }
            let ghost r = b.rep();
            let j = b.done();
            proof {
                assert(jval_of(j) =~~= predicate_rep(*p));
            }
            j
        },
        Predicate::EntityProperties { entity, predicate } => {
            let mut b = ObjBuilder::new();
            b.field("condition", str_val("entity_properties"));
            b.field("entity", Json::Str(String::from_str(entity.name())));
            b.field("predicate", entity_to_json(predicate));
            proof {
                crate::json::lemma_obj_rep_3(
                    b.rep(),
                    ("condition"@, JVal::Str("entity_properties"@)),
                    ("entity"@, JVal::Str(entity.name_spec())),
                    ("predicate"@, JVal::Obj(entity_rep(*predicate))),
                );
            }
            let ghost r = b.rep();
            let j = b.done();
            proof {
                assert(jval_of(j) =~~= predicate_rep(*p));
            }
            j
        },
        Predicate::EntityScores { entity, scores } => {
            let mut b = ObjBuilder::new();
            b.field("condition", str_val("entity_scores"));
            b.field("entity", Json::Str(String::from_str(entity.name())));
            b.field("scores", list_to_json(scores));
            proof {
                crate::json::lemma_obj_rep_3(
                    b.rep(),
                    ("condition"@, JVal::Str("entity_scores"@)),
                    ("entity"@, JVal::Str(entity.name_spec())),
                    ("scores"@, JVal::Arr(items_rep(scores@))),
                );
            }
            let ghost r = b.rep();
            let j = b.done();
            proof {
                assert(jval_of(j) =~~= predicate_rep(*p));
            }
            j
        },
        Predicate::Inverted { term } => {
            let mut b = ObjBuilder::new();
            b.field("condition", str_val("inverted"));
            proof {
                assert(decreases_to!(*p => **term)) by {
                    assert(decreases_to!(*p => *term));
                }
            }
            b.field("term", predicate_to_json(term));
            proof {
                crate::json::lemma_obj_rep_2(
                    b.rep(),
                    ("condition"@, JVal::Str("inverted"@)),
                    ("term"@, predicate_rep(**term)),
                );
            }
            let ghost r = b.rep();
            let j = b.done();
            proof {
                assert(jval_of(j) =~~= predicate_rep(*p));
            }
            j
        },
        Predicate::KilledByPlayer { inverse } => {
            let mut b = ObjBuilder::new();
            b.field("condition", str_val("killed_by_player"));
            proof {
                crate::json::lemma_obj_rep_1(
                    b.rep(),
                    ("condition"@, JVal::Str("killed_by_player"@)),
                );
            }
            let ghost g0 = b.rep();
            if *inverse {
                b.field("inverse", Json::Bool(true));
            }
            proof {
                assert(b.rep() =~= g0 + (if *inverse { seq![("inverse"@, JVal::Bool(true))] } else { Seq::<(Seq<char>, JVal)>::empty() }));
            }
            let ghost r = b.rep();
            let j = b.done();
            proof {
                assert(jval_of(j) =~~= predicate_rep(*p));
            }
            j
        },
        Predicate::LocationCheck { offset_x, offset_y, offset_z, predicate } => {
            let mut b = ObjBuilder::new();
            b.field("condition", str_val("location_check"));
            proof {
                crate::json::lemma_obj_rep_1(
                    b.rep(),
                    ("condition"@, JVal::Str("location_check"@)),
                );
            }
            let ghost g0 = b.rep();
            if let Some(v) = offset_x {
                b.field("offsetX", Json::Int(*v));
            }
            proof {
                assert(b.rep() =~= g0 + (match offset_x { Some(v) => seq![("offsetX"@, JVal::Int(*v))], None => Seq::<(Seq<char>, JVal)>::empty() }));
            }
            let ghost g1 = b.rep();
            if let Some(v) = offset_y {
                b.field("offsetY", Json::Int(*v));
            }
            proof {
                assert(b.rep() =~= g1 + (match offset_y { Some(v) => seq![("offsetY"@, JVal::Int(*v))], None => Seq::<(Seq<char>, JVal)>::empty() }));
            }
            let ghost g2 = b.rep();
            if let Some(v) = offset_z {
                b.field("offsetZ", Json::Int(*v));
            }
            proof {
                assert(b.rep() =~= g2 + (match offset_z { Some(v) => seq![("offsetZ"@, JVal::Int(*v))], None => Seq::<(Seq<char>, JVal)>::empty() }));
            }
            let ghost g3 = b.rep();
            b.field("predicate", predicate.to_json());
            proof {
                assert(b.rep() =~= g3 + seq![("predicate"@, JVal::Obj(location_rep(*predicate)))]);
            }
            let ghost r = b.rep();
            let j = b.done();
            proof {
                assert(jval_of(j) =~~= predicate_rep(*p));
            }
            j
        },
        Predicate::MatchTool { predicate } => {
            let mut b = ObjBuilder::new();
            b.field("condition", str_val("match_tool"));
            b.field("predicate", predicate.to_json());
            proof {
                crate::json::lemma_obj_rep_2(
                    b.rep(),
                    ("condition"@, JVal::Str("match_tool"@)),
                    ("predicate"@, JVal::Obj(item_rep(*predicate))),
                );
            }
            let ghost r = b.rep();
            let j = b.done();
            proof {
                assert(jval_of(j) =~~= predicate_rep(*p));
            }
            j
        },
        Predicate::RandomChance { chance } => {
            let mut b = ObjBuilder::new();
            b.field("condition", str_val("random_chance"));
            b.field("chance", Json::Dec(*chance));
            proof {
                crate::json::lemma_obj_rep_2(
                    b.rep(),
                    ("condition"@, JVal::Str("random_chance"@)),
                    ("chance"@, JVal::Dec(*chance)),
                );
            }
            let ghost r = b.rep();
            let j = b.done();
            proof {
                assert(jval_of(j) =~~= predicate_rep(*p));
            }
            j
        },
        Predicate::RandomChanceWithLooting { chance, looting_multiplier } => {
            let mut b = ObjBuilder::new();
            b.field("condition", str_val("random_chance_with_looting"));
            b.field("chance", Json::Dec(*chance));
            b.field("looting_multiplier", Json::Dec(*looting_multiplier));
            proof {
                crate::json::lemma_obj_rep_3(
                    b.rep(),
                    ("condition"@, JVal::Str("random_chance_with_looting"@)),
                    ("chance"@, JVal::Dec(*chance)),
                    ("looting_multiplier"@, JVal::Dec(*looting_multiplier)),
                );
            }
            let ghost r = b.rep();
            let j = b.done();
            proof {
                assert(jval_of(j) =~~= predicate_rep(*p));
            }
            j
        },
        Predicate::Reference { name } => {
            let mut b = ObjBuilder::new();
            b.field("condition", str_val("reference"));
            b.field("name", Json::Str(name.canonical()));
            proof {
                crate::json::lemma_obj_rep_2(
                    b.rep(),
                    ("condition"@, JVal::Str("reference"@)),
                    ("name"@, JVal::Str(name.canonical_chars())),
                );
            }
            let ghost r = b.rep();
            let j = b.done();
            proof {
                assert(jval_of(j) =~~= predicate_rep(*p));
            }
            j
        },
        Predicate::SurvivesExplosion => {
            let mut b = ObjBuilder::new();
            b.field("condition", str_val("survives_explosion"));
            proof {
                crate::json::lemma_obj_rep_1(
                    b.rep(),
                    ("condition"@, JVal::Str("survives_explosion"@)),
                );
            }
            let ghost r = b.rep();
            let j = b.done();
            proof {
                assert(jval_of(j) =~~= predicate_rep(*p));
            }
            j
        },
        Predicate::TableBonus { enchantment, chances } => {
            let mut b = ObjBuilder::new();
            b.field("condition", str_val("table_bonus"));
            b.field("enchantment", Json::Int(*enchantment));
            b.field("chances", list_to_json(chances));
            proof {
                crate::json::lemma_obj_rep_3(
                    b.rep(),
                    ("condition"@, JVal::Str("table_bonus"@)),
                    ("enchantment"@, JVal::Int(*enchantment)),
                    ("chances"@, JVal::Arr(items_rep(chances@))),
                );
            }
            let ghost r = b.rep();
            let j = b.done();
            proof {
                assert(jval_of(j) =~~= predicate_rep(*p));
            }
            j
        },
        Predicate::TimeCheck { value, period } => {
            let mut b = ObjBuilder::new();
            b.field("condition", str_val("time_check"));
            b.field("value", value.to_json());
            proof {
                crate::json::lemma_obj_rep_2(
                    b.rep(),
                    ("condition"@, JVal::Str("time_check"@)),
                    ("value"@, value.json_rep()),
                );
            }
            let ghost g0 = b.rep();
            if let Some(v) = period {
                b.field("period", Json::Int(*v));
            }
            proof {
                assert(b.rep() =~= g0 + (match period { Some(v) => seq![("period"@, JVal::Int(*v))], None => Seq::<(Seq<char>, JVal)>::empty() }));
            }
            let ghost r = b.rep();
            let j = b.done();
            proof {
                assert(jval_of(j) =~~= predicate_rep(*p));
            }
            j
        },
        Predicate::WeatherCheck { raining, thundering } => {
            let mut b = ObjBuilder::new();
            b.field("condition", str_val("weather_check"));
            proof {
                crate::json::lemma_obj_rep_1(
                    b.rep(),
                    ("condition"@, JVal::Str("weather_check"@)),
                );
            }
            let ghost g0 = b.rep();
            if let Some(v) = raining {
                b.field("raining", Json::Bool(*v));
            }
            proof {
                assert(b.rep() =~= g0 + (match raining { Some(v) => seq![("raining"@, JVal::Bool(*v))], None => Seq::<(Seq<char>, JVal)>::empty() }));
            }
            let ghost g1 = b.rep();
            if let Some(v) = thundering {
                b.field("thundering", Json::Bool(*v));
            }
            proof {
                assert(b.rep() =~= g1 + (match thundering { Some(v) => seq![("thundering"@, JVal::Bool(*v))], None => Seq::<(Seq<char>, JVal)>::empty() }));
            }
            let ghost r = b.rep();
            let j = b.done();
            proof {
                assert(jval_of(j) =~~= predicate_rep(*p));
            }
            j
        },
        Predicate::ValueCheck { value, range } => {
            let mut b = ObjBuilder::new();
            b.field("condition", str_val("value_check"));
            b.field("value", value.to_json());
            b.field("range", range.to_json());
            proof {
                crate::json::lemma_obj_rep_3(
                    b.rep(),
                    ("condition"@, JVal::Str("value_check"@)),
                    ("value"@, value.json_rep()),
                    ("range"@, range.json_rep()),
                );
            }
            let ghost r = b.rep();
            let j = b.done();
            proof {
                assert(jval_of(j) =~~= predicate_rep(*p));
            }
            j
        },
    }
}

} // verus!
