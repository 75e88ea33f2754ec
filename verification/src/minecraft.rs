//! The closed catalogs of game content names.
//!
//! Each catalog is a closed enumeration with a stable canonical identifier
//! string, consumed by the encoders through [`name`](Block::name) alone.  The
//! catalogs here carry the entries the rest of the crate and its tests use;
//! growing one is adding a variant and its name arm.

use vstd::prelude::*;

verus! {

/// A block, named by its canonical lower-case identifier.
#[derive(PartialEq, Eq, Structural, Clone, Copy, Debug)]
#[allow(missing_docs)]
pub enum Block {
    Air, Stone, Dirt, DiamondBlock, GoldBlock, Dispenser, Furnace, Chest, Campfire, Cobblestone,
}

impl Block {
    /// The canonical identifier of the entry.
    pub open spec fn name_spec(self) -> Seq<char> {
        match self {
            Block::Air => "air"@,
            Block::Stone => "stone"@,
            Block::Dirt => "dirt"@,
            Block::DiamondBlock => "diamond_block"@,
            Block::GoldBlock => "gold_block"@,
            Block::Dispenser => "dispenser"@,
            Block::Furnace => "furnace"@,
            Block::Chest => "chest"@,
            Block::Campfire => "campfire"@,
            Block::Cobblestone => "cobblestone"@,
        }
    }

    /// The canonical identifier of the entry.
    pub fn name(&self) -> (r: &'static str)
        ensures
            r@ == self.name_spec(),
    {
        match self {
            Block::Air => "air",
            Block::Stone => "stone",
            Block::Dirt => "dirt",
            Block::DiamondBlock => "diamond_block",
            Block::GoldBlock => "gold_block",
            Block::Dispenser => "dispenser",
            Block::Furnace => "furnace",
            Block::Chest => "chest",
            Block::Campfire => "campfire",
            Block::Cobblestone => "cobblestone",
        }
    }
}

/// An item, named by its canonical lower-case identifier.
#[derive(PartialEq, Eq, Structural, Clone, Copy, Debug)]
#[allow(missing_docs)]
pub enum Item {
    Dirt, Stone, Dispenser, GoldenCarrot, DiamondSword, Emerald, Apple, Bread, Stick, EnchantedBook,
}

impl Item {
    /// The canonical identifier of the entry.
    pub open spec fn name_spec(self) -> Seq<char> {
        match self {
            Item::Dirt => "dirt"@,
            Item::Stone => "stone"@,
            Item::Dispenser => "dispenser"@,
            Item::GoldenCarrot => "golden_carrot"@,
            Item::DiamondSword => "diamond_sword"@,
            Item::Emerald => "emerald"@,
            Item::Apple => "apple"@,
            Item::Bread => "bread"@,
            Item::Stick => "stick"@,
            Item::EnchantedBook => "enchanted_book"@,
        }
    }

    /// The canonical identifier of the entry.
    pub fn name(&self) -> (r: &'static str)
        ensures
            r@ == self.name_spec(),
    {
        match self {
            Item::Dirt => "dirt",
            Item::Stone => "stone",
            Item::Dispenser => "dispenser",
            Item::GoldenCarrot => "golden_carrot",
            Item::DiamondSword => "diamond_sword",
            Item::Emerald => "emerald",
            Item::Apple => "apple",
            Item::Bread => "bread",
            Item::Stick => "stick",
            Item::EnchantedBook => "enchanted_book",
        }
    }
}

/// An entity kind, named by its canonical lower-case identifier.
#[derive(PartialEq, Eq, Structural, Clone, Copy, Debug)]
#[allow(missing_docs)]
pub enum Entity {
    Cow, Pig, Zombie, Skeleton, Creeper, Player, ArmorStand, Arrow,
}

impl Entity {
    /// The canonical identifier of the entry.
    pub open spec fn name_spec(self) -> Seq<char> {
        match self {
            Entity::Cow => "cow"@,
            Entity::Pig => "pig"@,
            Entity::Zombie => "zombie"@,
            Entity::Skeleton => "skeleton"@,
            Entity::Creeper => "creeper"@,
            Entity::Player => "player"@,
            Entity::ArmorStand => "armor_stand"@,
            Entity::Arrow => "arrow"@,
        }
    }

    /// The canonical identifier of the entry.
    pub fn name(&self) -> (r: &'static str)
        ensures
            r@ == self.name_spec(),
    {
        match self {
            Entity::Cow => "cow",
            Entity::Pig => "pig",
            Entity::Zombie => "zombie",
            Entity::Skeleton => "skeleton",
            Entity::Creeper => "creeper",
            Entity::Player => "player",
            Entity::ArmorStand => "armor_stand",
            Entity::Arrow => "arrow",
        }
    }
}

/// A status effect, named by its canonical lower-case identifier.
#[derive(PartialEq, Eq, Structural, Clone, Copy, Debug)]
#[allow(missing_docs)]
pub enum Effect {
    Regeneration, Blindness, Absorption, Speed, Strength, Poison, NightVision, Slowness,
}

impl Effect {
    /// The canonical identifier of the entry.
    pub open spec fn name_spec(self) -> Seq<char> {
        match self {
            Effect::Regeneration => "regeneration"@,
            Effect::Blindness => "blindness"@,
            Effect::Absorption => "absorption"@,
            Effect::Speed => "speed"@,
            Effect::Strength => "strength"@,
            Effect::Poison => "poison"@,
            Effect::NightVision => "night_vision"@,
            Effect::Slowness => "slowness"@,
        }
    }

    /// The canonical identifier of the entry.
    pub fn name(&self) -> (r: &'static str)
        ensures
            r@ == self.name_spec(),
    {
        match self {
            Effect::Regeneration => "regeneration",
            Effect::Blindness => "blindness",
            Effect::Absorption => "absorption",
            Effect::Speed => "speed",
            Effect::Strength => "strength",
            Effect::Poison => "poison",
            Effect::NightVision => "night_vision",
            Effect::Slowness => "slowness",
        }
    }
}

/// An enchantment, named by its canonical lower-case identifier.
#[derive(PartialEq, Eq, Structural, Clone, Copy, Debug)]
#[allow(missing_docs)]
pub enum Enchant {
    Sharpness, Looting, Fortune, SilkTouch, Unbreaking, Mending, Efficiency, Protection,
}

impl Enchant {
    /// The canonical identifier of the entry.
    pub open spec fn name_spec(self) -> Seq<char> {
        match self {
            Enchant::Sharpness => "sharpness"@,
            Enchant::Looting => "looting"@,
            Enchant::Fortune => "fortune"@,
            Enchant::SilkTouch => "silk_touch"@,
            Enchant::Unbreaking => "unbreaking"@,
            Enchant::Mending => "mending"@,
            Enchant::Efficiency => "efficiency"@,
            Enchant::Protection => "protection"@,
        }
    }

    /// The canonical identifier of the entry.
    pub fn name(&self) -> (r: &'static str)
        ensures
            r@ == self.name_spec(),
    {
        match self {
            Enchant::Sharpness => "sharpness",
            Enchant::Looting => "looting",
            Enchant::Fortune => "fortune",
            Enchant::SilkTouch => "silk_touch",
            Enchant::Unbreaking => "unbreaking",
            Enchant::Mending => "mending",
            Enchant::Efficiency => "efficiency",
            Enchant::Protection => "protection",
        }
    }
}

/// A generated structure, named by its canonical lower-case identifier.
#[derive(PartialEq, Eq, Structural, Clone, Copy, Debug)]
#[allow(missing_docs)]
pub enum Structure {
    Village, Mansion, Monument, Stronghold, Mineshaft, Fortress, BuriedTreasure, Shipwreck,
}

impl Structure {
    /// The canonical identifier of the entry.
    pub open spec fn name_spec(self) -> Seq<char> {
        match self {
            Structure::Village => "village"@,
            Structure::Mansion => "mansion"@,
            Structure::Monument => "monument"@,
            Structure::Stronghold => "stronghold"@,
            Structure::Mineshaft => "mineshaft"@,
            Structure::Fortress => "fortress"@,
            Structure::BuriedTreasure => "buried_treasure"@,
            Structure::Shipwreck => "shipwreck"@,
        }
    }

    /// The canonical identifier of the entry.
    pub fn name(&self) -> (r: &'static str)
        ensures
            r@ == self.name_spec(),
    {
        match self {
            Structure::Village => "village",
            Structure::Mansion => "mansion",
            Structure::Monument => "monument",
            Structure::Stronghold => "stronghold",
            Structure::Mineshaft => "mineshaft",
            Structure::Fortress => "fortress",
            Structure::BuriedTreasure => "buried_treasure",
            Structure::Shipwreck => "shipwreck",
        }
    }
}

/// A potion, named by its canonical lower-case identifier.
#[derive(PartialEq, Eq, Structural, Clone, Copy, Debug)]
#[allow(missing_docs)]
pub enum Potion {
    Water, Healing, Swiftness, Invisibility, Leaping, FireResistance, SlowFalling, Luck,
}

impl Potion {
    /// The canonical identifier of the entry.
    pub open spec fn name_spec(self) -> Seq<char> {
        match self {
            Potion::Water => "water"@,
            Potion::Healing => "healing"@,
            Potion::Swiftness => "swiftness"@,
            Potion::Invisibility => "invisibility"@,
            Potion::Leaping => "leaping"@,
            Potion::FireResistance => "fire_resistance"@,
            Potion::SlowFalling => "slow_falling"@,
            Potion::Luck => "luck"@,
        }
    }

    /// The canonical identifier of the entry.
    pub fn name(&self) -> (r: &'static str)
        ensures
            r@ == self.name_spec(),
    {
        match self {
            Potion::Water => "water",
            Potion::Healing => "healing",
            Potion::Swiftness => "swiftness",
            Potion::Invisibility => "invisibility",
            Potion::Leaping => "leaping",
            Potion::FireResistance => "fire_resistance",
            Potion::SlowFalling => "slow_falling",
            Potion::Luck => "luck",
        }
    }
}

/// A colour, named by its canonical lower-case identifier.
#[derive(PartialEq, Eq, Structural, Clone, Copy, Debug)]
#[allow(missing_docs)]
pub enum Color {
    White, Orange, Magenta, LightBlue, Yellow, Lime, Pink, Gray, LightGray, Cyan, Purple, Blue, Brown, Green, Red, Black,
}

impl Color {
    /// The canonical identifier of the entry.
    pub open spec fn name_spec(self) -> Seq<char> {
        match self {
            Color::White => "white"@,
            Color::Orange => "orange"@,
            Color::Magenta => "magenta"@,
            Color::LightBlue => "light_blue"@,
            Color::Yellow => "yellow"@,
            Color::Lime => "lime"@,
            Color::Pink => "pink"@,
            Color::Gray => "gray"@,
            Color::LightGray => "light_gray"@,
            Color::Cyan => "cyan"@,
            Color::Purple => "purple"@,
            Color::Blue => "blue"@,
            Color::Brown => "brown"@,
            Color::Green => "green"@,
            Color::Red => "red"@,
            Color::Black => "black"@,
        }
    }

    /// The canonical identifier of the entry.
    pub fn name(&self) -> (r: &'static str)
        ensures
            r@ == self.name_spec(),
    {
        match self {
            Color::White => "white",
            Color::Orange => "orange",
            Color::Magenta => "magenta",
            Color::LightBlue => "light_blue",
            Color::Yellow => "yellow",
            Color::Lime => "lime",
            Color::Pink => "pink",
            Color::Gray => "gray",
            Color::LightGray => "light_gray",
            Color::Cyan => "cyan",
            Color::Purple => "purple",
            Color::Blue => "blue",
            Color::Brown => "brown",
            Color::Green => "green",
            Color::Red => "red",
            Color::Black => "black",
        }
    }
}

} // verus!
