//! The closed vocabularies of the card filters.

use crate::api::query::FilterValue;
use vstd::prelude::*;

verus! {

/// Languages a card name can be searched in.
#[derive(Copy, Clone, Eq, PartialEq, Debug)]
pub enum CardLanguage {
    ChineseSimplified,
    ChineseTraditional,
    French,
    German,
    Italian,
    Japanese,
    Korean,
    Portuguese,
    Russian,
    Spanish,
}

impl FilterValue for CardLanguage {
    open spec fn shown(self) -> Seq<char> {
        match self {
            CardLanguage::ChineseSimplified => "Chinese Simplified"@,
            CardLanguage::ChineseTraditional => "Chinese Traditional"@,
            CardLanguage::French => "French"@,
            CardLanguage::German => "German"@,
            CardLanguage::Italian => "Italian"@,
            CardLanguage::Japanese => "Japanese"@,
            CardLanguage::Korean => "Korean"@,
            CardLanguage::Portuguese => "Portuguese"@,
            CardLanguage::Russian => "Russian"@,
            CardLanguage::Spanish => "Spanish"@,
        }
    }

    fn show(self) -> (res: &'static str) {
        self.as_str()
    }
}

impl CardLanguage {
    /// The text the service expects for this language.
    pub fn as_str(self) -> (res: &'static str)
        ensures
            res@ == self.shown(),
    {
        match self {
            CardLanguage::ChineseSimplified => "Chinese Simplified",
            CardLanguage::ChineseTraditional => "Chinese Traditional",
            CardLanguage::French => "French",
            CardLanguage::German => "German",
            CardLanguage::Italian => "Italian",
            CardLanguage::Japanese => "Japanese",
            CardLanguage::Korean => "Korean",
            CardLanguage::Portuguese => "Portuguese",
            CardLanguage::Russian => "Russian",
            CardLanguage::Spanish => "Spanish",
        }
    }
}

/// Card layouts.
#[derive(Copy, Clone, Eq, PartialEq, Debug)]
pub enum CardLayout {
    Normal,
    Split,
    Flip,
    DoubleFaced,
    Token,
    Plane,
    Scheme,
    Phenomenon,
    Leveler,
    Vanguard,
    Aftermath,
}

impl FilterValue for CardLayout {
    open spec fn shown(self) -> Seq<char> {
        match self {
            CardLayout::Normal => "Normal"@,
            CardLayout::Split => "Split"@,
            CardLayout::Flip => "Flip"@,
            CardLayout::DoubleFaced => "Double-Faced"@,
            CardLayout::Token => "Token"@,
            CardLayout::Plane => "Plane"@,
            CardLayout::Scheme => "Scheme"@,
            CardLayout::Phenomenon => "Phenomen"@,
            CardLayout::Leveler => "Level"@,
            CardLayout::Vanguard => "Vanguard"@,
            CardLayout::Aftermath => "Aftermath"@,
        }
    }

    fn show(self) -> (res: &'static str) {
        self.as_str()
    }
}

impl CardLayout {
    /// The text the service expects for this layout.
    pub fn as_str(self) -> (res: &'static str)
        ensures
            res@ == self.shown(),
    {
        match self {
            CardLayout::Normal => "Normal",
            CardLayout::Split => "Split",
            CardLayout::Flip => "Flip",
            CardLayout::DoubleFaced => "Double-Faced",
            CardLayout::Token => "Token",
            CardLayout::Plane => "Plane",
            CardLayout::Scheme => "Scheme",
            CardLayout::Phenomenon => "Phenomen",
            CardLayout::Leveler => "Level",
            CardLayout::Vanguard => "Vanguard",
            CardLayout::Aftermath => "Aftermath",
        }
    }
}

/// Card colors.
#[derive(Copy, Clone, Eq, PartialEq, Debug)]
pub enum CardColor {
    White,
    Blue,
    Black,
    Red,
    Green,
}

impl FilterValue for CardColor {
    open spec fn shown(self) -> Seq<char> {
        match self {
            CardColor::White => "White"@,
            CardColor::Blue => "Blue"@,
            CardColor::Black => "Black"@,
            CardColor::Red => "Red"@,
            CardColor::Green => "Green"@,
        }
    }

    fn show(self) -> (res: &'static str) {
        self.as_str()
    }
}

impl CardColor {
    /// The text the service expects for this color.
    pub fn as_str(self) -> (res: &'static str)
        ensures
            res@ == self.shown(),
    {
        match self {
            CardColor::White => "White",
            CardColor::Blue => "Blue",
            CardColor::Black => "Black",
            CardColor::Red => "Red",
            CardColor::Green => "Green",
        }
    }
}

/// Color identities, by their one-letter symbols.
#[derive(Copy, Clone, Eq, PartialEq, Debug)]
pub enum CardColorIdentity {
    W,
    U,
    B,
    R,
    G,
}

impl FilterValue for CardColorIdentity {
    open spec fn shown(self) -> Seq<char> {
        match self {
            CardColorIdentity::W => "W"@,
            CardColorIdentity::U => "U"@,
            CardColorIdentity::B => "B"@,
            CardColorIdentity::R => "R"@,
            CardColorIdentity::G => "G"@,
        }
    }

    fn show(self) -> (res: &'static str) {
        self.as_str()
    }
}

impl CardColorIdentity {
    /// The text the service expects for this color identity.
    pub fn as_str(self) -> (res: &'static str)
        ensures
            res@ == self.shown(),
    {
        match self {
            CardColorIdentity::W => "W",
            CardColorIdentity::U => "U",
            CardColorIdentity::B => "B",
            CardColorIdentity::R => "R",
            CardColorIdentity::G => "G",
        }
    }
}

/// Card supertypes.
#[derive(Copy, Clone, Eq, PartialEq, Debug)]
pub enum CardSuperType {
    Basic,
    Legendary,
    Ongoing,
    Snow,
    World,
}

impl FilterValue for CardSuperType {
    open spec fn shown(self) -> Seq<char> {
        match self {
            CardSuperType::Basic => "Basic"@,
            CardSuperType::Legendary => "Legendary"@,
            CardSuperType::Ongoing => "Ongoing"@,
            CardSuperType::Snow => "Snow"@,
            CardSuperType::World => "World"@,
        }
    }

    fn show(self) -> (res: &'static str) {
        self.as_str()
    }
}

impl CardSuperType {
    /// The text the service expects for this supertype.
    pub fn as_str(self) -> (res: &'static str)
        ensures
            res@ == self.shown(),
    {
        match self {
            CardSuperType::Basic => "Basic",
            CardSuperType::Legendary => "Legendary",
            CardSuperType::Ongoing => "Ongoing",
            CardSuperType::Snow => "Snow",
            CardSuperType::World => "World",
        }
    }
}

/// Card types.
#[derive(Copy, Clone, Eq, PartialEq, Debug)]
pub enum CardType {
    Artifact,
    Conspiracy,
    Creature,
    Enchantment,
    Host,
    Instant,
    Land,
    Phenomenon,
    Plane,
    Planeswalker,
    Scheme,
    Sorcery,
    Tribal,
    Vanguard,
}

impl FilterValue for CardType {
    open spec fn shown(self) -> Seq<char> {
        match self {
            CardType::Artifact => "Artifact"@,
            CardType::Conspiracy => "Conspiracy"@,
            CardType::Creature => "Creature"@,
            CardType::Enchantment => "Enchantment"@,
            CardType::Host => "Host"@,
            CardType::Instant => "Instant"@,
            CardType::Land => "Land"@,
            CardType::Phenomenon => "Phenomenon"@,
            CardType::Plane => "Plane"@,
            CardType::Planeswalker => "Planeswalker"@,
            CardType::Scheme => "Scheme"@,
            CardType::Sorcery => "Sorcery"@,
            CardType::Tribal => "Tribal"@,
            CardType::Vanguard => "Vanguard"@,
        }
    }

    fn show(self) -> (res: &'static str) {
        self.as_str()
    }
}

impl CardType {
    /// The text the service expects for this card type.
    pub fn as_str(self) -> (res: &'static str)
        ensures
            res@ == self.shown(),
    {
        match self {
            CardType::Artifact => "Artifact",
            CardType::Conspiracy => "Conspiracy",
            CardType::Creature => "Creature",
            CardType::Enchantment => "Enchantment",
            CardType::Host => "Host",
            CardType::Instant => "Instant",
            CardType::Land => "Land",
            CardType::Phenomenon => "Phenomenon",
            CardType::Plane => "Plane",
            CardType::Planeswalker => "Planeswalker",
            CardType::Scheme => "Scheme",
            CardType::Sorcery => "Sorcery",
            CardType::Tribal => "Tribal",
            CardType::Vanguard => "Vanguard",
        }
    }
}

/// Card rarities.
#[derive(Copy, Clone, Eq, PartialEq, Debug)]
pub enum CardRarity {
    Common,
    Uncommon,
    Rare,
    MythicRare,
    Special,
    BasicLand,
}

impl FilterValue for CardRarity {
    open spec fn shown(self) -> Seq<char> {
        match self {
            CardRarity::Common => "Common"@,
            CardRarity::Uncommon => "Uncommon"@,
            CardRarity::Rare => "Rare"@,
            CardRarity::MythicRare => "Mythic Rare"@,
            CardRarity::Special => "Special"@,
            CardRarity::BasicLand => "Basic Land"@,
        }
    }

    fn show(self) -> (res: &'static str) {
        self.as_str()
    }
}

impl CardRarity {
    /// The text the service expects for this rarity.
    pub fn as_str(self) -> (res: &'static str)
        ensures
            res@ == self.shown(),
    {
        match self {
            CardRarity::Common => "Common",
            CardRarity::Uncommon => "Uncommon",
            CardRarity::Rare => "Rare",
            CardRarity::MythicRare => "Mythic Rare",
            CardRarity::Special => "Special",
            CardRarity::BasicLand => "Basic Land",
        }
    }
}

/// Legalities of a card in a game format.
#[derive(Copy, Clone, Eq, PartialEq, Debug)]
pub enum CardLegality {
    Banned,
    Restricted,
    Legal,
}

impl FilterValue for CardLegality {
    open spec fn shown(self) -> Seq<char> {
        match self {
            CardLegality::Banned => "Banned"@,
            CardLegality::Restricted => "Restricted"@,
            CardLegality::Legal => "Legal"@,
        }
    }

    fn show(self) -> (res: &'static str) {
        self.as_str()
    }
}

impl CardLegality {
    /// The text the service expects for this legality.
    pub fn as_str(self) -> (res: &'static str)
        ensures
            res@ == self.shown(),
    {
        match self {
            CardLegality::Banned => "Banned",
            CardLegality::Restricted => "Restricted",
            CardLegality::Legal => "Legal",
        }
    }
}

/// Game formats.
#[derive(Copy, Clone, Eq, PartialEq, Debug)]
pub enum GameFormat {
    AmonkhetBlock,
    BattleForZendikarBlock,
    Brawl,
    Classic,
    Commander,
    Extended,
    IceAgeBlock,
    InnistradBlock,
    InvasionBlock,
    IxalanBlock,
    KaladeshBlock,
    KamigawaBlock,
    KhansOfTarkirBlock,
    Legacy,
    LorwynShadowmoorBlock,
    MasquesBlock,
    MirageBlock,
    MirrodinBlock,
    Modern,
    OdysseyBlock,
    OnslaughtBlock,
    RavnicaBlock,
    ReturnToRavnicaBlock,
    ScarsOfMirrodinBlock,
    ShadowsOverInnistradBlock,
    ShardsOfAlaraBlock,
    Standard,
    TempestBlock,
    TherosBlock,
    TimeSpiralBlock,
    UnSets,
    UrzaBlock,
    Vintage,
    ZendikarBlock,
}

impl FilterValue for GameFormat {
    open spec fn shown(self) -> Seq<char> {
        match self {
            GameFormat::AmonkhetBlock => "Amonkhet Block"@,
            GameFormat::BattleForZendikarBlock => "Battle for Zendikar Block"@,
            GameFormat::Brawl => "Brawl"@,
            GameFormat::Classic => "Classic"@,
            GameFormat::Commander => "Commander"@,
            GameFormat::Extended => "Extended"@,
            GameFormat::IceAgeBlock => "Ice Age Block"@,
            GameFormat::InnistradBlock => "Innistrad Block"@,
            GameFormat::InvasionBlock => "Invasion Block"@,
            GameFormat::IxalanBlock => "Ixalan Block"@,
            GameFormat::KaladeshBlock => "Kaladesh Block"@,
            GameFormat::KamigawaBlock => "Kamigawa Block"@,
            GameFormat::KhansOfTarkirBlock => "Khans of Tarkir Block"@,
            GameFormat::Legacy => "Legacy"@,
            GameFormat::LorwynShadowmoorBlock => "Lorwyn-Shadowmoor Block"@,
            GameFormat::MasquesBlock => "Masques Block"@,
            GameFormat::MirageBlock => "Mirage Block"@,
            GameFormat::MirrodinBlock => "Mirrodin Block"@,
            GameFormat::Modern => "Modern"@,
            GameFormat::OdysseyBlock => "Odyssey Block"@,
            GameFormat::OnslaughtBlock => "Onslaught Block"@,
            GameFormat::RavnicaBlock => "Ravnica Block"@,
            GameFormat::ReturnToRavnicaBlock => "Return to Ravnica Block"@,
            GameFormat::ScarsOfMirrodinBlock => "Scars of Mirrodin Block"@,
            GameFormat::ShadowsOverInnistradBlock => "Shadows over Innistrad Block"@,
            GameFormat::ShardsOfAlaraBlock => "Shards of Alara Block"@,
            GameFormat::Standard => "Standard"@,
            GameFormat::TempestBlock => "Tempest Block"@,
            GameFormat::TherosBlock => "Theros Block"@,
            GameFormat::TimeSpiralBlock => "Time Spiral Block"@,
            GameFormat::UnSets => "Un-Sets"@,
            GameFormat::UrzaBlock => "Urza Block"@,
            GameFormat::Vintage => "Vintage"@,
            GameFormat::ZendikarBlock => "Zendikar Block"@,
        }
    }

    fn show(self) -> (res: &'static str) {
        self.as_str()
    }
}

impl GameFormat {
    /// The text the service expects for this game format.
    pub fn as_str(self) -> (res: &'static str)
        ensures
            res@ == self.shown(),
    {
        match self {
            GameFormat::AmonkhetBlock => "Amonkhet Block",
            GameFormat::BattleForZendikarBlock => "Battle for Zendikar Block",
            GameFormat::Brawl => "Brawl",
            GameFormat::Classic => "Classic",
            GameFormat::Commander => "Commander",
            GameFormat::Extended => "Extended",
            GameFormat::IceAgeBlock => "Ice Age Block",
            GameFormat::InnistradBlock => "Innistrad Block",
            GameFormat::InvasionBlock => "Invasion Block",
            GameFormat::IxalanBlock => "Ixalan Block",
            GameFormat::KaladeshBlock => "Kaladesh Block",
            GameFormat::KamigawaBlock => "Kamigawa Block",
            GameFormat::KhansOfTarkirBlock => "Khans of Tarkir Block",
            GameFormat::Legacy => "Legacy",
            GameFormat::LorwynShadowmoorBlock => "Lorwyn-Shadowmoor Block",
            GameFormat::MasquesBlock => "Masques Block",
            GameFormat::MirageBlock => "Mirage Block",
            GameFormat::MirrodinBlock => "Mirrodin Block",
            GameFormat::Modern => "Modern",
            GameFormat::OdysseyBlock => "Odyssey Block",
            GameFormat::OnslaughtBlock => "Onslaught Block",
            GameFormat::RavnicaBlock => "Ravnica Block",
            GameFormat::ReturnToRavnicaBlock => "Return to Ravnica Block",
            GameFormat::ScarsOfMirrodinBlock => "Scars of Mirrodin Block",
            GameFormat::ShadowsOverInnistradBlock => "Shadows over Innistrad Block",
            GameFormat::ShardsOfAlaraBlock => "Shards of Alara Block",
            GameFormat::Standard => "Standard",
            GameFormat::TempestBlock => "Tempest Block",
            GameFormat::TherosBlock => "Theros Block",
            GameFormat::TimeSpiralBlock => "Time Spiral Block",
            GameFormat::UnSets => "Un-Sets",
            GameFormat::UrzaBlock => "Urza Block",
            GameFormat::Vintage => "Vintage",
            GameFormat::ZendikarBlock => "Zendikar Block",
        }
    }
}

/// Fields of a card record, as the service names them.
#[derive(Copy, Clone, Eq, PartialEq, Debug)]
pub enum CardResponseField {
    Type,
    ColorIdentity,
    ManaCost,
    SetName,
    ImageUrl,
    OriginalText,
    OriginalType,
    Name,
    Cmc,
    Colors,
    Types,
    Subtypes,
    Rarity,
    SetCode,
    Text,
    Artist,
    Number,
    Power,
    Toughness,
    Layout,
    MultiverseId,
    Rulings,
    Printing,
    Legalities,
    Id,
}

impl FilterValue for CardResponseField {
    open spec fn shown(self) -> Seq<char> {
        match self {
            CardResponseField::Type => "type"@,
            CardResponseField::ColorIdentity => "colorIdentity"@,
            CardResponseField::ManaCost => "manaCost"@,
            CardResponseField::SetName => "setName"@,
            CardResponseField::ImageUrl => "imageUrl"@,
            CardResponseField::OriginalText => "originalText"@,
            CardResponseField::OriginalType => "originalType"@,
            CardResponseField::Name => "name"@,
            CardResponseField::Cmc => "cmc"@,
            CardResponseField::Colors => "colors"@,
            CardResponseField::Types => "types"@,
            CardResponseField::Subtypes => "subtypes"@,
            CardResponseField::Rarity => "rarity"@,
            CardResponseField::SetCode => "set"@,
            CardResponseField::Text => "text"@,
            CardResponseField::Artist => "artist"@,
            CardResponseField::Number => "number"@,
            CardResponseField::Power => "power"@,
            CardResponseField::Toughness => "toughness"@,
            CardResponseField::Layout => "layout"@,
            CardResponseField::MultiverseId => "multiverseid"@,
            CardResponseField::Rulings => "rulings"@,
            CardResponseField::Printing => "printing"@,
            CardResponseField::Legalities => "legalities"@,
            CardResponseField::Id => "id"@,
        }
    }

    fn show(self) -> (res: &'static str) {
        self.as_str()
    }
}

impl CardResponseField {
    /// The text the service expects for this field.
    pub fn as_str(self) -> (res: &'static str)
        ensures
            res@ == self.shown(),
    {
        match self {
            CardResponseField::Type => "type",
            CardResponseField::ColorIdentity => "colorIdentity",
            CardResponseField::ManaCost => "manaCost",
            CardResponseField::SetName => "setName",
            CardResponseField::ImageUrl => "imageUrl",
            CardResponseField::OriginalText => "originalText",
            CardResponseField::OriginalType => "originalType",
            CardResponseField::Name => "name",
            CardResponseField::Cmc => "cmc",
            CardResponseField::Colors => "colors",
            CardResponseField::Types => "types",
            CardResponseField::Subtypes => "subtypes",
            CardResponseField::Rarity => "rarity",
            CardResponseField::SetCode => "set",
            CardResponseField::Text => "text",
            CardResponseField::Artist => "artist",
            CardResponseField::Number => "number",
            CardResponseField::Power => "power",
            CardResponseField::Toughness => "toughness",
            CardResponseField::Layout => "layout",
            CardResponseField::MultiverseId => "multiverseid",
            CardResponseField::Rulings => "rulings",
            CardResponseField::Printing => "printing",
            CardResponseField::Legalities => "legalities",
            CardResponseField::Id => "id",
        }
    }
}

} // verus!
