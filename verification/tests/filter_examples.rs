use mtgapi_client::api::card::filter::CardFilter;
use mtgapi_client::api::card::filtertypes::{
    CardColor, CardColorIdentity, CardLanguage, CardLayout, CardLegality, CardRarity,
    CardResponseField, CardSuperType, CardType, GameFormat,
};
use mtgapi_client::api::set::filter::SetFilter;
use mtgapi_client::api::set::filtertypes::SetBlock;

#[test]
fn card_filter_build() {
    let filter = CardFilter::builder().color(CardColor::Red).converted_mana_cost(2).cardtype(CardType::Instant).build();
    assert_eq!(filter, CardFilter("colors=Red&cmc=2&types=Instant".to_string()));
}

#[test]
fn card_filter_custom() {
    let filter = CardFilter::builder().custom("name", "Shock|Mountain").build();
    assert_eq!(filter, CardFilter("name=Shock|Mountain".to_string()));
}

#[test]
fn card_filter_name() {
    let filter = CardFilter::builder().name("Shock").build();
    assert_eq!(filter, CardFilter("name=Shock".to_string()));
}

#[test]
fn card_filter_names() {
    let filter = CardFilter::builder().names(&["Shock", "Mountain"]).build();
    assert_eq!(filter, CardFilter("name=Shock|Mountain".to_string()));
}

#[test]
fn card_filter_name_with_language() {
    let filter = CardFilter::builder().name_with_language("Schock", CardLanguage::German).build();
    assert_eq!(filter, CardFilter("name=Schock&language=German".to_string()));
}

#[test]
fn card_filter_names_with_language() {
    let filter = CardFilter::builder().names_with_language(&["Schock", "Gebirge"], CardLanguage::German).build();
    assert_eq!(filter, CardFilter("name=Schock|Gebirge&language=German".to_string()));
}

#[test]
fn card_filter_layout() {
    let filter = CardFilter::builder().layout(CardLayout::DoubleFaced).build();
    assert_eq!(filter, CardFilter("layout=Double-Faced".to_string()));
}

#[test]
fn card_filter_layouts() {
    let filter = CardFilter::builder().layouts(&[CardLayout::Normal, CardLayout::DoubleFaced]).build();
    assert_eq!(filter, CardFilter("layout=Normal|Double-Faced".to_string()));
}

#[test]
fn card_filter_converted_mana_cost() {
    let filter = CardFilter::builder().converted_mana_cost(3).build();
    assert_eq!(filter, CardFilter("cmc=3".to_string()));
}

#[test]
fn card_filter_converted_mana_costs() {
    let filter = CardFilter::builder().converted_mana_costs(&[3,5]).build();
    assert_eq!(filter, CardFilter("cmc=3|5".to_string()));
}

#[test]
fn card_filter_color() {
    let filter = CardFilter::builder().color(CardColor::Red).build();
    assert_eq!(filter, CardFilter("colors=Red".to_string()));
}

#[test]
fn card_filter_colors_or() {
    let filter = CardFilter::builder().colors_or(&[CardColor::Red, CardColor::Blue]).build();
    assert_eq!(filter, CardFilter("colors=Red|Blue".to_string()));
}

#[test]
fn card_filter_colors_and() {
    let filter = CardFilter::builder().colors_and(&[CardColor::Red, CardColor::Blue]).build();
    assert_eq!(filter, CardFilter("colors=Red,Blue".to_string()));
}

#[test]
fn card_filter_color_identity() {
    let filter = CardFilter::builder().color_identity(CardColorIdentity::R).build();
    assert_eq!(filter, CardFilter("colorIdentity=R".to_string()));
}

#[test]
fn card_filter_color_identities_or() {
    let filter = CardFilter::builder().color_identities_or(&[CardColorIdentity::R, CardColorIdentity::U]).build();
    assert_eq!(filter, CardFilter("colorIdentity=R|U".to_string()));
}

#[test]
fn card_filter_color_identities_and() {
    let filter = CardFilter::builder().color_identities_and(&[CardColorIdentity::R, CardColorIdentity::U]).build();
    assert_eq!(filter, CardFilter("colorIdentity=R,U".to_string()));
}

#[test]
fn card_filter_fulltype() {
    let filter = CardFilter::builder().fulltype("Legendary Creature").build();
    assert_eq!(filter, CardFilter("types=Legendary Creature".to_string()));
}

#[test]
fn card_filter_fulltypes_or() {
    let filter = CardFilter::builder().fulltypes_or(&["Legendary Creature", "Human"]).build();
    assert_eq!(filter, CardFilter("types=Legendary Creature|Human".to_string()));
}

#[test]
fn card_filter_fulltypes_and() {
    let filter = CardFilter::builder().fulltypes_and(&["Legendary", "Creature", "Human"]).build();
    assert_eq!(filter, CardFilter("types=Legendary,Creature,Human".to_string()));
}

#[test]
fn card_filter_supertype() {
    let filter = CardFilter::builder().supertype(CardSuperType::Legendary).build();
    assert_eq!(filter, CardFilter("supertypes=Legendary".to_string()));
}

#[test]
fn card_filter_supertypes_or() {
    let filter = CardFilter::builder().supertypes_or(&[CardSuperType::Basic, CardSuperType::Legendary]).build();
    assert_eq!(filter, CardFilter("supertypes=Basic|Legendary".to_string()));
}

#[test]
fn card_filter_supertypes_and() {
    let filter = CardFilter::builder().supertypes_and(&[CardSuperType::Basic, CardSuperType::Legendary]).build();
    assert_eq!(filter, CardFilter("supertypes=Basic,Legendary".to_string()));
}

#[test]
fn card_filter_cardtype() {
    let filter = CardFilter::builder().cardtype(CardType::Creature).build();
    assert_eq!(filter, CardFilter("types=Creature".to_string()));
}

#[test]
fn card_filter_cardtypes_or() {
    let filter = CardFilter::builder().cardtypes_or(&[CardType::Creature, CardType::Artifact]).build();
    assert_eq!(filter, CardFilter("types=Creature|Artifact".to_string()));
}

#[test]
fn card_filter_cardtypes_and() {
    let filter = CardFilter::builder().cardtypes_and(&[CardType::Creature, CardType::Artifact]).build();
    assert_eq!(filter, CardFilter("types=Creature,Artifact".to_string()));
}

#[test]
fn card_filter_subtype() {
    let filter = CardFilter::builder().subtype("Human").build();
    assert_eq!(filter, CardFilter("subtypes=Human".to_string()));
}

#[test]
fn card_filter_subtypes_or() {
    let filter = CardFilter::builder().subtypes_or(&["Human", "Soldier"]).build();
    assert_eq!(filter, CardFilter("subtypes=Human|Soldier".to_string()));
}

#[test]
fn card_filter_subtypes_and() {
    let filter = CardFilter::builder().subtypes_and(&["Human", "Soldier"]).build();
    assert_eq!(filter, CardFilter("subtypes=Human,Soldier".to_string()));
}

#[test]
fn card_filter_rarity() {
    let filter = CardFilter::builder().rarity(CardRarity::Rare).build();
    assert_eq!(filter, CardFilter("rarity=Rare".to_string()));
}

#[test]
fn card_filter_rarities() {
    let filter = CardFilter::builder().rarities(&[CardRarity::Rare, CardRarity::MythicRare]).build();
    assert_eq!(filter, CardFilter("rarity=Rare|Mythic Rare".to_string()));
}

#[test]
fn card_filter_set() {
    let filter = CardFilter::builder().set("AER").build();
    assert_eq!(filter, CardFilter("set=AER".to_string()));
}

#[test]
fn card_filter_sets() {
    let filter = CardFilter::builder().sets(&["AER", "M19"]).build();
    assert_eq!(filter, CardFilter("set=AER|M19".to_string()));
}

#[test]
fn card_filter_set_name() {
    let filter = CardFilter::builder().set_name("Core Set 2019").build();
    assert_eq!(filter, CardFilter("setName=Core Set 2019".to_string()));
}

#[test]
fn card_filter_set_names() {
    let filter = CardFilter::builder().set_names(&["Core Set 2019", "Aether Revolt"]).build();
    assert_eq!(filter, CardFilter("setName=Core Set 2019|Aether Revolt".to_string()));
}

#[test]
fn card_filter_text() {
    let filter = CardFilter::builder().text("deals 2 damage").build();
    assert_eq!(filter, CardFilter("text=deals 2 damage".to_string()));
}

#[test]
fn card_filter_texts_or() {
    let filter = CardFilter::builder().texts_or(&["deals", "damage"]).build();
    assert_eq!(filter, CardFilter("text=deals|damage".to_string()));
}

#[test]
fn card_filter_texts_and() {
    let filter = CardFilter::builder().texts_and(&["deals", "damage"]).build();
    assert_eq!(filter, CardFilter("text=deals,damage".to_string()));
}

#[test]
fn card_filter_flavor() {
    let filter = CardFilter::builder().flavor("S.N.E.A.K.").build();
    assert_eq!(filter, CardFilter("flavor=S.N.E.A.K.".to_string()));
}

#[test]
fn card_filter_flavors_or() {
    let filter = CardFilter::builder().flavors_or(&["Espionage", "Kidnapping"]).build();
    assert_eq!(filter, CardFilter("flavor=Espionage|Kidnapping".to_string()));
}

#[test]
fn card_filter_flavors_and() {
    let filter = CardFilter::builder().flavors_and(&["Serious", "Nonstop Espionage and Kidnapping"]).build();
    assert_eq!(filter, CardFilter("flavor=Serious,Nonstop Espionage and Kidnapping".to_string()));
}

#[test]
fn card_filter_artist() {
    let filter = CardFilter::builder().artist("Kev Walker").build();
    assert_eq!(filter, CardFilter("artist=Kev Walker".to_string()));
}

#[test]
fn card_filter_artists() {
    let filter = CardFilter::builder().artists(&["Kev Walker", "Pete Venters"]).build();
    assert_eq!(filter, CardFilter("artist=Kev Walker|Pete Venters".to_string()));
}

#[test]
fn card_filter_number() {
    let filter = CardFilter::builder().number("1").build();
    assert_eq!(filter, CardFilter("number=1".to_string()));
}

#[test]
fn card_filter_numbers() {
    let filter = CardFilter::builder().numbers(&["1", "2"]).build();
    assert_eq!(filter, CardFilter("number=1|2".to_string()));
}

#[test]
fn card_filter_power() {
    let filter = CardFilter::builder().power("1").build();
    assert_eq!(filter, CardFilter("power=1".to_string()));
}

#[test]
fn card_filter_powers() {
    let filter = CardFilter::builder().powers(&["1", "2"]).build();
    assert_eq!(filter, CardFilter("power=1|2".to_string()));
}

#[test]
fn card_filter_toughness() {
    let filter = CardFilter::builder().toughness("1").build();
    assert_eq!(filter, CardFilter("toughness=1".to_string()));
}

#[test]
fn card_filter_toughnesses() {
    let filter = CardFilter::builder().toughnesses(&["1", "2"]).build();
    assert_eq!(filter, CardFilter("toughness=1|2".to_string()));
}

#[test]
fn card_filter_loyality() {
    let filter = CardFilter::builder().loyality("3").build();
    assert_eq!(filter, CardFilter("loyality=3".to_string()));
}

#[test]
fn card_filter_loyalities() {
    let filter = CardFilter::builder().loyalities(&["3", "5"]).build();
    assert_eq!(filter, CardFilter("loyality=3|5".to_string()));
}

#[test]
fn card_filter_game_format() {
    let filter = CardFilter::builder().game_format(GameFormat::Standard).build();
    assert_eq!(filter, CardFilter("gameFormat=Standard".to_string()));
}

#[test]
fn card_filter_game_formats() {
    let filter = CardFilter::builder().game_formats(&[GameFormat::Standard, GameFormat::Commander]).build();
    assert_eq!(filter, CardFilter("gameFormat=Standard|Commander".to_string()));
}

#[test]
fn card_filter_game_format_with_legality() {
    let filter = CardFilter::builder().game_format_with_legality(GameFormat::Commander, CardLegality::Banned).build();
    assert_eq!(filter, CardFilter("gameFormat=Commander&legality=Banned".to_string()));
}

#[test]
fn card_filter_game_formats_with_legality() {
    let filter = CardFilter::builder().game_formats_with_legality(&[GameFormat::Standard, GameFormat::Commander], CardLegality::Banned).build();
    assert_eq!(filter, CardFilter("gameFormat=Standard|Commander&legality=Banned".to_string()));
}

#[test]
fn card_filter_multiverse_id() {
    let filter = CardFilter::builder().multiverse_id("409741").build();
    assert_eq!(filter, CardFilter("multiverseid=409741".to_string()));
}

#[test]
fn card_filter_multiverse_ids() {
    let filter = CardFilter::builder().multiverse_ids(&["409741", "409742"]).build();
    assert_eq!(filter, CardFilter("multiverseid=409741|409742".to_string()));
}

#[test]
fn card_filter_contains_field() {
    let filter = CardFilter::builder().contains_field(CardResponseField::ImageUrl).build();
    assert_eq!(filter, CardFilter("contains=imageUrl".to_string()));
}

#[test]
fn card_filter_contains_fields() {
    let filter = CardFilter::builder().contains_fields(&[CardResponseField::ImageUrl, CardResponseField::MultiverseId]).build();
    assert_eq!(filter, CardFilter("contains=imageUrl|multiverseid".to_string()));
}

#[test]
fn set_filter_build() {
    let filter = SetFilter::builder().name("Khans of Tarkir").block(SetBlock::KhansOfTarkir).build();
    assert_eq!(filter, SetFilter("name=Khans of Tarkir&block=Khans of Tarkir".to_string()));
}

#[test]
fn set_filter_custom() {
    let filter = SetFilter::builder().custom("name", "Dominaria").build();
    assert_eq!(filter, SetFilter("name=Dominaria".to_string()));
}

#[test]
fn set_filter_name() {
    let filter = SetFilter::builder().name("Dominaria").build();
    assert_eq!(filter, SetFilter("name=Dominaria".to_string()));
}

#[test]
fn set_filter_names() {
    let filter = SetFilter::builder().names(&["Dominaria", "Core Set 2019"]).build();
    assert_eq!(filter, SetFilter("name=Dominaria|Core Set 2019".to_string()));
}

#[test]
fn set_filter_block() {
    let filter = SetFilter::builder().block(SetBlock::Amonkhet).build();
    assert_eq!(filter, SetFilter("block=Amonkhet".to_string()));
}

#[test]
fn set_filter_blocks() {
    let filter = SetFilter::builder().blocks(&[SetBlock::Amonkhet, SetBlock::Ixalan]).build();
    assert_eq!(filter, SetFilter("block=Amonkhet|Ixalan".to_string()));
}
