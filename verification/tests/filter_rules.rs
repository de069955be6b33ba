use mtgapi_client::api::card::filter::CardFilter;
use mtgapi_client::api::card::filtertypes::{
    CardColor, CardColorIdentity, CardLanguage, CardLayout, CardLegality, CardRarity,
    CardResponseField, CardSuperType, CardType, GameFormat,
};
use mtgapi_client::api::query::{
    append_and, append_and_values, append_or, append_or_numbers, append_or_values, append_term,
    join_numbers, join_values,
};
use mtgapi_client::api::set::filter::SetFilter;
use mtgapi_client::api::set::filtertypes::SetBlock;
use mtgapi_client::text::decimal_text;

fn well_delimited(expression: &str) -> bool {
    !expression.starts_with('&') && !expression.ends_with('&') && !expression.contains("&&")
}

#[test]
fn no_terms_build_the_empty_filter() {
    assert_eq!(CardFilter::builder().build(), CardFilter(String::new()));
    assert_eq!(SetFilter::builder().build(), SetFilter(String::new()));
}

#[test]
fn first_term_has_no_ampersand_in_front() {
    let mut filter = String::new();
    append_term(&mut filter, "name", "Shock");
    assert_eq!(filter, "name=Shock");
}

#[test]
fn later_terms_are_joined_by_one_ampersand() {
    let mut filter = String::new();
    append_term(&mut filter, "a", "1");
    append_term(&mut filter, "b", "2");
    append_term(&mut filter, "c", "3");
    assert_eq!(filter, "a=1&b=2&c=3");
    assert!(well_delimited(&filter));
}

#[test]
fn any_of_three_values_is_joined_by_bars() {
    let mut filter = String::new();
    append_or(&mut filter, "key", &["a", "b", "c"]);
    assert_eq!(filter, "key=a|b|c");
}

#[test]
fn all_of_three_values_is_joined_by_commas() {
    let mut filter = String::new();
    append_and(&mut filter, "key", &["a", "b", "c"]);
    assert_eq!(filter, "key=a,b,c");
}

#[test]
fn one_value_has_no_separator() {
    let mut filter = String::new();
    append_or(&mut filter, "key", &["a"]);
    append_and(&mut filter, "other", &["b"]);
    assert_eq!(filter, "key=a&other=b");
}

#[test]
fn no_values_give_a_key_with_an_empty_value() {
    let none: [&str; 0] = [];
    assert_eq!(CardFilter::builder().names(&none).build(), CardFilter("name=".to_string()));
    assert_eq!(
        CardFilter::builder().fulltypes_and(&none).build(),
        CardFilter("types=".to_string())
    );
    let no_colors: [CardColor; 0] = [];
    assert_eq!(
        CardFilter::builder().colors_or(&no_colors).build(),
        CardFilter("colors=".to_string())
    );
    let no_costs: [u8; 0] = [];
    assert_eq!(
        CardFilter::builder().converted_mana_costs(&no_costs).build(),
        CardFilter("cmc=".to_string())
    );
    assert_eq!(SetFilter::builder().blocks(&[]).build(), SetFilter("block=".to_string()));
}

#[test]
fn an_empty_value_term_still_keeps_the_expression_delimited() {
    let none: [&str; 0] = [];
    let filter = CardFilter::builder().names(&none).name("x").names(&none).build();
    assert_eq!(filter, CardFilter("name=&name=x&name=".to_string()));
    assert!(well_delimited(&filter.0));
}

#[test]
fn values_are_not_escaped() {
    let filter = CardFilter::builder().custom("na me", "a b|c,d").build();
    assert_eq!(filter, CardFilter("na me=a b|c,d".to_string()));
}

#[test]
fn an_ampersand_in_a_value_is_kept_as_it_is() {
    let filter = CardFilter::builder().name("R&D").build();
    assert_eq!(filter, CardFilter("name=R&D".to_string()));
    let trailing = CardFilter::builder().name("x&").build();
    assert!(!well_delimited(&trailing.0));
}

#[test]
fn long_chains_stay_well_delimited() {
    let filter = CardFilter::builder()
        .name("Shock")
        .colors_or(&[CardColor::Red, CardColor::Blue])
        .converted_mana_costs(&[0, 1, 255])
        .game_format_with_legality(GameFormat::Modern, CardLegality::Legal)
        .rarity(CardRarity::MythicRare)
        .build();
    assert_eq!(
        filter,
        CardFilter(
            "name=Shock&colors=Red|Blue&cmc=0|1|255&gameFormat=Modern&legality=Legal&rarity=Mythic Rare"
                .to_string()
        )
    );
    assert!(well_delimited(&filter.0));
}

#[test]
fn builders_add_in_call_order() {
    let forward = SetFilter::builder().name("a").block(SetBlock::Urza).build();
    let backward = SetFilter::builder().block(SetBlock::Urza).name("a").build();
    assert_eq!(forward, SetFilter("name=a&block=Urza".to_string()));
    assert_eq!(backward, SetFilter("block=Urza&name=a".to_string()));
    assert_ne!(forward, backward);
}

#[test]
fn equal_expressions_are_equal_filters() {
    let by_method = CardFilter::builder().names(&["Shock", "Mountain"]).build();
    let by_hand = CardFilter::builder().custom("name", "Shock|Mountain").build();
    assert_eq!(by_method, by_hand);
}

#[test]
fn decimal_text_of_numbers() {
    assert_eq!(decimal_text(0), "0");
    assert_eq!(decimal_text(7), "7");
    assert_eq!(decimal_text(10), "10");
    assert_eq!(decimal_text(100), "100");
    assert_eq!(decimal_text(409741), "409741");
    assert_eq!(decimal_text(u32::MAX), "4294967295");
}

#[test]
fn numbers_are_joined_in_base_ten() {
    assert_eq!(join_numbers(&[3, 5], "|"), "3|5");
    assert_eq!(join_numbers(&[0, 10, 255], ","), "0,10,255");
    assert_eq!(join_numbers(&[], "|"), "");
    let mut filter = String::new();
    append_or_numbers(&mut filter, "cmc", &[1, 20, 200]);
    assert_eq!(filter, "cmc=1|20|200");
}

#[test]
fn vocabulary_values_are_joined_by_their_texts() {
    assert_eq!(join_values(&[CardLayout::Normal, CardLayout::DoubleFaced], "|"), "Normal|Double-Faced");
    assert_eq!(join_values(&[CardColorIdentity::W], ","), "W");
    let mut filter = String::new();
    append_or_values(&mut filter, "supertypes", &[CardSuperType::Basic, CardSuperType::Snow]);
    append_and_values(&mut filter, "types", &[CardType::Artifact, CardType::Creature]);
    assert_eq!(filter, "supertypes=Basic|Snow&types=Artifact,Creature");
}

#[test]
fn texts_that_differ_from_the_variant_names() {
    assert_eq!(CardLanguage::ChineseSimplified.as_str(), "Chinese Simplified");
    assert_eq!(CardLanguage::ChineseTraditional.as_str(), "Chinese Traditional");
    assert_eq!(CardLayout::DoubleFaced.as_str(), "Double-Faced");
    assert_eq!(CardLayout::Phenomenon.as_str(), "Phenomen");
    assert_eq!(CardLayout::Leveler.as_str(), "Level");
    assert_eq!(CardRarity::MythicRare.as_str(), "Mythic Rare");
    assert_eq!(CardRarity::BasicLand.as_str(), "Basic Land");
    assert_eq!(GameFormat::LorwynShadowmoorBlock.as_str(), "Lorwyn-Shadowmoor Block");
    assert_eq!(GameFormat::UnSets.as_str(), "Un-Sets");
    assert_eq!(GameFormat::BattleForZendikarBlock.as_str(), "Battle for Zendikar Block");
    assert_eq!(GameFormat::ShadowsOverInnistradBlock.as_str(), "Shadows over Innistrad Block");
    assert_eq!(CardResponseField::SetCode.as_str(), "set");
    assert_eq!(CardResponseField::MultiverseId.as_str(), "multiverseid");
    assert_eq!(CardResponseField::ColorIdentity.as_str(), "colorIdentity");
    assert_eq!(SetBlock::IceAge.as_str(), "Ice Age");
    assert_eq!(SetBlock::TimeSpiral.as_str(), "TimeSpiral");
    assert_eq!(SetBlock::ReturnToRavnica.as_str(), "Return to Ravnica");
    assert_eq!(SetBlock::ShadowsOverInnistrad.as_str(), "Shadows over Innistrad");
}

#[test]
fn texts_that_equal_the_variant_names() {
    assert_eq!(CardColor::White.as_str(), "White");
    assert_eq!(CardColor::Green.as_str(), "Green");
    assert_eq!(CardColorIdentity::U.as_str(), "U");
    assert_eq!(CardSuperType::Legendary.as_str(), "Legendary");
    assert_eq!(CardType::Planeswalker.as_str(), "Planeswalker");
    assert_eq!(CardLegality::Restricted.as_str(), "Restricted");
    assert_eq!(GameFormat::Vintage.as_str(), "Vintage");
    assert_eq!(SetBlock::Ixalan.as_str(), "Ixalan");
}
