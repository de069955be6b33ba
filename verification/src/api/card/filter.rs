//! The filter for requests to the card collection and its builder.

use crate::api::card::filtertypes::{
    CardColor, CardColorIdentity, CardLanguage, CardLayout, CardLegality, CardRarity,
    CardResponseField, CardSuperType, CardType, GameFormat,
};
use crate::api::query::{
    append_and, append_and_values, append_or, append_or_numbers, append_or_values, append_term,
    decimals, sep_and, sep_or, shown_all, with_term, FilterValue,
};
use crate::text::{decimal, decimal_text, joined, str_views};
use vstd::prelude::*;

verus! {

/// Collects the terms of a card filter. Each method adds one term, or two,
/// and hands the builder on; `build` ends the chain.
#[derive(Clone, Debug)]
pub struct CardFilterBuilder {
    filter: String,
}

impl View for CardFilterBuilder {
    type V = Seq<char>;

    /// The filter expression collected so far.
    closed spec fn view(&self) -> Seq<char> {
        self.filter@
    }
}

impl CardFilterBuilder {
    fn new() -> (res: CardFilterBuilder)
        ensures
            res@ == Seq::<char>::empty(),
    {
        CardFilterBuilder { filter: String::new() }
    }

    /// The filter with the terms added so far, in the order they were added.
    /// Without any term it is empty and stands for "no filter".
    pub fn build(self) -> (res: CardFilter)
        ensures
            res@ == self@,
    {
        CardFilter(self.filter)
    }

    /// Adds the term `key=value` for a key the builder has no method for.
    pub fn custom(self, key: &str, value: &str) -> (res: CardFilterBuilder)
        ensures
            res@ == with_term(self@, key@, value@),
    {
        let mut builder = self;
        builder.add_filter(key, value);
        builder
    }

    /// Cards whose name holds `name`.
    pub fn name(self, name: &str) -> (res: CardFilterBuilder)
        ensures
            res@ == with_term(self@, "name"@, name@),
    {
        let mut builder = self;
        builder.add_filter("name", name);
        builder
    }

    /// Cards whose name holds one of `names`.
    pub fn names(self, names: &[&str]) -> (res: CardFilterBuilder)
        ensures
            res@ == with_term(self@, "name"@, joined(str_views(names@), sep_or())),
    {
        let mut builder = self;
        append_or(&mut builder.filter, "name", names);
        builder
    }

    /// Cards whose name in `language` holds `name`.
    pub fn name_with_language(self, name: &str, language: CardLanguage) -> (res: CardFilterBuilder)
        ensures
            res@ == with_term(with_term(self@, "name"@, name@), "language"@, language.shown()),
    {
        let mut builder = self;
        builder.add_filter("name", name);
        builder.add_filter("language", language.as_str());
        builder
    }

    /// Cards whose name in `language` holds one of `names`.
    pub fn names_with_language(self, names: &[&str], language: CardLanguage) -> (res: CardFilterBuilder)
        ensures
            res@ == with_term(with_term(self@, "name"@, joined(str_views(names@), sep_or())), "language"@, language.shown()),
    {
        let mut builder = self;
        append_or(&mut builder.filter, "name", names);
        builder.add_filter("language", language.as_str());
        builder
    }

    /// Cards of the layout `layout`.
    pub fn layout(self, layout: CardLayout) -> (res: CardFilterBuilder)
        ensures
            res@ == with_term(self@, "layout"@, layout.shown()),
    {
        let mut builder = self;
        builder.add_filter("layout", layout.as_str());
        builder
    }

    /// Cards of one of the layouts `layouts`.
    pub fn layouts(self, layouts: &[CardLayout]) -> (res: CardFilterBuilder)
        ensures
            res@ == with_term(self@, "layout"@, joined(shown_all(layouts@), sep_or())),
    {
        let mut builder = self;
        append_or_values(&mut builder.filter, "layout", layouts);
        builder
    }

    /// Cards with the converted mana cost `cmc`.
    pub fn converted_mana_cost(self, cmc: u8) -> (res: CardFilterBuilder)
        ensures
            res@ == with_term(self@, "cmc"@, decimal(cmc as nat)),
    {
        let mut builder = self;
        builder.add_filter("cmc", decimal_text(cmc as u32).as_str());
        builder
    }

    /// Cards with one of the converted mana costs `cmcs`.
    pub fn converted_mana_costs(self, cmcs: &[u8]) -> (res: CardFilterBuilder)
        ensures
            res@ == with_term(self@, "cmc"@, joined(decimals(cmcs@), sep_or())),
    {
        let mut builder = self;
        append_or_numbers(&mut builder.filter, "cmc", cmcs);
        builder
    }

    /// Cards that have the color `color`.
    pub fn color(self, color: CardColor) -> (res: CardFilterBuilder)
        ensures
            res@ == with_term(self@, "colors"@, color.shown()),
    {
        let mut builder = self;
        builder.add_filter("colors", color.as_str());
        builder
    }

    /// Cards that have one of `colors`.
    pub fn colors_or(self, colors: &[CardColor]) -> (res: CardFilterBuilder)
        ensures
            res@ == with_term(self@, "colors"@, joined(shown_all(colors@), sep_or())),
    {
        let mut builder = self;
        append_or_values(&mut builder.filter, "colors", colors);
        builder
    }

    /// Cards that have all of `colors`.
    pub fn colors_and(self, colors: &[CardColor]) -> (res: CardFilterBuilder)
        ensures
            res@ == with_term(self@, "colors"@, joined(shown_all(colors@), sep_and())),
    {
        let mut builder = self;
        append_and_values(&mut builder.filter, "colors", colors);
        builder
    }

    /// Cards whose color identity holds `color_identity`.
    pub fn color_identity(self, color_identity: CardColorIdentity) -> (res: CardFilterBuilder)
        ensures
            res@ == with_term(self@, "colorIdentity"@, color_identity.shown()),
    {
        let mut builder = self;
        builder.add_filter("colorIdentity", color_identity.as_str());
        builder
    }

    /// Cards whose color identity holds one of `color_identities`.
    pub fn color_identities_or(self, color_identities: &[CardColorIdentity]) -> (res: CardFilterBuilder)
        ensures
            res@ == with_term(self@, "colorIdentity"@, joined(shown_all(color_identities@), sep_or())),
    {
        let mut builder = self;
        append_or_values(&mut builder.filter, "colorIdentity", color_identities);
        builder
    }

    /// Cards whose color identity holds all of `color_identities`.
    pub fn color_identities_and(self, color_identities: &[CardColorIdentity]) -> (res: CardFilterBuilder)
        ensures
            res@ == with_term(self@, "colorIdentity"@, joined(shown_all(color_identities@), sep_and())),
    {
        let mut builder = self;
        append_and_values(&mut builder.filter, "colorIdentity", color_identities);
        builder
    }

    /// Cards whose type line holds `fulltype`.
    pub fn fulltype(self, fulltype: &str) -> (res: CardFilterBuilder)
        ensures
            res@ == with_term(self@, "types"@, fulltype@),
    {
        let mut builder = self;
        builder.add_filter("types", fulltype);
        builder
    }

    /// Cards whose type line holds one of `fulltypes`.
    pub fn fulltypes_or(self, fulltypes: &[&str]) -> (res: CardFilterBuilder)
        ensures
            res@ == with_term(self@, "types"@, joined(str_views(fulltypes@), sep_or())),
    {
        let mut builder = self;
        append_or(&mut builder.filter, "types", fulltypes);
        builder
    }

    /// Cards whose type line holds all of `fulltypes`.
    pub fn fulltypes_and(self, fulltypes: &[&str]) -> (res: CardFilterBuilder)
        ensures
            res@ == with_term(self@, "types"@, joined(str_views(fulltypes@), sep_and())),
    {
        let mut builder = self;
        append_and(&mut builder.filter, "types", fulltypes);
        builder
    }

    /// Cards with the supertype `supertype`.
    pub fn supertype(self, supertype: CardSuperType) -> (res: CardFilterBuilder)
        ensures
            res@ == with_term(self@, "supertypes"@, supertype.shown()),
    {
        let mut builder = self;
        builder.add_filter("supertypes", supertype.as_str());
        builder
    }

    /// Cards with one of `supertypes`.
    pub fn supertypes_or(self, supertypes: &[CardSuperType]) -> (res: CardFilterBuilder)
        ensures
            res@ == with_term(self@, "supertypes"@, joined(shown_all(supertypes@), sep_or())),
    {
        let mut builder = self;
        append_or_values(&mut builder.filter, "supertypes", supertypes);
        builder
    }

    /// Cards with all of `supertypes`.
    pub fn supertypes_and(self, supertypes: &[CardSuperType]) -> (res: CardFilterBuilder)
        ensures
            res@ == with_term(self@, "supertypes"@, joined(shown_all(supertypes@), sep_and())),
    {
        let mut builder = self;
        append_and_values(&mut builder.filter, "supertypes", supertypes);
        builder
    }

    /// Cards of the type `cardtype`.
    pub fn cardtype(self, cardtype: CardType) -> (res: CardFilterBuilder)
        ensures
            res@ == with_term(self@, "types"@, cardtype.shown()),
    {
        let mut builder = self;
        builder.add_filter("types", cardtype.as_str());
        builder
    }

    /// Cards of one of the types `cardtypes`.
    pub fn cardtypes_or(self, cardtypes: &[CardType]) -> (res: CardFilterBuilder)
        ensures
            res@ == with_term(self@, "types"@, joined(shown_all(cardtypes@), sep_or())),
    {
        let mut builder = self;
        append_or_values(&mut builder.filter, "types", cardtypes);
        builder
    }

    /// Cards of all the types `cardtypes`.
    pub fn cardtypes_and(self, cardtypes: &[CardType]) -> (res: CardFilterBuilder)
        ensures
            res@ == with_term(self@, "types"@, joined(shown_all(cardtypes@), sep_and())),
    {
        let mut builder = self;
        append_and_values(&mut builder.filter, "types", cardtypes);
        builder
    }

    /// Cards with the subtype `subtype`.
    pub fn subtype(self, subtype: &str) -> (res: CardFilterBuilder)
        ensures
            res@ == with_term(self@, "subtypes"@, subtype@),
    {
        let mut builder = self;
        builder.add_filter("subtypes", subtype);
        builder
    }

    /// Cards with one of `subtypes`.
    pub fn subtypes_or(self, subtypes: &[&str]) -> (res: CardFilterBuilder)
        ensures
            res@ == with_term(self@, "subtypes"@, joined(str_views(subtypes@), sep_or())),
    {
        let mut builder = self;
        append_or(&mut builder.filter, "subtypes", subtypes);
        builder
    }

    /// Cards with all of `subtypes`.
    pub fn subtypes_and(self, subtypes: &[&str]) -> (res: CardFilterBuilder)
        ensures
            res@ == with_term(self@, "subtypes"@, joined(str_views(subtypes@), sep_and())),
    {
        let mut builder = self;
        append_and(&mut builder.filter, "subtypes", subtypes);
        builder
    }

    /// Cards of the rarity `rarity`.
    pub fn rarity(self, rarity: CardRarity) -> (res: CardFilterBuilder)
        ensures
            res@ == with_term(self@, "rarity"@, rarity.shown()),
    {
        let mut builder = self;
        builder.add_filter("rarity", rarity.as_str());
        builder
    }

    /// Cards of one of `rarities`.
    pub fn rarities(self, rarities: &[CardRarity]) -> (res: CardFilterBuilder)
        ensures
            res@ == with_term(self@, "rarity"@, joined(shown_all(rarities@), sep_or())),
    {
        let mut builder = self;
        append_or_values(&mut builder.filter, "rarity", rarities);
        builder
    }

    /// Cards of the set with the code `set`.
    pub fn set(self, set: &str) -> (res: CardFilterBuilder)
        ensures
            res@ == with_term(self@, "set"@, set@),
    {
        let mut builder = self;
        builder.add_filter("set", set);
        builder
    }

    /// Cards of one of the sets with the codes `sets`.
    pub fn sets(self, sets: &[&str]) -> (res: CardFilterBuilder)
        ensures
            res@ == with_term(self@, "set"@, joined(str_views(sets@), sep_or())),
    {
        let mut builder = self;
        append_or(&mut builder.filter, "set", sets);
        builder
    }

    /// Cards of a set whose name holds `set`.
    pub fn set_name(self, set: &str) -> (res: CardFilterBuilder)
        ensures
            res@ == with_term(self@, "setName"@, set@),
    {
        let mut builder = self;
        builder.add_filter("setName", set);
        builder
    }

    /// Cards of a set whose name holds one of `sets`.
    pub fn set_names(self, sets: &[&str]) -> (res: CardFilterBuilder)
        ensures
            res@ == with_term(self@, "setName"@, joined(str_views(sets@), sep_or())),
    {
        let mut builder = self;
        append_or(&mut builder.filter, "setName", sets);
        builder
    }

    /// Cards whose rules text holds `text`.
    pub fn text(self, text: &str) -> (res: CardFilterBuilder)
        ensures
            res@ == with_term(self@, "text"@, text@),
    {
        let mut builder = self;
        builder.add_filter("text", text);
        builder
    }

    /// Cards whose rules text holds one of `texts`.
    pub fn texts_or(self, texts: &[&str]) -> (res: CardFilterBuilder)
        ensures
            res@ == with_term(self@, "text"@, joined(str_views(texts@), sep_or())),
    {
        let mut builder = self;
        append_or(&mut builder.filter, "text", texts);
        builder
    }

    /// Cards whose rules text holds all of `texts`.
    pub fn texts_and(self, texts: &[&str]) -> (res: CardFilterBuilder)
        ensures
            res@ == with_term(self@, "text"@, joined(str_views(texts@), sep_and())),
    {
        let mut builder = self;
        append_and(&mut builder.filter, "text", texts);
        builder
    }

    /// Cards whose flavor text holds `flavor`.
    pub fn flavor(self, flavor: &str) -> (res: CardFilterBuilder)
        ensures
            res@ == with_term(self@, "flavor"@, flavor@),
    {
        let mut builder = self;
        builder.add_filter("flavor", flavor);
        builder
    }

    /// Cards whose flavor text holds one of `flavors`.
    pub fn flavors_or(self, flavors: &[&str]) -> (res: CardFilterBuilder)
        ensures
            res@ == with_term(self@, "flavor"@, joined(str_views(flavors@), sep_or())),
    {
        let mut builder = self;
        append_or(&mut builder.filter, "flavor", flavors);
        builder
    }

    /// Cards whose flavor text holds all of `flavors`.
    pub fn flavors_and(self, flavors: &[&str]) -> (res: CardFilterBuilder)
        ensures
            res@ == with_term(self@, "flavor"@, joined(str_views(flavors@), sep_and())),
    {
        let mut builder = self;
        append_and(&mut builder.filter, "flavor", flavors);
        builder
    }

    /// Cards drawn by `artist`.
    pub fn artist(self, artist: &str) -> (res: CardFilterBuilder)
        ensures
            res@ == with_term(self@, "artist"@, artist@),
    {
        let mut builder = self;
        builder.add_filter("artist", artist);
        builder
    }

    /// Cards drawn by one of `artists`.
    pub fn artists(self, artists: &[&str]) -> (res: CardFilterBuilder)
        ensures
            res@ == with_term(self@, "artist"@, joined(str_views(artists@), sep_or())),
    {
        let mut builder = self;
        append_or(&mut builder.filter, "artist", artists);
        builder
    }

    /// Cards with the collector number `number`.
    pub fn number(self, number: &str) -> (res: CardFilterBuilder)
        ensures
            res@ == with_term(self@, "number"@, number@),
    {
        let mut builder = self;
        builder.add_filter("number", number);
        builder
    }

    /// Cards with one of the collector numbers `numbers`.
    pub fn numbers(self, numbers: &[&str]) -> (res: CardFilterBuilder)
        ensures
            res@ == with_term(self@, "number"@, joined(str_views(numbers@), sep_or())),
    {
        let mut builder = self;
        append_or(&mut builder.filter, "number", numbers);
        builder
    }

    /// Cards with the power `power`.
    pub fn power(self, power: &str) -> (res: CardFilterBuilder)
        ensures
            res@ == with_term(self@, "power"@, power@),
    {
        let mut builder = self;
        builder.add_filter("power", power);
        builder
    }

    /// Cards with one of `powers`.
    pub fn powers(self, powers: &[&str]) -> (res: CardFilterBuilder)
        ensures
            res@ == with_term(self@, "power"@, joined(str_views(powers@), sep_or())),
    {
        let mut builder = self;
        append_or(&mut builder.filter, "power", powers);
        builder
    }

    /// Cards with the toughness `toughness`.
    pub fn toughness(self, toughness: &str) -> (res: CardFilterBuilder)
        ensures
            res@ == with_term(self@, "toughness"@, toughness@),
    {
        let mut builder = self;
        builder.add_filter("toughness", toughness);
        builder
    }

    /// Cards with one of `toughnesses`.
    pub fn toughnesses(self, toughnesses: &[&str]) -> (res: CardFilterBuilder)
        ensures
            res@ == with_term(self@, "toughness"@, joined(str_views(toughnesses@), sep_or())),
    {
        let mut builder = self;
        append_or(&mut builder.filter, "toughness", toughnesses);
        builder
    }

    /// Cards with the loyalty `loyality`; the key is spelt as the service spells it.
    pub fn loyality(self, loyality: &str) -> (res: CardFilterBuilder)
        ensures
            res@ == with_term(self@, "loyality"@, loyality@),
    {
        let mut builder = self;
        builder.add_filter("loyality", loyality);
        builder
    }

    /// Cards with one of the loyalties `loyalities`.
    pub fn loyalities(self, loyalities: &[&str]) -> (res: CardFilterBuilder)
        ensures
            res@ == with_term(self@, "loyality"@, joined(str_views(loyalities@), sep_or())),
    {
        let mut builder = self;
        append_or(&mut builder.filter, "loyality", loyalities);
        builder
    }

    /// Cards that the format `format` knows.
    pub fn game_format(self, format: GameFormat) -> (res: CardFilterBuilder)
        ensures
            res@ == with_term(self@, "gameFormat"@, format.shown()),
    {
        let mut builder = self;
        builder.add_filter("gameFormat", format.as_str());
        builder
    }

    /// Cards that one of `formats` knows.
    pub fn game_formats(self, formats: &[GameFormat]) -> (res: CardFilterBuilder)
        ensures
            res@ == with_term(self@, "gameFormat"@, joined(shown_all(formats@), sep_or())),
    {
        let mut builder = self;
        append_or_values(&mut builder.filter, "gameFormat", formats);
        builder
    }

    /// Cards with the legality `legality` in the format `format`.
    pub fn game_format_with_legality(self, format: GameFormat, legality: CardLegality) -> (res: CardFilterBuilder)
        ensures
            res@ == with_term(with_term(self@, "gameFormat"@, format.shown()), "legality"@, legality.shown()),
    {
        let mut builder = self;
        builder.add_filter("gameFormat", format.as_str());
        builder.add_filter("legality", legality.as_str());
        builder
    }

    /// Cards with the legality `legality` in one of `formats`.
    pub fn game_formats_with_legality(self, formats: &[GameFormat], legality: CardLegality) -> (res: CardFilterBuilder)
        ensures
            res@ == with_term(with_term(self@, "gameFormat"@, joined(shown_all(formats@), sep_or())), "legality"@, legality.shown()),
    {
        let mut builder = self;
        append_or_values(&mut builder.filter, "gameFormat", formats);
        builder.add_filter("legality", legality.as_str());
        builder
    }

    /// The card with the multiverse id `multiverse_id`.
    pub fn multiverse_id(self, multiverse_id: &str) -> (res: CardFilterBuilder)
        ensures
            res@ == with_term(self@, "multiverseid"@, multiverse_id@),
    {
        let mut builder = self;
        builder.add_filter("multiverseid", multiverse_id);
        builder
    }

    /// The cards with one of `multiverse_ids`.
    pub fn multiverse_ids(self, multiverse_ids: &[&str]) -> (res: CardFilterBuilder)
        ensures
            res@ == with_term(self@, "multiverseid"@, joined(str_views(multiverse_ids@), sep_or())),
    {
        let mut builder = self;
        append_or(&mut builder.filter, "multiverseid", multiverse_ids);
        builder
    }

    /// Cards whose record holds the field `field`.
    pub fn contains_field(self, field: CardResponseField) -> (res: CardFilterBuilder)
        ensures
            res@ == with_term(self@, "contains"@, field.shown()),
    {
        let mut builder = self;
        builder.add_filter("contains", field.as_str());
        builder
    }

    /// Cards whose record holds one of `fields`.
    pub fn contains_fields(self, fields: &[CardResponseField]) -> (res: CardFilterBuilder)
        ensures
            res@ == with_term(self@, "contains"@, joined(shown_all(fields@), sep_or())),
    {
        let mut builder = self;
        append_or_values(&mut builder.filter, "contains", fields);
        builder
    }

    fn add_filter(&mut self, key: &str, values: &str)
        ensures
            final(self)@ == with_term(old(self)@, key@, values@),
    {
        append_term(&mut self.filter, key, values);
    }
}

/// A finished filter expression: terms `key=value` with `&` between them.
#[derive(PartialEq, Eq, Clone, Debug)]
pub struct CardFilter(pub String);

impl View for CardFilter {
    type V = Seq<char>;

    /// The text of the expression.
    open spec fn view(&self) -> Seq<char> {
        self.0@
    }
}

impl CardFilter {
    /// A builder that holds no term yet.
    pub fn builder() -> (res: CardFilterBuilder)
        ensures
            res@ == Seq::<char>::empty(),
    {
        CardFilterBuilder::new()
    }
}

} // verus!
