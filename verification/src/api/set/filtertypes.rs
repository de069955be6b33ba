//! The closed vocabulary of the set filters.

use crate::api::query::FilterValue;
use vstd::prelude::*;

verus! {

/// Blocks that group sets.
#[derive(Copy, Clone, Eq, PartialEq, Debug)]
pub enum SetBlock {
    IceAge,
    Mirage,
    Tempest,
    Urza,
    Masques,
    Invasion,
    Odyssey,
    Onslaught,
    Mirrodin,
    Kamigawa,
    Ravnica,
    TimeSpiral,
    Lorwyn,
    Shadowmoor,
    Alara,
    Zendikar,
    ScarsOfMirrodin,
    Innistrad,
    ReturnToRavnica,
    Theros,
    KhansOfTarkir,
    BattleForZendikar,
    ShadowsOverInnistrad,
    Kaladesh,
    Amonkhet,
    Ixalan,
}

impl FilterValue for SetBlock {
    open spec fn shown(self) -> Seq<char> {
        match self {
            SetBlock::IceAge => "Ice Age"@,
            SetBlock::Mirage => "Mirage"@,
            SetBlock::Tempest => "Tempest"@,
            SetBlock::Urza => "Urza"@,
            SetBlock::Masques => "Masques"@,
            SetBlock::Invasion => "Invasion"@,
            SetBlock::Odyssey => "Odyssey"@,
            SetBlock::Onslaught => "Onslaught"@,
            SetBlock::Mirrodin => "Mirrodin"@,
            SetBlock::Kamigawa => "Kamigawa"@,
            SetBlock::Ravnica => "Ravnica"@,
            SetBlock::TimeSpiral => "TimeSpiral"@,
            SetBlock::Lorwyn => "Lorwyn"@,
            SetBlock::Shadowmoor => "Shadowmoor"@,
            SetBlock::Alara => "Alara"@,
            SetBlock::Zendikar => "Zendikar"@,
            SetBlock::ScarsOfMirrodin => "ScarsOfMirrodin"@,
            SetBlock::Innistrad => "Innistrad"@,
            SetBlock::ReturnToRavnica => "Return to Ravnica"@,
            SetBlock::Theros => "Theros"@,
            SetBlock::KhansOfTarkir => "Khans of Tarkir"@,
            SetBlock::BattleForZendikar => "Battle for Zendikar"@,
            SetBlock::ShadowsOverInnistrad => "Shadows over Innistrad"@,
            SetBlock::Kaladesh => "Kaladesh"@,
            SetBlock::Amonkhet => "Amonkhet"@,
            SetBlock::Ixalan => "Ixalan"@,
        }
    }

    fn show(self) -> (res: &'static str) {
        self.as_str()
    }
}

impl SetBlock {
    /// The text the service expects for this block.
    pub fn as_str(self) -> (res: &'static str)
        ensures
            res@ == self.shown(),
    {
        match self {
            SetBlock::IceAge => "Ice Age",
            SetBlock::Mirage => "Mirage",
            SetBlock::Tempest => "Tempest",
            SetBlock::Urza => "Urza",
            SetBlock::Masques => "Masques",
            SetBlock::Invasion => "Invasion",
            SetBlock::Odyssey => "Odyssey",
            SetBlock::Onslaught => "Onslaught",
            SetBlock::Mirrodin => "Mirrodin",
            SetBlock::Kamigawa => "Kamigawa",
            SetBlock::Ravnica => "Ravnica",
            SetBlock::TimeSpiral => "TimeSpiral",
            SetBlock::Lorwyn => "Lorwyn",
            SetBlock::Shadowmoor => "Shadowmoor",
            SetBlock::Alara => "Alara",
            SetBlock::Zendikar => "Zendikar",
            SetBlock::ScarsOfMirrodin => "ScarsOfMirrodin",
            SetBlock::Innistrad => "Innistrad",
            SetBlock::ReturnToRavnica => "Return to Ravnica",
            SetBlock::Theros => "Theros",
            SetBlock::KhansOfTarkir => "Khans of Tarkir",
            SetBlock::BattleForZendikar => "Battle for Zendikar",
            SetBlock::ShadowsOverInnistrad => "Shadows over Innistrad",
            SetBlock::Kaladesh => "Kaladesh",
            SetBlock::Amonkhet => "Amonkhet",
            SetBlock::Ixalan => "Ixalan",
        }
    }
}

} // verus!
