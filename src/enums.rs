//! The closed enumerations of the metadata record, each with its table of
//! codes. A code outside a table has no variant.

use vstd::prelude::*;
use crate::text::str_eq;

verus! {

#[derive(Clone, Copy, Debug, PartialEq, Eq, Structural)]
pub enum SaveType {
    Manual,
    Auto,
    Safety,
    Chapter,
    Milestone,
    Decision,
    PointOfNoReturn,
    CharGen,
    Count,
    Invalid,
}

/// The save type that a tag names.
pub open spec fn save_type_of(s: Seq<char>) -> Option<SaveType> {
    if s == "BWSavegameType_Manual"@ {
        Some(SaveType::Manual)
    } else if s == "BWSavegameType_Auto"@ {
        Some(SaveType::Auto)
    } else if s == "BWSavegameType_Safety"@ {
        Some(SaveType::Safety)
    } else if s == "BWSavegameType_Chapter"@ {
        Some(SaveType::Chapter)
    } else if s == "BWSavegameType_Milestone"@ {
        Some(SaveType::Milestone)
    } else if s == "BWSavegameType_Decision"@ {
        Some(SaveType::Decision)
    } else if s == "BWSavegameType_PointOfNoReturn"@ {
        Some(SaveType::PointOfNoReturn)
    } else if s == "BWSavegameType_CharGen"@ {
        Some(SaveType::CharGen)
    } else if s == "BWSavegameType_Count"@ {
        Some(SaveType::Count)
    } else if s == "BWSavegameType_Invalid"@ {
        Some(SaveType::Invalid)
    } else {
        None
    }
}

impl SaveType {
    pub fn from_str(s: &str) -> (r: Option<Self>)
        ensures
            r == save_type_of(s@),
    {
        if str_eq(s, "BWSavegameType_Manual") {
            Some(Self::Manual)
        } else if str_eq(s, "BWSavegameType_Auto") {
            Some(Self::Auto)
        } else if str_eq(s, "BWSavegameType_Safety") {
            Some(Self::Safety)
        } else if str_eq(s, "BWSavegameType_Chapter") {
            Some(Self::Chapter)
        } else if str_eq(s, "BWSavegameType_Milestone") {
            Some(Self::Milestone)
        } else if str_eq(s, "BWSavegameType_Decision") {
            Some(Self::Decision)
        } else if str_eq(s, "BWSavegameType_PointOfNoReturn") {
            Some(Self::PointOfNoReturn)
        } else if str_eq(s, "BWSavegameType_CharGen") {
            Some(Self::CharGen)
        } else if str_eq(s, "BWSavegameType_Count") {
            Some(Self::Count)
        } else if str_eq(s, "BWSavegameType_Invalid") {
            Some(Self::Invalid)
        } else {
            None
        }
    }
}

#[derive(Clone, Copy, Debug, PartialEq, Eq, Structural)]
pub enum CharacterArchetype {
    Crow,
    Dalish,
    Desperado,
    FollowerBellara,
    FollowerDavrin,
    FollowerEmmrich,
    FollowerHarding,
    FollowerLucanis,
    FollowerNeve,
    FollowerSolas,
    FollowerSpite,
    FollowerTaash,
    FollowerVarric,
    Fortune,
    Mage,
    NullPlayer,
    PlayerRGZtest,
    Ranger01,
    Ranger02,
    Ranger03,
    Rogue,
    ShadowEvoker,
    Warden4,
    WardenArt,
    WardenChallenger,
    WardenCine,
    WardenEndurance,
    WardenPower,
    WardenStrategy,
    WardenTechnique,
    Warrior,
    Watcher,
}

pub open spec fn archetype_of(n: u32) -> Option<CharacterArchetype> {
    match n {
        116806840 => Some(CharacterArchetype::FollowerBellara),
        1326121707 => Some(CharacterArchetype::FollowerHarding),
        1480587723 => Some(CharacterArchetype::Ranger02),
        1486725849 => Some(CharacterArchetype::WardenTechnique),
        1837455073 => Some(CharacterArchetype::ShadowEvoker),
        1887180846 => Some(CharacterArchetype::FollowerSpite),
        1902731980 => Some(CharacterArchetype::Rogue),
        1928218134 => Some(CharacterArchetype::FollowerNeve),
        2143795149 => Some(CharacterArchetype::FollowerLucanis),
        2257715964 => Some(CharacterArchetype::WardenStrategy),
        2325381541 => Some(CharacterArchetype::Watcher),
        2366407241 => Some(CharacterArchetype::Crow),
        240491018 => Some(CharacterArchetype::Mage),
        2602884150 => Some(CharacterArchetype::FollowerDavrin),
        267923513 => Some(CharacterArchetype::Warrior),
        2714609019 => Some(CharacterArchetype::Desperado),
        28757921 => Some(CharacterArchetype::WardenPower),
        2903517207 => Some(CharacterArchetype::Warden4),
        291152393 => Some(CharacterArchetype::Dalish),
        2930410500 => Some(CharacterArchetype::PlayerRGZtest),
        294481 => Some(CharacterArchetype::WardenCine),
        3417468734 => Some(CharacterArchetype::FollowerVarric),
        3509394015 => Some(CharacterArchetype::NullPlayer),
        3517341798 => Some(CharacterArchetype::Ranger01),
        3723887171 => Some(CharacterArchetype::WardenArt),
        3734548853 => Some(CharacterArchetype::FollowerEmmrich),
        3822852109 => Some(CharacterArchetype::Ranger03),
        394763556 => Some(CharacterArchetype::FollowerSolas),
        3998641339 => Some(CharacterArchetype::WardenChallenger),
        4003900063 => Some(CharacterArchetype::WardenEndurance),
        4131396826 => Some(CharacterArchetype::FollowerTaash),
        624386075 => Some(CharacterArchetype::Fortune),
        _ => None,
    }
}

impl CharacterArchetype {
    pub fn from_u32(n: u32) -> (r: Option<Self>)
        ensures
            r == archetype_of(n),
    {
        match n {
            116806840 => Some(Self::FollowerBellara),
            1326121707 => Some(Self::FollowerHarding),
            1480587723 => Some(Self::Ranger02),
            1486725849 => Some(Self::WardenTechnique),
            1837455073 => Some(Self::ShadowEvoker),
            1887180846 => Some(Self::FollowerSpite),
            1902731980 => Some(Self::Rogue),
            1928218134 => Some(Self::FollowerNeve),
            2143795149 => Some(Self::FollowerLucanis),
            2257715964 => Some(Self::WardenStrategy),
            2325381541 => Some(Self::Watcher),
            2366407241 => Some(Self::Crow),
            240491018 => Some(Self::Mage),
            2602884150 => Some(Self::FollowerDavrin),
            267923513 => Some(Self::Warrior),
            2714609019 => Some(Self::Desperado),
            28757921 => Some(Self::WardenPower),
            2903517207 => Some(Self::Warden4),
            291152393 => Some(Self::Dalish),
            2930410500 => Some(Self::PlayerRGZtest),
            294481 => Some(Self::WardenCine),
            3417468734 => Some(Self::FollowerVarric),
            3509394015 => Some(Self::NullPlayer),
            3517341798 => Some(Self::Ranger01),
            3723887171 => Some(Self::WardenArt),
            3734548853 => Some(Self::FollowerEmmrich),
            3822852109 => Some(Self::Ranger03),
            394763556 => Some(Self::FollowerSolas),
            3998641339 => Some(Self::WardenChallenger),
            4003900063 => Some(Self::WardenEndurance),
            4131396826 => Some(Self::FollowerTaash),
            624386075 => Some(Self::Fortune),
            _ => None,
        }
    }
}

#[derive(Clone, Copy, Debug, PartialEq, Eq, Structural)]
pub enum CharacterLineage {
    Elf,
    Dwarf,
    Human,
    Qunari,
}

pub open spec fn lineage_of(n: u32) -> Option<CharacterLineage> {
    match n {
        0 => Some(CharacterLineage::Human),
        1 => Some(CharacterLineage::Dwarf),
        2 => Some(CharacterLineage::Elf),
        3 => Some(CharacterLineage::Qunari),
        _ => None,
    }
}

impl CharacterLineage {
    pub fn from_u32(n: u32) -> (r: Option<Self>)
        ensures
            r == lineage_of(n),
    {
        match n {
            0 => Some(Self::Human),
            1 => Some(Self::Dwarf),
            2 => Some(Self::Elf),
            3 => Some(Self::Qunari),
            _ => None,
        }
    }
}

#[derive(Clone, Copy, Debug, PartialEq, Eq, Structural)]
pub enum CharacterFaction {
    AntivanCrows,
    GreyWardens,
    LordsOfFortune,
    ShadowDragons,
    TheMournWatch,
    VeilJumpers,
}

pub open spec fn faction_of(n: u32) -> Option<CharacterFaction> {
    match n {
        0 => Some(CharacterFaction::GreyWardens),
        1 => Some(CharacterFaction::VeilJumpers),
        2 => Some(CharacterFaction::ShadowDragons),
        3 => Some(CharacterFaction::LordsOfFortune),
        4 => Some(CharacterFaction::TheMournWatch),
        5 => Some(CharacterFaction::AntivanCrows),
        _ => None,
    }
}

impl CharacterFaction {
    pub fn from_u32(n: u32) -> (r: Option<Self>)
        ensures
            r == faction_of(n),
    {
        match n {
            0 => Some(Self::GreyWardens),
            1 => Some(Self::VeilJumpers),
            2 => Some(Self::ShadowDragons),
            3 => Some(Self::LordsOfFortune),
            4 => Some(Self::TheMournWatch),
            5 => Some(Self::AntivanCrows),
            _ => None,
        }
    }
}

#[derive(Clone, Copy, Debug, PartialEq, Eq, Structural)]
pub enum CharacterGender {
    Male,
    Female,
}

pub open spec fn gender_of(n: u32) -> Option<CharacterGender> {
    match n {
        0 => Some(CharacterGender::Male),
        1 => Some(CharacterGender::Female),
        _ => None,
    }
}

impl CharacterGender {
    pub fn from_u32(n: u32) -> (r: Option<Self>)
        ensures
            r == gender_of(n),
    {
        match n {
            0 => Some(Self::Male),
            1 => Some(Self::Female),
            _ => None,
        }
    }
}

#[derive(Clone, Copy, Debug, PartialEq, Eq, Structural)]
pub enum CharacterPronouns {
    HeHim,
    SheHer,
    TheyThem,
}

pub open spec fn pronouns_of(n: u32) -> Option<CharacterPronouns> {
    match n {
        0 => Some(CharacterPronouns::HeHim),
        1 => Some(CharacterPronouns::SheHer),
        2 => Some(CharacterPronouns::TheyThem),
        _ => None,
    }
}

impl CharacterPronouns {
    pub fn from_u32(n: u32) -> (r: Option<Self>)
        ensures
            r == pronouns_of(n),
    {
        match n {
            0 => Some(Self::HeHim),
            1 => Some(Self::SheHer),
            2 => Some(Self::TheyThem),
            _ => None,
        }
    }
}

#[derive(Clone, Copy, Debug, PartialEq, Eq, Structural)]
pub enum CharacterVoice {
    FeminineOne,
    FeminineTwo,
    MasculineOne,
    MasculineTwo,
}

pub open spec fn voice_of(n: u32) -> Option<CharacterVoice> {
    match n {
        0 => Some(CharacterVoice::FeminineTwo),
        1 => Some(CharacterVoice::MasculineTwo),
        2 => Some(CharacterVoice::FeminineOne),
        3 => Some(CharacterVoice::MasculineOne),
        _ => None,
    }
}

impl CharacterVoice {
    pub fn from_u32(n: u32) -> (r: Option<Self>)
        ensures
            r == voice_of(n),
    {
        match n {
            0 => Some(Self::FeminineTwo),
            1 => Some(Self::MasculineTwo),
            2 => Some(Self::FeminineOne),
            3 => Some(Self::MasculineOne),
            _ => None,
        }
    }
}

#[derive(Clone, Copy, Debug, PartialEq, Eq, Structural)]
pub enum CharacterVoiceTone {
    Low,
    Medium,
}

pub open spec fn voice_tone_of(n: u32) -> Option<CharacterVoiceTone> {
    match n {
        0 => Some(CharacterVoiceTone::Medium),
        1 => Some(CharacterVoiceTone::Low),
        _ => None,
    }
}

impl CharacterVoiceTone {
    pub fn from_u32(n: u32) -> (r: Option<Self>)
        ensures
            r == voice_tone_of(n),
    {
        match n {
            0 => Some(Self::Medium),
            1 => Some(Self::Low),
            _ => None,
        }
    }
}

#[derive(Clone, Copy, Debug, PartialEq, Eq, Structural)]
pub enum Difficulty {
    Adventurer,
    Custom,
    Keeper,
    Nightmare,
    Storyteller,
    Underdog,
}

pub open spec fn difficulty_of(n: u32) -> Option<Difficulty> {
    match n {
        1 => Some(Difficulty::Adventurer),
        2 => Some(Difficulty::Storyteller),
        3 => Some(Difficulty::Keeper),
        4 => Some(Difficulty::Underdog),
        5 => Some(Difficulty::Nightmare),
        6 => Some(Difficulty::Custom),
        _ => None,
    }
}

impl Difficulty {
    pub fn from_u32(n: u32) -> (r: Option<Self>)
        ensures
            r == difficulty_of(n),
    {
        match n {
            1 => Some(Self::Adventurer),
            2 => Some(Self::Storyteller),
            3 => Some(Self::Keeper),
            4 => Some(Self::Underdog),
            5 => Some(Self::Nightmare),
            6 => Some(Self::Custom),
            _ => None,
        }
    }
}

#[derive(Clone, Copy, Debug, PartialEq, Eq, Structural)]
pub enum KeyBindingProfile {
    Mage,
    Rogue,
    Warrior,
}

pub open spec fn key_binding_profile_of(n: u32) -> Option<KeyBindingProfile> {
    match n {
        0 => Some(KeyBindingProfile::Warrior),
        1 => Some(KeyBindingProfile::Rogue),
        2 => Some(KeyBindingProfile::Mage),
        _ => None,
    }
}

impl KeyBindingProfile {
    pub fn from_u32(n: u32) -> (r: Option<Self>)
        ensures
            r == key_binding_profile_of(n),
    {
        match n {
            0 => Some(Self::Warrior),
            1 => Some(Self::Rogue),
            2 => Some(Self::Mage),
            _ => None,
        }
    }
}

} // verus!
