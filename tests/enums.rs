use davsave::enums::{
    CharacterArchetype, CharacterFaction, CharacterGender, CharacterLineage, CharacterPronouns,
    CharacterVoice, CharacterVoiceTone, Difficulty, KeyBindingProfile, SaveType,
};

#[test]
fn faction_table() {
    assert_eq!(CharacterFaction::from_u32(0), Some(CharacterFaction::GreyWardens));
    assert_eq!(CharacterFaction::from_u32(1), Some(CharacterFaction::VeilJumpers));
    assert_eq!(CharacterFaction::from_u32(2), Some(CharacterFaction::ShadowDragons));
    assert_eq!(CharacterFaction::from_u32(3), Some(CharacterFaction::LordsOfFortune));
    assert_eq!(CharacterFaction::from_u32(4), Some(CharacterFaction::TheMournWatch));
    assert_eq!(CharacterFaction::from_u32(5), Some(CharacterFaction::AntivanCrows));
    assert_eq!(CharacterFaction::from_u32(6), None);
}

#[test]
fn lineage_table() {
    assert_eq!(CharacterLineage::from_u32(0), Some(CharacterLineage::Human));
    assert_eq!(CharacterLineage::from_u32(1), Some(CharacterLineage::Dwarf));
    assert_eq!(CharacterLineage::from_u32(2), Some(CharacterLineage::Elf));
    assert_eq!(CharacterLineage::from_u32(3), Some(CharacterLineage::Qunari));
    assert_eq!(CharacterLineage::from_u32(4), None);
}

#[test]
fn archetype_table() {
    let table: [(u32, CharacterArchetype); 32] = [
        (116806840, CharacterArchetype::FollowerBellara),
        (1326121707, CharacterArchetype::FollowerHarding),
        (1480587723, CharacterArchetype::Ranger02),
        (1486725849, CharacterArchetype::WardenTechnique),
        (1837455073, CharacterArchetype::ShadowEvoker),
        (1887180846, CharacterArchetype::FollowerSpite),
        (1902731980, CharacterArchetype::Rogue),
        (1928218134, CharacterArchetype::FollowerNeve),
        (2143795149, CharacterArchetype::FollowerLucanis),
        (2257715964, CharacterArchetype::WardenStrategy),
        (2325381541, CharacterArchetype::Watcher),
        (2366407241, CharacterArchetype::Crow),
        (240491018, CharacterArchetype::Mage),
        (2602884150, CharacterArchetype::FollowerDavrin),
        (267923513, CharacterArchetype::Warrior),
        (2714609019, CharacterArchetype::Desperado),
        (28757921, CharacterArchetype::WardenPower),
        (2903517207, CharacterArchetype::Warden4),
        (291152393, CharacterArchetype::Dalish),
        (2930410500, CharacterArchetype::PlayerRGZtest),
        (294481, CharacterArchetype::WardenCine),
        (3417468734, CharacterArchetype::FollowerVarric),
        (3509394015, CharacterArchetype::NullPlayer),
        (3517341798, CharacterArchetype::Ranger01),
        (3723887171, CharacterArchetype::WardenArt),
        (3734548853, CharacterArchetype::FollowerEmmrich),
        (3822852109, CharacterArchetype::Ranger03),
        (394763556, CharacterArchetype::FollowerSolas),
        (3998641339, CharacterArchetype::WardenChallenger),
        (4003900063, CharacterArchetype::WardenEndurance),
        (4131396826, CharacterArchetype::FollowerTaash),
        (624386075, CharacterArchetype::Fortune),
    ];
    for (code, v) in table {
        assert_eq!(CharacterArchetype::from_u32(code), Some(v));
    }
    assert_eq!(CharacterArchetype::from_u32(0), None);
    assert_eq!(CharacterArchetype::from_u32(294482), None);
}

#[test]
fn gender_pronouns_tables() {
    assert_eq!(CharacterGender::from_u32(0), Some(CharacterGender::Male));
    assert_eq!(CharacterGender::from_u32(1), Some(CharacterGender::Female));
    assert_eq!(CharacterGender::from_u32(2), None);
    assert_eq!(CharacterPronouns::from_u32(0), Some(CharacterPronouns::HeHim));
    assert_eq!(CharacterPronouns::from_u32(1), Some(CharacterPronouns::SheHer));
    assert_eq!(CharacterPronouns::from_u32(2), Some(CharacterPronouns::TheyThem));
    assert_eq!(CharacterPronouns::from_u32(3), None);
}

#[test]
fn voice_tables() {
    assert_eq!(CharacterVoice::from_u32(0), Some(CharacterVoice::FeminineTwo));
    assert_eq!(CharacterVoice::from_u32(1), Some(CharacterVoice::MasculineTwo));
    assert_eq!(CharacterVoice::from_u32(2), Some(CharacterVoice::FeminineOne));
    assert_eq!(CharacterVoice::from_u32(3), Some(CharacterVoice::MasculineOne));
    assert_eq!(CharacterVoice::from_u32(4), None);
    assert_eq!(CharacterVoiceTone::from_u32(0), Some(CharacterVoiceTone::Medium));
    assert_eq!(CharacterVoiceTone::from_u32(1), Some(CharacterVoiceTone::Low));
    assert_eq!(CharacterVoiceTone::from_u32(2), None);
}

#[test]
fn difficulty_and_key_binding_tables() {
    assert_eq!(Difficulty::from_u32(0), None);
    assert_eq!(Difficulty::from_u32(1), Some(Difficulty::Adventurer));
    assert_eq!(Difficulty::from_u32(2), Some(Difficulty::Storyteller));
    assert_eq!(Difficulty::from_u32(3), Some(Difficulty::Keeper));
    assert_eq!(Difficulty::from_u32(4), Some(Difficulty::Underdog));
    assert_eq!(Difficulty::from_u32(5), Some(Difficulty::Nightmare));
    assert_eq!(Difficulty::from_u32(6), Some(Difficulty::Custom));
    assert_eq!(Difficulty::from_u32(7), None);
    assert_eq!(KeyBindingProfile::from_u32(0), Some(KeyBindingProfile::Warrior));
    assert_eq!(KeyBindingProfile::from_u32(1), Some(KeyBindingProfile::Rogue));
    assert_eq!(KeyBindingProfile::from_u32(2), Some(KeyBindingProfile::Mage));
    assert_eq!(KeyBindingProfile::from_u32(3), None);
}

#[test]
fn save_type_tags() {
    let table = [
        ("BWSavegameType_Manual", SaveType::Manual),
        ("BWSavegameType_Auto", SaveType::Auto),
        ("BWSavegameType_Safety", SaveType::Safety),
        ("BWSavegameType_Chapter", SaveType::Chapter),
        ("BWSavegameType_Milestone", SaveType::Milestone),
        ("BWSavegameType_Decision", SaveType::Decision),
        ("BWSavegameType_PointOfNoReturn", SaveType::PointOfNoReturn),
        ("BWSavegameType_CharGen", SaveType::CharGen),
        ("BWSavegameType_Count", SaveType::Count),
        ("BWSavegameType_Invalid", SaveType::Invalid),
    ];
    for (tag, v) in table {
        assert_eq!(SaveType::from_str(tag), Some(v));
    }
    assert_eq!(SaveType::from_str("BWSavegameType_manual"), None);
    assert_eq!(SaveType::from_str("Manual"), None);
    assert_eq!(SaveType::from_str(""), None);
}
