use davsave::enums::{
    CharacterArchetype, CharacterFaction, CharacterGender, CharacterLineage, CharacterPronouns,
    CharacterVoice, CharacterVoiceTone, Difficulty, KeyBindingProfile, SaveType,
};
use davsave::error::{CodedField, SaveError};
use davsave::metadata::{BWSaveGameMetadataReader, FieldTag};

fn name(kind: u8, n: &str) -> Vec<u8> {
    let mut v = vec![kind];
    v.extend_from_slice(n.as_bytes());
    v.push(0);
    v
}

fn u32_field(n: &str, x: u32) -> Vec<u8> {
    let mut v = name(0x04, n);
    v.extend_from_slice(&x.to_le_bytes());
    v
}

fn string_field(n: &str, s: &str) -> Vec<u8> {
    let mut v = name(0x07, n);
    v.push(s.len() as u8);
    v.extend_from_slice(s.as_bytes());
    v.push(0);
    v
}

fn record(fields: &[Vec<u8>]) -> Vec<u8> {
    let mut d = vec![0x01, 0x02, 0x03];
    for f in fields {
        d.extend_from_slice(f);
    }
    d.push(0x00);
    d
}

fn parse(d: Vec<u8>) -> Result<BWSaveGameMetadataReader, SaveError> {
    let mut r = BWSaveGameMetadataReader::new(d);
    r.parse_metadata()?;
    Ok(r)
}

fn sample_fields() -> Vec<Vec<u8>> {
    let mut fields = vec![
        u32_field("checkpointid", 77),
        u32_field("faction", 2),
        u32_field("lineage", 3),
        u32_field("archetype", 624386075),
        string_field("charname", "Rook"),
        u32_field("questid", 9),
        u32_field("activecareer", 4),
        u32_field("level", 12),
        u32_field("difficulty", 5),
        u32_field("tone", 1),
        u32_field("voice", 3),
        u32_field("pronoun", 2),
        u32_field("gender", 1),
        string_field("transitionpointname", "Lighthouse"),
        string_field("description", "At the crossroads"),
        string_field("sessionid", "abc-123"),
        u32_field("cdur", 1000),
        u32_field("playtime", 3600),
        u32_field("buildcl", 424242),
        u32_field("project", 17),
    ];
    let mut f = name(0x02, "projdata");
    f.extend_from_slice(&0x1234u16.to_le_bytes());
    fields.push(f);
    let mut f = name(0x02, "nexussessionid");
    f.extend_from_slice(&0xBEEFu16.to_le_bytes());
    fields.push(f);
    let mut f = name(0x08, "requestid");
    f.extend_from_slice(&(-5i64).to_le_bytes());
    fields.push(f);
    let mut f = name(0x08, "unixtimeseconds");
    f.extend_from_slice(&1714564800i64.to_le_bytes());
    fields.push(f);
    let mut f = name(0x04, "savefileversion");
    f.extend_from_slice(&(-2i32).to_le_bytes());
    fields.push(f);
    let mut f = name(0x01, "poststreaminginstall");
    f.push(1);
    fields.push(f);
    let mut f = name(0x05, "expansion");
    f.extend_from_slice(&[1, 2, 3, 4, 5, 6, 7, 8, 9]);
    fields.push(f);
    let mut f = name(0x01, "licenseeversion");
    f.push(b'7');
    fields.push(f);
    fields.push(string_field("type", "BWSavegameType_Chapter"));
    fields.push(string_field("time", "2024-05-01T14:00:00+02:00"));
    let mut f = name(0x10, "uid");
    f.extend_from_slice(&[
        0x33, 0x22, 0x11, 0x00, 0x55, 0x44, 0x77, 0x66, 0x88, 0x99, 0xAA, 0xBB, 0xCC, 0xDD, 0xEE, 0xFF,
    ]);
    fields.push(f);
    let mut f = u32_field("keybindingprofile", 1);
    f.push(0x00);
    fields.push(f);
    fields
}

#[test]
fn parses_every_kind_of_field() {
    let r = parse(record(&sample_fields())).unwrap();
    let m = &r.metadata;
    assert_eq!(m.checkpoint_id, 77);
    assert_eq!(m.faction, CharacterFaction::ShadowDragons);
    assert_eq!(m.lineage, CharacterLineage::Qunari);
    assert_eq!(m.arche_type, CharacterArchetype::Fortune);
    assert_eq!(m.character_name, "Rook");
    assert_eq!(m.quest_id, 9);
    assert_eq!(m.active_career, 4);
    assert_eq!(m.character_level, 12);
    assert_eq!(m.difficulty, Difficulty::Nightmare);
    assert_eq!(m.voice_tone, CharacterVoiceTone::Low);
    assert_eq!(m.voice, CharacterVoice::MasculineOne);
    assert_eq!(m.pronouns, CharacterPronouns::TheyThem);
    assert_eq!(m.gender, CharacterGender::Female);
    assert_eq!(m.transition_point_name, "Lighthouse");
    assert_eq!(m.description, "At the crossroads");
    assert_eq!(m.session_id, "abc-123");
    assert_eq!(m.cdur, 1000);
    assert_eq!(m.playtime, 3600);
    assert_eq!(m.buildcl, 424242);
    assert_eq!(m.project, 17);
    assert_eq!(m.project_data, 0x1234);
    assert_eq!(m.nexus_session_id, 0xBEEF);
    assert_eq!(m.request_id, -5);
    assert_eq!(m.unix_timestamp, 1714564800);
    assert_eq!(m.save_file_version, -2);
    assert!(m.post_streaming_install);
    assert_eq!(m.expansion, [1, 2, 3, 4, 5, 6, 7, 8, 9]);
    assert_eq!(m.licensee_version, "7");
    assert_eq!(m.save_type, SaveType::Chapter);
    assert_eq!(m.date_time, 1714564800);
    assert_eq!(
        m.guid,
        [0x00, 0x11, 0x22, 0x33, 0x44, 0x55, 0x66, 0x77, 0x88, 0x99, 0xAA, 0xBB, 0xCC, 0xDD, 0xEE, 0xFF]
    );
    assert_eq!(m.key_binding_profile, KeyBindingProfile::Rogue);
}

#[test]
fn empty_record_gives_defaults() {
    let r = parse(vec![0x01, 0x02, 0x03, 0x00]).unwrap();
    assert_eq!(r.metadata.checkpoint_id, 0);
    assert_eq!(r.metadata.faction, CharacterFaction::AntivanCrows);
    assert_eq!(r.metadata.save_type, SaveType::Manual);
    assert_eq!(r.metadata.character_name, "");
    assert_eq!(r.metadata.date_time, 0);
    assert_eq!(r.metadata.guid, [0u8; 16]);
}

#[test]
fn field_order_does_not_matter() {
    let fields = sample_fields();
    let mut reversed = fields.clone();
    reversed.reverse();
    // The key binding profile's trailing byte must stay with it; moving it
    // to the end keeps each field whole.
    let a = parse(record(&fields)).unwrap();
    let b = parse(record(&reversed)).unwrap();
    assert_eq!(format!("{:?}", a.metadata), format!("{:?}", b.metadata));
}

#[test]
fn parsing_twice_gives_the_same_record() {
    let d = record(&sample_fields());
    let a = parse(d.clone()).unwrap();
    let b = parse(d).unwrap();
    assert_eq!(format!("{:?}", a.metadata), format!("{:?}", b.metadata));
}

#[test]
fn version_twice_fills_both_fields() {
    let r = parse(record(&[u32_field("version", 0), u32_field("version", 7)])).unwrap();
    assert_eq!(r.metadata.version, 0);
    assert_eq!(r.metadata.version_two, 7);
    let r = parse(record(&[u32_field("version", 5)])).unwrap();
    assert_eq!(r.metadata.version, 5);
    assert_eq!(r.metadata.version_two, 0);
}

#[test]
fn after_point_of_no_return_pushes_back_a_non_zero_byte() {
    let mut f = name(0x01, "afterpointofnoreturn");
    f.push(1);
    let r = parse(record(&[f.clone(), u32_field("level", 3)])).unwrap();
    assert!(r.metadata.after_point_of_no_return);
    assert_eq!(r.metadata.character_level, 3);
    let mut g = f;
    g.push(0x00);
    let r = parse(record(&[g, u32_field("level", 4)])).unwrap();
    assert_eq!(r.metadata.character_level, 4);
}

#[test]
fn unknown_field_is_named() {
    let e = parse(record(&[u32_field("Level", 3)])).err().unwrap();
    match e {
        SaveError::UnknownField(n) => assert_eq!(n, "Level"),
        other => panic!("unexpected {:?}", other),
    }
}

#[test]
fn unknown_codes_name_field_and_code() {
    let cases = [
        ("faction", CodedField::Faction, 6u32),
        ("lineage", CodedField::Lineage, 4),
        ("archetype", CodedField::Archetype, 1),
        ("difficulty", CodedField::Difficulty, 0),
        ("tone", CodedField::VoiceTone, 2),
        ("voice", CodedField::Voice, 4),
        ("pronoun", CodedField::Pronouns, 3),
        ("gender", CodedField::Gender, 2),
        ("keybindingprofile", CodedField::KeyBindingProfile, 3),
    ];
    for (n, field, code) in cases {
        let e = parse(record(&[u32_field(n, code)])).err().unwrap();
        match e {
            SaveError::UnknownCode(f, c) => {
                assert_eq!(f, field);
                assert_eq!(c, code);
            }
            other => panic!("unexpected {:?}", other),
        }
    }
}

#[test]
fn unknown_save_type_is_named() {
    let e = parse(record(&[string_field("type", "BWSavegameType_Quick")])).err().unwrap();
    match e {
        SaveError::UnknownSaveType(s) => assert_eq!(s, "BWSavegameType_Quick"),
        other => panic!("unexpected {:?}", other),
    }
}

#[test]
fn invalid_bool_is_rejected() {
    let mut f = name(0x01, "poststreaminginstall");
    f.push(2);
    assert!(matches!(parse(record(&[f])), Err(SaveError::InvalidBool(2))));
}

#[test]
fn malformed_utf8_is_rejected() {
    let mut f = name(0x07, "charname");
    f.extend_from_slice(&[0x03, 0xC3, 0x28, 0x00]);
    assert!(matches!(parse(record(&[f])), Err(SaveError::InvalidUtf8)));
    let mut bad_name = vec![0x04, 0xFF, 0xFE, 0x00];
    bad_name.extend_from_slice(&1u32.to_le_bytes());
    assert!(matches!(parse(record(&[bad_name])), Err(SaveError::InvalidUtf8)));
}

#[test]
fn malformed_timestamp_is_rejected() {
    let e = parse(record(&[string_field("time", "2024-13-01 noon")])).err().unwrap();
    match e {
        SaveError::InvalidTimestamp(s) => assert_eq!(s, "2024-13-01 noon"),
        other => panic!("unexpected {:?}", other),
    }
}

#[test]
fn truncated_value_is_a_short_read() {
    let mut f = name(0x04, "questid");
    f.extend_from_slice(&[1, 2]);
    assert!(matches!(parse(record(&[f])), Err(SaveError::UnexpectedEof)));
}

#[test]
fn field_tags_are_case_sensitive() {
    assert_eq!(BWSaveGameMetadataReader::field_tag("uid"), Some(FieldTag::Uid));
    assert_eq!(BWSaveGameMetadataReader::field_tag("time"), Some(FieldTag::Time));
    assert_eq!(BWSaveGameMetadataReader::field_tag("Time"), None);
    assert_eq!(BWSaveGameMetadataReader::field_tag(""), None);
}

#[test]
fn failed_parse_leaves_record_untouched() {
    let d = record(&[u32_field("level", 9), u32_field("faction", 7)]);
    let mut r = BWSaveGameMetadataReader::new(d);
    match r.parse_metadata() {
        Err(SaveError::UnknownCode(CodedField::Faction, 7)) => {}
        other => panic!("unexpected {:?}", other),
    }
    assert_eq!(r.metadata.character_level, 0);
    assert_eq!(r.metadata.faction, CharacterFaction::AntivanCrows);
}
