//! The metadata record of block one: a sequence of named fields whose
//! names alone decide how their values are encoded.

use vstd::prelude::*;
use vstd::utf8::{valid_utf8, decode_utf8};
use crate::enums::{
    SaveType, save_type_of, archetype_of, lineage_of, faction_of, gender_of, pronouns_of, voice_of,
    voice_tone_of, difficulty_of, key_binding_profile_of, CharacterArchetype, CharacterLineage, CharacterFaction, CharacterGender,
    CharacterPronouns, CharacterVoice, CharacterVoiceTone, Difficulty, KeyBindingProfile,
};
use crate::error::{CodedField, ErrorView, SaveError};
use crate::text::str_eq;
use crate::trusted::{
    utf8_string, parse_rfc3339_seconds, guid_from_bytes_le, rfc3339_seconds, guid_from_le_order,
};

verus! {

/// The decoded metadata record.
#[derive(Debug)]
pub struct BWSaveGameMetadata {
    pub faction: CharacterFaction,
    pub lineage: CharacterLineage,
    pub arche_type: CharacterArchetype,
    pub character_name: String,
    pub quest_id: u32,
    pub request_id: i64,
    pub active_career: u32,
    pub key_binding_profile: KeyBindingProfile,
    pub after_point_of_no_return: bool,
    pub character_level: u32,
    pub difficulty: Difficulty,
    pub voice_tone: CharacterVoiceTone,
    pub voice: CharacterVoice,
    pub pronouns: CharacterPronouns,
    pub gender: CharacterGender,
    pub transition_point_name: String,
    /// Second occurrence of the `version` field.
    pub version_two: u32,
    pub project_data: u16,
    pub post_streaming_install: bool,
    pub cdur: u32,
    pub playtime: u32,
    pub save_type: SaveType,
    pub description: String,
    pub nexus_session_id: u16,
    pub session_id: String,
    pub buildcl: u32,
    pub unix_timestamp: i64,
    /// Seconds since the Unix epoch of the `time` field.
    pub date_time: i64,
    pub expansion: [u8; 9],
    pub save_file_version: i32,
    pub project: u32,
    pub licensee_version: String,
    pub version: u32,
    /// The `uid` field in RFC 4122 byte order.
    pub guid: [u8; 16],
    pub checkpoint_id: u32,
}

/// `BWSaveGameMetadata` with strings as characters and arrays as sequences.
pub ghost struct MetadataView {
    pub faction: CharacterFaction,
    pub lineage: CharacterLineage,
    pub arche_type: CharacterArchetype,
    pub character_name: Seq<char>,
    pub quest_id: u32,
    pub request_id: i64,
    pub active_career: u32,
    pub key_binding_profile: KeyBindingProfile,
    pub after_point_of_no_return: bool,
    pub character_level: u32,
    pub difficulty: Difficulty,
    pub voice_tone: CharacterVoiceTone,
    pub voice: CharacterVoice,
    pub pronouns: CharacterPronouns,
    pub gender: CharacterGender,
    pub transition_point_name: Seq<char>,
    pub version_two: u32,
    pub project_data: u16,
    pub post_streaming_install: bool,
    pub cdur: u32,
    pub playtime: u32,
    pub save_type: SaveType,
    pub description: Seq<char>,
    pub nexus_session_id: u16,
    pub session_id: Seq<char>,
    pub buildcl: u32,
    pub unix_timestamp: i64,
    pub date_time: i64,
    pub expansion: Seq<u8>,
    pub save_file_version: i32,
    pub project: u32,
    pub licensee_version: Seq<char>,
    pub version: u32,
    pub guid: Seq<u8>,
    pub checkpoint_id: u32,
}

impl View for BWSaveGameMetadata {
    type V = MetadataView;

    open spec fn view(&self) -> MetadataView {
        MetadataView {
            faction: self.faction,
            lineage: self.lineage,
            arche_type: self.arche_type,
            character_name: self.character_name@,
            quest_id: self.quest_id,
            request_id: self.request_id,
            active_career: self.active_career,
            key_binding_profile: self.key_binding_profile,
            after_point_of_no_return: self.after_point_of_no_return,
            character_level: self.character_level,
            difficulty: self.difficulty,
            voice_tone: self.voice_tone,
            voice: self.voice,
            pronouns: self.pronouns,
            gender: self.gender,
            transition_point_name: self.transition_point_name@,
            version_two: self.version_two,
            project_data: self.project_data,
            post_streaming_install: self.post_streaming_install,
            cdur: self.cdur,
            playtime: self.playtime,
            save_type: self.save_type,
            description: self.description@,
            nexus_session_id: self.nexus_session_id,
            session_id: self.session_id@,
            buildcl: self.buildcl,
            unix_timestamp: self.unix_timestamp,
            date_time: self.date_time,
            expansion: self.expansion@,
            save_file_version: self.save_file_version,
            project: self.project,
            licensee_version: self.licensee_version@,
            version: self.version,
            guid: self.guid@,
            checkpoint_id: self.checkpoint_id,
        }
    }
}

/// The record before any field is read.
pub open spec fn initial_metadata() -> MetadataView {
    MetadataView {
        faction: CharacterFaction::AntivanCrows,
        lineage: CharacterLineage::Elf,
        arche_type: CharacterArchetype::Crow,
        character_name: Seq::<char>::empty(),
        quest_id: 0,
        request_id: 0,
        active_career: 0,
        key_binding_profile: KeyBindingProfile::Mage,
        after_point_of_no_return: false,
        character_level: 0,
        difficulty: Difficulty::Adventurer,
        voice_tone: CharacterVoiceTone::Low,
        voice: CharacterVoice::FeminineOne,
        pronouns: CharacterPronouns::HeHim,
        gender: CharacterGender::Male,
        transition_point_name: Seq::<char>::empty(),
        version_two: 0,
        project_data: 0,
        post_streaming_install: false,
        cdur: 0,
        playtime: 0,
        save_type: SaveType::Manual,
        description: Seq::<char>::empty(),
        nexus_session_id: 0,
        session_id: Seq::<char>::empty(),
        buildcl: 0,
        unix_timestamp: 0,
        date_time: 0,
        expansion: Seq::new(9, |i: int| 0u8),
        save_file_version: 0,
        project: 0,
        licensee_version: Seq::<char>::empty(),
        version: 0,
        guid: Seq::new(16, |i: int| 0u8),
        checkpoint_id: 0,
    }
}

impl Default for BWSaveGameMetadata {
    fn default() -> (r: Self)
        ensures
            r@ == initial_metadata(),
    {
        let r = BWSaveGameMetadata {
            faction: CharacterFaction::AntivanCrows,
            lineage: CharacterLineage::Elf,
            arche_type: CharacterArchetype::Crow,
            character_name: String::new(),
            quest_id: 0,
            request_id: 0,
            active_career: 0,
            key_binding_profile: KeyBindingProfile::Mage,
            after_point_of_no_return: false,
            character_level: 0,
            difficulty: Difficulty::Adventurer,
            voice_tone: CharacterVoiceTone::Low,
            voice: CharacterVoice::FeminineOne,
            pronouns: CharacterPronouns::HeHim,
            gender: CharacterGender::Male,
            transition_point_name: String::new(),
            version_two: 0,
            project_data: 0,
            post_streaming_install: false,
            cdur: 0,
            playtime: 0,
            save_type: SaveType::Manual,
            description: String::new(),
            nexus_session_id: 0,
            session_id: String::new(),
            buildcl: 0,
            unix_timestamp: 0,
            date_time: 0,
            expansion: [0u8; 9],
            save_file_version: 0,
            project: 0,
            licensee_version: String::new(),
            version: 0,
            guid: [0u8; 16],
            checkpoint_id: 0,
        };
        assert(r.expansion@ =~= Seq::new(9, |i: int| 0u8));
        assert(r.guid@ =~= Seq::new(16, |i: int| 0u8));
        r
    }
}

// The cursor over a record may be moved past its end, where every read
// fails or comes back empty, as it does at the end itself; so positions are
// kept at most at the end.

/// The position `n` bytes on from `p`, kept at most at the end.
pub open spec fn skipped(d: Seq<u8>, p: int, n: int) -> int {
    if p + n <= d.len() {
        p + n
    } else {
        d.len() as int
    }
}

pub open spec fn le_u16(d: Seq<u8>, p: int) -> u16 {
    (d[p] + 256 * d[p + 1]) as u16
}

pub open spec fn le_u32(d: Seq<u8>, p: int) -> u32 {
    (d[p] + 256 * (d[p + 1] + 256 * (d[p + 2] + 256 * d[p + 3]))) as u32
}

pub open spec fn le_u64(d: Seq<u8>, p: int) -> u64 {
    (le_u32(d, p) + 0x1_0000_0000 * le_u32(d, p + 4)) as u64
}

/// `n` bytes at `p`, and the position after them.
pub open spec fn bytes_at(d: Seq<u8>, p: int, n: int) -> Result<(Seq<u8>, int), ErrorView> {
    if p + n <= d.len() {
        Ok((d.subrange(p, p + n), p + n))
    } else {
        Err(ErrorView::UnexpectedEof)
    }
}

pub open spec fn u8_at(d: Seq<u8>, p: int) -> Result<(u8, int), ErrorView> {
    if p + 1 <= d.len() {
        Ok((d[p], p + 1))
    } else {
        Err(ErrorView::UnexpectedEof)
    }
}

pub open spec fn u16_at(d: Seq<u8>, p: int) -> Result<(u16, int), ErrorView> {
    if p + 2 <= d.len() {
        Ok((le_u16(d, p), p + 2))
    } else {
        Err(ErrorView::UnexpectedEof)
    }
}

pub open spec fn u32_at(d: Seq<u8>, p: int) -> Result<(u32, int), ErrorView> {
    if p + 4 <= d.len() {
        Ok((le_u32(d, p), p + 4))
    } else {
        Err(ErrorView::UnexpectedEof)
    }
}

pub open spec fn i32_at(d: Seq<u8>, p: int) -> Result<(i32, int), ErrorView> {
    if p + 4 <= d.len() {
        Ok((le_u32(d, p) as i32, p + 4))
    } else {
        Err(ErrorView::UnexpectedEof)
    }
}

pub open spec fn i64_at(d: Seq<u8>, p: int) -> Result<(i64, int), ErrorView> {
    if p + 8 <= d.len() {
        Ok((le_u64(d, p) as i64, p + 8))
    } else {
        Err(ErrorView::UnexpectedEof)
    }
}

/// A boolean byte: 0 or 1, anything else rejected.
pub open spec fn bool_at(d: Seq<u8>, p: int) -> Result<(bool, int), ErrorView> {
    if p + 1 > d.len() {
        Err(ErrorView::UnexpectedEof)
    } else if d[p] == 0 {
        Ok((false, p + 1))
    } else if d[p] == 1 {
        Ok((true, p + 1))
    } else {
        Err(ErrorView::InvalidBool(d[p]))
    }
}

/// The first zero byte at or after `p`, or the end.
pub open spec fn nul_end(d: Seq<u8>, p: int) -> int
    decreases d.len() - p,
{
    if p >= d.len() {
        d.len() as int
    } else if d[p] == 0 {
        p
    } else {
        nul_end(d, p + 1)
    }
}

/// A string ended by a zero byte or by the end of the data, and the
/// position after its terminator.
pub open spec fn nul_terminated_at(d: Seq<u8>, p: int) -> Result<(Seq<char>, int), ErrorView> {
    let k = nul_end(d, p);
    let b = d.subrange(p, k);
    if !valid_utf8(b) {
        Err(ErrorView::InvalidUtf8)
    } else if k < d.len() {
        Ok((decode_utf8(b), k + 1))
    } else {
        Ok((decode_utf8(b), k))
    }
}

/// A string after one length or kind byte, which is not read.
pub open spec fn prefixed_string_at(d: Seq<u8>, p: int) -> Result<(Seq<char>, int), ErrorView> {
    nul_terminated_at(d, skipped(d, p, 1))
}

pub open spec fn string_of_len_at(d: Seq<u8>, p: int, n: int) -> Result<(Seq<char>, int), ErrorView> {
    match bytes_at(d, p, n) {
        Ok((b, q)) => if valid_utf8(b) {
            Ok((decode_utf8(b), q))
        } else {
            Err(ErrorView::InvalidUtf8)
        },
        Err(e) => Err(e),
    }
}

pub open spec fn guid_at(d: Seq<u8>, p: int) -> Result<(Seq<u8>, int), ErrorView> {
    match bytes_at(d, p, 16) {
        Ok((b, q)) => Ok((guid_from_le_order(b), q)),
        Err(e) => Err(e),
    }
}

/// A timestamp: a kind byte, then RFC 3339 text ended by a zero byte.
pub open spec fn date_time_at(d: Seq<u8>, p: int) -> Result<(i64, int), ErrorView> {
    match prefixed_string_at(d, p) {
        Ok((s, q)) => match rfc3339_seconds(s) {
            Some(t) => Ok((t, q)),
            None => Err(ErrorView::InvalidTimestamp(s)),
        },
        Err(e) => Err(e),
    }
}

/// A read that returns `r` and leaves the cursor at `pos` agrees with the
/// specified read `s`.
pub open spec fn read_agrees<T>(r: Result<T, SaveError>, pos: usize, s: Result<(T, int), ErrorView>) -> bool {
    match s {
        Ok((v, q)) => r == Ok::<T, SaveError>(v) && pos == q,
        Err(e) => r is Err && r->Err_0@ == e,
    }
}

pub open spec fn read_agrees_view<T: View>(
    r: Result<T, SaveError>,
    pos: usize,
    s: Result<(T::V, int), ErrorView>,
) -> bool {
    match s {
        Ok((v, q)) => r is Ok && r->Ok_0@ == v && pos == q,
        Err(e) => r is Err && r->Err_0@ == e,
    }
}

/// A code read for `field`, looked up in its table.
pub open spec fn coded<E>(
    r: Result<(u32, int), ErrorView>,
    field: CodedField,
    table: spec_fn(u32) -> Option<E>,
) -> Result<(E, int), ErrorView> {
    match r {
        Ok((c, q)) => match table(c) {
            Some(x) => Ok((x, q)),
            None => Err(ErrorView::UnknownCode(field, c)),
        },
        Err(e) => Err(e),
    }
}

/// A boolean, then one byte that is consumed only when it is zero: a
/// non-zero byte belongs to the next field.
pub open spec fn bool_then_peek_at(d: Seq<u8>, p: int) -> Result<(bool, int), ErrorView> {
    match bool_at(d, p) {
        Ok((b, q)) => match u8_at(d, q) {
            Ok((x, r)) => Ok((b, if x != 0 { q } else { r })),
            Err(e) => Err(e),
        },
        Err(e) => Err(e),
    }
}

/// A code, then one byte that is not read.
pub open spec fn code_then_skip_at(d: Seq<u8>, p: int) -> Result<(u32, int), ErrorView> {
    match u32_at(d, p) {
        Ok((c, q)) => Ok((c, skipped(d, q, 1))),
        Err(e) => Err(e),
    }
}

pub open spec fn save_type_at(d: Seq<u8>, p: int) -> Result<(SaveType, int), ErrorView> {
    match prefixed_string_at(d, p) {
        Ok((s, q)) => match save_type_of(s) {
            Some(t) => Ok((t, q)),
            None => Err(ErrorView::UnknownSaveType(s)),
        },
        Err(e) => Err(e),
    }
}

/// The known field names.
#[derive(Clone, Copy, Debug, PartialEq, Eq, Structural)]
pub enum FieldTag {
    CheckpointId,
    Faction,
    Lineage,
    Archetype,
    CharName,
    QuestId,
    ActiveCareer,
    RequestId,
    KeyBindingProfile,
    Level,
    Difficulty,
    Tone,
    Voice,
    Pronoun,
    Gender,
    TransitionPointName,
    ProjData,
    PostStreamingInstall,
    AfterPointOfNoReturn,
    Cdur,
    Playtime,
    Type,
    Description,
    NexusSessionId,
    SessionId,
    BuildCl,
    UnixTimeSeconds,
    Time,
    Expansion,
    SaveFileVersion,
    Project,
    LicenseeVersion,
    Version,
    Uid,
}

/// The field that a name stands for; names are compared case-sensitively.
#[verifier::opaque]
pub open spec fn field_tag_of(name: Seq<char>) -> Option<FieldTag> {
    if name == "checkpointid"@ {
        Some(FieldTag::CheckpointId)
    } else if name == "faction"@ {
        Some(FieldTag::Faction)
    } else if name == "lineage"@ {
        Some(FieldTag::Lineage)
    } else if name == "archetype"@ {
        Some(FieldTag::Archetype)
    } else if name == "charname"@ {
        Some(FieldTag::CharName)
    } else if name == "questid"@ {
        Some(FieldTag::QuestId)
    } else if name == "activecareer"@ {
        Some(FieldTag::ActiveCareer)
    } else if name == "requestid"@ {
        Some(FieldTag::RequestId)
    } else if name == "keybindingprofile"@ {
        Some(FieldTag::KeyBindingProfile)
    } else if name == "level"@ {
        Some(FieldTag::Level)
    } else if name == "difficulty"@ {
        Some(FieldTag::Difficulty)
    } else if name == "tone"@ {
        Some(FieldTag::Tone)
    } else if name == "voice"@ {
        Some(FieldTag::Voice)
    } else if name == "pronoun"@ {
        Some(FieldTag::Pronoun)
    } else if name == "gender"@ {
        Some(FieldTag::Gender)
    } else if name == "transitionpointname"@ {
        Some(FieldTag::TransitionPointName)
    } else if name == "projdata"@ {
        Some(FieldTag::ProjData)
    } else if name == "poststreaminginstall"@ {
        Some(FieldTag::PostStreamingInstall)
    } else if name == "afterpointofnoreturn"@ {
        Some(FieldTag::AfterPointOfNoReturn)
    } else if name == "cdur"@ {
        Some(FieldTag::Cdur)
    } else if name == "playtime"@ {
        Some(FieldTag::Playtime)
    } else if name == "type"@ {
        Some(FieldTag::Type)
    } else if name == "description"@ {
        Some(FieldTag::Description)
    } else if name == "nexussessionid"@ {
        Some(FieldTag::NexusSessionId)
    } else if name == "sessionid"@ {
        Some(FieldTag::SessionId)
    } else if name == "buildcl"@ {
        Some(FieldTag::BuildCl)
    } else if name == "unixtimeseconds"@ {
        Some(FieldTag::UnixTimeSeconds)
    } else if name == "time"@ {
        Some(FieldTag::Time)
    } else if name == "expansion"@ {
        Some(FieldTag::Expansion)
    } else if name == "savefileversion"@ {
        Some(FieldTag::SaveFileVersion)
    } else if name == "project"@ {
        Some(FieldTag::Project)
    } else if name == "licenseeversion"@ {
        Some(FieldTag::LicenseeVersion)
    } else if name == "version"@ {
        Some(FieldTag::Version)
    } else if name == "uid"@ {
        Some(FieldTag::Uid)
    } else {
        None
    }
}

/// Reads the value of field `tag` at `p` into `m`; `seen` tells whether a
/// `version` field came before.
#[verifier::opaque]
pub open spec fn field_step(d: Seq<u8>, tag: FieldTag, p: int, m: MetadataView, seen: bool) -> Result<
    (MetadataView, bool, int),
    ErrorView,
> {
    match tag {
        FieldTag::CheckpointId => match u32_at(d, p) {
            Ok((v, q)) => Ok((MetadataView { checkpoint_id: v, ..m }, seen, q)),
            Err(e) => Err(e),
        },
        FieldTag::Faction => match coded(u32_at(d, p), CodedField::Faction, |c: u32| faction_of(c)) {
            Ok((v, q)) => Ok((MetadataView { faction: v, ..m }, seen, q)),
            Err(e) => Err(e),
        },
        FieldTag::Lineage => match coded(u32_at(d, p), CodedField::Lineage, |c: u32| lineage_of(c)) {
            Ok((v, q)) => Ok((MetadataView { lineage: v, ..m }, seen, q)),
            Err(e) => Err(e),
        },
        FieldTag::Archetype => match coded(u32_at(d, p), CodedField::Archetype, |c: u32| archetype_of(c)) {
            Ok((v, q)) => Ok((MetadataView { arche_type: v, ..m }, seen, q)),
            Err(e) => Err(e),
        },
        FieldTag::CharName => match prefixed_string_at(d, p) {
            Ok((v, q)) => Ok((MetadataView { character_name: v, ..m }, seen, q)),
            Err(e) => Err(e),
        },
        FieldTag::QuestId => match u32_at(d, p) {
            Ok((v, q)) => Ok((MetadataView { quest_id: v, ..m }, seen, q)),
            Err(e) => Err(e),
        },
        FieldTag::ActiveCareer => match u32_at(d, p) {
            Ok((v, q)) => Ok((MetadataView { active_career: v, ..m }, seen, q)),
            Err(e) => Err(e),
        },
        FieldTag::RequestId => match i64_at(d, p) {
            Ok((v, q)) => Ok((MetadataView { request_id: v, ..m }, seen, q)),
            Err(e) => Err(e),
        },
        FieldTag::KeyBindingProfile => match coded(code_then_skip_at(d, p), CodedField::KeyBindingProfile, |c: u32| key_binding_profile_of(c)) {
            Ok((v, q)) => Ok((MetadataView { key_binding_profile: v, ..m }, seen, q)),
            Err(e) => Err(e),
        },
        FieldTag::Level => match u32_at(d, p) {
            Ok((v, q)) => Ok((MetadataView { character_level: v, ..m }, seen, q)),
            Err(e) => Err(e),
        },
        FieldTag::Difficulty => match coded(u32_at(d, p), CodedField::Difficulty, |c: u32| difficulty_of(c)) {
            Ok((v, q)) => Ok((MetadataView { difficulty: v, ..m }, seen, q)),
            Err(e) => Err(e),
        },
        FieldTag::Tone => match coded(u32_at(d, p), CodedField::VoiceTone, |c: u32| voice_tone_of(c)) {
            Ok((v, q)) => Ok((MetadataView { voice_tone: v, ..m }, seen, q)),
            Err(e) => Err(e),
        },
        FieldTag::Voice => match coded(u32_at(d, p), CodedField::Voice, |c: u32| voice_of(c)) {
            Ok((v, q)) => Ok((MetadataView { voice: v, ..m }, seen, q)),
            Err(e) => Err(e),
        },
        FieldTag::Pronoun => match coded(u32_at(d, p), CodedField::Pronouns, |c: u32| pronouns_of(c)) {
            Ok((v, q)) => Ok((MetadataView { pronouns: v, ..m }, seen, q)),
            Err(e) => Err(e),
        },
        FieldTag::Gender => match coded(u32_at(d, p), CodedField::Gender, |c: u32| gender_of(c)) {
            Ok((v, q)) => Ok((MetadataView { gender: v, ..m }, seen, q)),
            Err(e) => Err(e),
        },
        FieldTag::TransitionPointName => match prefixed_string_at(d, p) {
            Ok((v, q)) => Ok((MetadataView { transition_point_name: v, ..m }, seen, q)),
            Err(e) => Err(e),
        },
        FieldTag::ProjData => match u16_at(d, p) {
            Ok((v, q)) => Ok((MetadataView { project_data: v, ..m }, seen, q)),
            Err(e) => Err(e),
        },
        FieldTag::PostStreamingInstall => match bool_at(d, p) {
            Ok((v, q)) => Ok((MetadataView { post_streaming_install: v, ..m }, seen, q)),
            Err(e) => Err(e),
        },
        FieldTag::AfterPointOfNoReturn => match bool_then_peek_at(d, p) {
            Ok((v, q)) => Ok((MetadataView { after_point_of_no_return: v, ..m }, seen, q)),
            Err(e) => Err(e),
        },
        FieldTag::Cdur => match u32_at(d, p) {
            Ok((v, q)) => Ok((MetadataView { cdur: v, ..m }, seen, q)),
            Err(e) => Err(e),
        },
        FieldTag::Playtime => match u32_at(d, p) {
            Ok((v, q)) => Ok((MetadataView { playtime: v, ..m }, seen, q)),
            Err(e) => Err(e),
        },
        FieldTag::Type => match save_type_at(d, p) {
            Ok((v, q)) => Ok((MetadataView { save_type: v, ..m }, seen, q)),
            Err(e) => Err(e),
        },
        FieldTag::Description => match prefixed_string_at(d, p) {
            Ok((v, q)) => Ok((MetadataView { description: v, ..m }, seen, q)),
            Err(e) => Err(e),
        },
        FieldTag::NexusSessionId => match u16_at(d, p) {
            Ok((v, q)) => Ok((MetadataView { nexus_session_id: v, ..m }, seen, q)),
            Err(e) => Err(e),
        },
        FieldTag::SessionId => match prefixed_string_at(d, p) {
            Ok((v, q)) => Ok((MetadataView { session_id: v, ..m }, seen, q)),
            Err(e) => Err(e),
        },
        FieldTag::BuildCl => match u32_at(d, p) {
            Ok((v, q)) => Ok((MetadataView { buildcl: v, ..m }, seen, q)),
            Err(e) => Err(e),
        },
        FieldTag::UnixTimeSeconds => match i64_at(d, p) {
            Ok((v, q)) => Ok((MetadataView { unix_timestamp: v, ..m }, seen, q)),
            Err(e) => Err(e),
        },
        FieldTag::Time => match date_time_at(d, p) {
            Ok((v, q)) => Ok((MetadataView { date_time: v, ..m }, seen, q)),
            Err(e) => Err(e),
        },
        FieldTag::Expansion => match bytes_at(d, p, 9) {
            Ok((v, q)) => Ok((MetadataView { expansion: v, ..m }, seen, q)),
            Err(e) => Err(e),
        },
        FieldTag::SaveFileVersion => match i32_at(d, p) {
            Ok((v, q)) => Ok((MetadataView { save_file_version: v, ..m }, seen, q)),
            Err(e) => Err(e),
        },
        FieldTag::Project => match u32_at(d, p) {
            Ok((v, q)) => Ok((MetadataView { project: v, ..m }, seen, q)),
            Err(e) => Err(e),
        },
        FieldTag::LicenseeVersion => match string_of_len_at(d, p, 1) {
            Ok((v, q)) => Ok((MetadataView { licensee_version: v, ..m }, seen, q)),
            Err(e) => Err(e),
        },
        FieldTag::Version => match u32_at(d, p) {
            Ok((v, q)) => if !seen {
                Ok((MetadataView { version: v, ..m }, true, q))
            } else {
                Ok((MetadataView { version_two: v, ..m }, true, q))
            },
            Err(e) => Err(e),
        },
        FieldTag::Uid => match guid_at(d, p) {
            Ok((v, q)) => Ok((MetadataView { guid: v, ..m }, seen, q)),
            Err(e) => Err(e),
        },
    }
}

/// Fields read from `p` on into `m`, until the position reaches the last
/// byte of the data.
pub open spec fn parse_fields(d: Seq<u8>, p: int, m: MetadataView, seen: bool) -> Result<
    MetadataView,
    ErrorView,
>
    decreases d.len() - p,
{
    if p + 1 >= d.len() {
        Ok(m)
    } else {
        match prefixed_string_at(d, p) {
            Err(e) => Err(e),
            Ok((name, q)) => match field_tag_of(name) {
                None => Err(ErrorView::UnknownField(name)),
                Some(tag) => match field_step(d, tag, q, m, seen) {
                    Err(e) => Err(e),
                    Ok((m2, seen2, r)) => if p < r <= d.len() {
                        parse_fields(d, r, m2, seen2)
                    } else {
                        Ok(m2)
                    },
                },
            },
        }
    }
}

/// Length of the fixed prefix of the record, which holds no field.
pub const RECORD_PREFIX_LEN: usize = 3;

/// The metadata record that the bytes `d` hold.
pub open spec fn metadata_of(d: Seq<u8>) -> Result<MetadataView, ErrorView> {
    parse_fields(d, skipped(d, 0, RECORD_PREFIX_LEN as int), initial_metadata(), false)
}

pub proof fn lemma_nul_end_bounds(d: Seq<u8>, p: int)
    requires
        0 <= p <= d.len(),
    ensures
        p <= nul_end(d, p) <= d.len(),
    decreases d.len() - p,
{
    if p < d.len() && d[p] != 0 {
        lemma_nul_end_bounds(d, p + 1);
    }
}

/// Every field read moves forward, and stays within the data.
pub proof fn lemma_field_step_advances(d: Seq<u8>, tag: FieldTag, p: int, m: MetadataView, seen: bool)
    requires
        0 <= p <= d.len(),
    ensures
        field_step(d, tag, p, m, seen) is Ok ==> p <= field_step(d, tag, p, m, seen)->Ok_0.2 <= d.len(),
{
    reveal(field_step);
    lemma_nul_end_bounds(d, skipped(d, p, 1));
}

/// Cursor over a metadata record, and the record read from it.
pub struct BWSaveGameMetadataReader {
    pub data: Vec<u8>,
    pub pos: usize,
    pub metadata: BWSaveGameMetadata,
}

impl BWSaveGameMetadataReader {
    pub open spec fn wf(&self) -> bool {
        self.pos <= self.data@.len()
    }

    pub fn new(data: Vec<u8>) -> (r: Self)
        ensures
            r.wf(),
            r.data == data,
            r.pos == 0,
            r.metadata@ == initial_metadata(),
    {
        BWSaveGameMetadataReader { data, pos: 0, metadata: BWSaveGameMetadata::default() }
    }

    /// Moves the cursor to `n`, or to the end if `n` is past it.
    pub fn seek_from_start(&mut self, n: usize)
        ensures
            final(self).data == old(self).data,
            final(self).metadata == old(self).metadata,
            final(self).wf(),
            final(self).pos == skipped(old(self).data@, 0, n as int),
    {
        if n <= self.data.len() {
            self.pos = n;
        } else {
            self.pos = self.data.len();
        }
    }

    /// Moves the cursor `n` bytes on, or to the end if that is past it.
    pub fn seek_from_current(&mut self, n: usize)
        requires
            old(self).wf(),
        ensures
            final(self).data == old(self).data,
            final(self).metadata == old(self).metadata,
            final(self).wf(),
            final(self).pos == skipped(old(self).data@, old(self).pos as int, n as int),
    {
        if n <= self.data.len() - self.pos {
            self.pos = self.pos + n;
        } else {
            self.pos = self.data.len();
        }
    }

    pub fn read_bytes(&mut self, count: usize) -> (r: Result<Vec<u8>, SaveError>)
        requires
            old(self).wf(),
        ensures
            final(self).data == old(self).data,
            final(self).metadata == old(self).metadata,
            final(self).wf(),
            read_agrees_view(r, final(self).pos, bytes_at(old(self).data@, old(self).pos as int, count as int)),
    {
        if count > self.data.len() - self.pos {
            return Err(SaveError::UnexpectedEof);
        }
        let end = self.pos + count;
        let out = vstd::slice::slice_to_vec(vstd::slice::slice_subrange(self.data.as_slice(), self.pos, end));
        self.pos = end;
        Ok(out)
    }

    pub fn read_u8(&mut self) -> (r: Result<u8, SaveError>)
        requires
            old(self).wf(),
        ensures
            final(self).data == old(self).data,
            final(self).metadata == old(self).metadata,
            final(self).wf(),
            read_agrees(r, final(self).pos, u8_at(old(self).data@, old(self).pos as int)),
    {
        if self.pos >= self.data.len() {
            return Err(SaveError::UnexpectedEof);
        }
        let b = self.data[self.pos];
        self.pos = self.pos + 1;
        Ok(b)
    }

    pub fn read_u16_le(&mut self) -> (r: Result<u16, SaveError>)
        requires
            old(self).wf(),
        ensures
            final(self).data == old(self).data,
            final(self).metadata == old(self).metadata,
            final(self).wf(),
            read_agrees(r, final(self).pos, u16_at(old(self).data@, old(self).pos as int)),
    {
        let b = self.read_bytes(2)?;
        Ok(b[0] as u16 + 256 * b[1] as u16)
    }

    pub fn read_u32_le(&mut self) -> (r: Result<u32, SaveError>)
        requires
            old(self).wf(),
        ensures
            final(self).data == old(self).data,
            final(self).metadata == old(self).metadata,
            final(self).wf(),
            read_agrees(r, final(self).pos, u32_at(old(self).data@, old(self).pos as int)),
    {
        let b = self.read_bytes(4)?;
        Ok(b[0] as u32 + 256 * (b[1] as u32 + 256 * (b[2] as u32 + 256 * b[3] as u32)))
    }

    pub fn read_i32_le(&mut self) -> (r: Result<i32, SaveError>)
        requires
            old(self).wf(),
        ensures
            final(self).data == old(self).data,
            final(self).metadata == old(self).metadata,
            final(self).wf(),
            read_agrees(r, final(self).pos, i32_at(old(self).data@, old(self).pos as int)),
    {
        let u = self.read_u32_le()?;
        Ok(#[verifier::truncate] (u as i32))
    }

    pub fn read_i64_le(&mut self) -> (r: Result<i64, SaveError>)
        requires
            old(self).wf(),
        ensures
            final(self).data == old(self).data,
            final(self).metadata == old(self).metadata,
            final(self).wf(),
            read_agrees(r, final(self).pos, i64_at(old(self).data@, old(self).pos as int)),
    {
        if self.data.len() - self.pos < 8 {
            return Err(SaveError::UnexpectedEof);
        }
        let lo = self.read_u32_le()?;
        let hi = self.read_u32_le()?;
        let u = lo as u64 + 0x1_0000_0000 * hi as u64;
        Ok(#[verifier::truncate] (u as i64))
    }

    pub fn read_bool(&mut self) -> (r: Result<bool, SaveError>)
        requires
            old(self).wf(),
        ensures
            final(self).data == old(self).data,
            final(self).metadata == old(self).metadata,
            final(self).wf(),
            read_agrees(r, final(self).pos, bool_at(old(self).data@, old(self).pos as int)),
    {
        let value = self.read_u8()?;
        if value == 0 {
            Ok(false)
        } else if value == 1 {
            Ok(true)
        } else {
            Err(SaveError::InvalidBool(value))
        }
    }

    pub fn read_string_of_len(&mut self, n: usize) -> (r: Result<String, SaveError>)
        requires
            old(self).wf(),
        ensures
            final(self).data == old(self).data,
            final(self).metadata == old(self).metadata,
            final(self).wf(),
            read_agrees_view(r, final(self).pos, string_of_len_at(old(self).data@, old(self).pos as int, n as int)),
    {
        let b = self.read_bytes(n)?;
        match utf8_string(b) {
            Some(s) => Ok(s),
            None => Err(SaveError::InvalidUtf8),
        }
    }

    /// Reads up to the next zero byte, or to the end, and steps over the zero.
    pub fn read_null_terminated_string(&mut self) -> (r: Result<String, SaveError>)
        requires
            old(self).wf(),
        ensures
            final(self).data == old(self).data,
            final(self).metadata == old(self).metadata,
            final(self).wf(),
            read_agrees_view(r, final(self).pos, nul_terminated_at(old(self).data@, old(self).pos as int)),
    {
        let ghost d = self.data@;
        let start = self.pos;
        let mut p = self.pos;
        let mut buffer: Vec<u8> = Vec::new();
        while p < self.data.len() && self.data[p] != 0
            invariant
                self.data@ == d,
                start <= p <= d.len(),
                nul_end(d, start as int) == nul_end(d, p as int),
                buffer@ == d.subrange(start as int, p as int),
            decreases d.len() - p,
        {
            buffer.push(self.data[p]);
            proof {
                assert(buffer@ =~= d.subrange(start as int, p + 1));
            }
            p = p + 1;
        }
        if p < self.data.len() {
            self.pos = p + 1;
        } else {
            self.pos = p;
        }
        match utf8_string(buffer) {
            Some(s) => Ok(s),
            None => Err(SaveError::InvalidUtf8),
        }
    }

    /// A field name: one length or kind byte, not read, then the name.
    pub fn read_name_string(&mut self) -> (r: Result<String, SaveError>)
        requires
            old(self).wf(),
        ensures
            final(self).data == old(self).data,
            final(self).metadata == old(self).metadata,
            final(self).wf(),
            read_agrees_view(r, final(self).pos, prefixed_string_at(old(self).data@, old(self).pos as int)),
    {
        self.seek_from_current(1);
        self.read_null_terminated_string()
    }

    pub fn read_guid(&mut self) -> (r: Result<[u8; 16], SaveError>)
        requires
            old(self).wf(),
        ensures
            final(self).data == old(self).data,
            final(self).metadata == old(self).metadata,
            final(self).wf(),
            read_agrees_view(r, final(self).pos, guid_at(old(self).data@, old(self).pos as int)),
    {
        let b = self.read_bytes(16)?;
        let a: [u8; 16] = [
            b[0], b[1], b[2], b[3], b[4], b[5], b[6], b[7], b[8], b[9], b[10], b[11], b[12], b[13],
            b[14], b[15],
        ];
        assert(a@ =~= b@);
        Ok(guid_from_bytes_le(a))
    }

    pub fn read_date_time(&mut self) -> (r: Result<i64, SaveError>)
        requires
            old(self).wf(),
        ensures
            final(self).data == old(self).data,
            final(self).metadata == old(self).metadata,
            final(self).wf(),
            read_agrees(r, final(self).pos, date_time_at(old(self).data@, old(self).pos as int)),
    {
        let s = self.read_name_string()?;
        match parse_rfc3339_seconds(s.as_str()) {
            Some(t) => Ok(t),
            None => Err(SaveError::InvalidTimestamp(s)),
        }
    }

    /// The field that `name` stands for.
    pub fn field_tag(name: &str) -> (r: Option<FieldTag>)
        ensures
            r == field_tag_of(name@),
    {
        reveal(field_tag_of);
        if str_eq(name, "checkpointid") {
            Some(FieldTag::CheckpointId)
        } else if str_eq(name, "faction") {
            Some(FieldTag::Faction)
        } else if str_eq(name, "lineage") {
            Some(FieldTag::Lineage)
        } else if str_eq(name, "archetype") {
            Some(FieldTag::Archetype)
        } else if str_eq(name, "charname") {
            Some(FieldTag::CharName)
        } else if str_eq(name, "questid") {
            Some(FieldTag::QuestId)
        } else if str_eq(name, "activecareer") {
            Some(FieldTag::ActiveCareer)
        } else if str_eq(name, "requestid") {
            Some(FieldTag::RequestId)
        } else if str_eq(name, "keybindingprofile") {
            Some(FieldTag::KeyBindingProfile)
        } else if str_eq(name, "level") {
            Some(FieldTag::Level)
        } else if str_eq(name, "difficulty") {
            Some(FieldTag::Difficulty)
        } else if str_eq(name, "tone") {
            Some(FieldTag::Tone)
        } else if str_eq(name, "voice") {
            Some(FieldTag::Voice)
        } else if str_eq(name, "pronoun") {
            Some(FieldTag::Pronoun)
        } else if str_eq(name, "gender") {
            Some(FieldTag::Gender)
        } else if str_eq(name, "transitionpointname") {
            Some(FieldTag::TransitionPointName)
        } else if str_eq(name, "projdata") {
            Some(FieldTag::ProjData)
        } else if str_eq(name, "poststreaminginstall") {
            Some(FieldTag::PostStreamingInstall)
        } else if str_eq(name, "afterpointofnoreturn") {
            Some(FieldTag::AfterPointOfNoReturn)
        } else if str_eq(name, "cdur") {
            Some(FieldTag::Cdur)
        } else if str_eq(name, "playtime") {
            Some(FieldTag::Playtime)
        } else if str_eq(name, "type") {
            Some(FieldTag::Type)
        } else if str_eq(name, "description") {
            Some(FieldTag::Description)
        } else if str_eq(name, "nexussessionid") {
            Some(FieldTag::NexusSessionId)
        } else if str_eq(name, "sessionid") {
            Some(FieldTag::SessionId)
        } else if str_eq(name, "buildcl") {
            Some(FieldTag::BuildCl)
        } else if str_eq(name, "unixtimeseconds") {
            Some(FieldTag::UnixTimeSeconds)
        } else if str_eq(name, "time") {
            Some(FieldTag::Time)
        } else if str_eq(name, "expansion") {
            Some(FieldTag::Expansion)
        } else if str_eq(name, "savefileversion") {
            Some(FieldTag::SaveFileVersion)
        } else if str_eq(name, "project") {
            Some(FieldTag::Project)
        } else if str_eq(name, "licenseeversion") {
            Some(FieldTag::LicenseeVersion)
        } else if str_eq(name, "version") {
            Some(FieldTag::Version)
        } else if str_eq(name, "uid") {
            Some(FieldTag::Uid)
        } else {
            None
        }
    }

    /// Reads the value of field `tag` into `meta`.
    fn read_field(&mut self, tag: FieldTag, meta: &mut BWSaveGameMetadata, version_seen: &mut bool) -> (r:
        Result<(), SaveError>)
        requires
            old(self).wf(),
        ensures
            final(self).data == old(self).data,
            final(self).metadata == old(self).metadata,
            final(self).wf(),
            match field_step(old(self).data@, tag, old(self).pos as int, old(meta)@, *old(version_seen)) {
                Ok((m, seen, q)) => r is Ok && final(meta)@ == m && *final(version_seen) == seen
                    && final(self).pos == q,
                Err(e) => r is Err && r->Err_0@ == e,
            },
    {
        match tag {
            FieldTag::CheckpointId | FieldTag::Faction | FieldTag::Lineage | FieldTag::Archetype | FieldTag::CharName | FieldTag::QuestId | FieldTag::ActiveCareer | FieldTag::RequestId | FieldTag::KeyBindingProfile => self.read_field_a(tag, meta, version_seen),
            FieldTag::Level | FieldTag::Difficulty | FieldTag::Tone | FieldTag::Voice | FieldTag::Pronoun | FieldTag::Gender | FieldTag::TransitionPointName | FieldTag::ProjData | FieldTag::PostStreamingInstall => self.read_field_b(tag, meta, version_seen),
            FieldTag::AfterPointOfNoReturn | FieldTag::Cdur | FieldTag::Playtime | FieldTag::Type | FieldTag::Description | FieldTag::NexusSessionId | FieldTag::SessionId | FieldTag::BuildCl => self.read_field_c(tag, meta, version_seen),
            FieldTag::UnixTimeSeconds | FieldTag::Time | FieldTag::Expansion | FieldTag::SaveFileVersion | FieldTag::Project | FieldTag::LicenseeVersion | FieldTag::Version | FieldTag::Uid => self.read_field_d(tag, meta, version_seen),
        }
    }

    #[verifier::rlimit(60)]
    fn read_field_a(&mut self, tag: FieldTag, meta: &mut BWSaveGameMetadata, version_seen: &mut bool) -> (r:
        Result<(), SaveError>)
        requires
            old(self).wf(),
            tag == FieldTag::CheckpointId || tag == FieldTag::Faction || tag == FieldTag::Lineage || tag == FieldTag::Archetype || tag == FieldTag::CharName || tag == FieldTag::QuestId || tag == FieldTag::ActiveCareer || tag == FieldTag::RequestId || tag == FieldTag::KeyBindingProfile,
        ensures
            final(self).data == old(self).data,
            final(self).metadata == old(self).metadata,
            final(self).wf(),
            match field_step(old(self).data@, tag, old(self).pos as int, old(meta)@, *old(version_seen)) {
                Ok((m, seen, q)) => r is Ok && final(meta)@ == m && *final(version_seen) == seen
                    && final(self).pos == q,
                Err(e) => r is Err && r->Err_0@ == e,
            },
    {
        reveal(field_step);
        match tag {
            FieldTag::CheckpointId => {
                meta.checkpoint_id = self.read_u32_le()?;
            },
            FieldTag::Faction => {
                let c = self.read_u32_le()?;
                match CharacterFaction::from_u32(c) {
                    Some(v) => meta.faction = v,
                    None => return Err(SaveError::UnknownCode(CodedField::Faction, c)),
                }
            },
            FieldTag::Lineage => {
                let c = self.read_u32_le()?;
                match CharacterLineage::from_u32(c) {
                    Some(v) => meta.lineage = v,
                    None => return Err(SaveError::UnknownCode(CodedField::Lineage, c)),
                }
            },
            FieldTag::Archetype => {
                let c = self.read_u32_le()?;
                match CharacterArchetype::from_u32(c) {
                    Some(v) => meta.arche_type = v,
                    None => return Err(SaveError::UnknownCode(CodedField::Archetype, c)),
                }
            },
            FieldTag::CharName => {
                // A length byte comes first.
                self.seek_from_current(1);
                meta.character_name = self.read_null_terminated_string()?;
            },
            FieldTag::QuestId => {
                meta.quest_id = self.read_u32_le()?;
            },
            FieldTag::ActiveCareer => {
                meta.active_career = self.read_u32_le()?;
            },
            FieldTag::RequestId => {
                meta.request_id = self.read_i64_le()?;
            },
            FieldTag::KeyBindingProfile => {
                let c = self.read_u32_le()?;
                match KeyBindingProfile::from_u32(c) {
                    Some(v) => meta.key_binding_profile = v,
                    None => return Err(SaveError::UnknownCode(CodedField::KeyBindingProfile, c)),
                }
                self.seek_from_current(1);
            },
            _ => {},
        }
        Ok(())
    }

    #[verifier::rlimit(60)]
    fn read_field_b(&mut self, tag: FieldTag, meta: &mut BWSaveGameMetadata, version_seen: &mut bool) -> (r:
        Result<(), SaveError>)
        requires
            old(self).wf(),
            tag == FieldTag::Level || tag == FieldTag::Difficulty || tag == FieldTag::Tone || tag == FieldTag::Voice || tag == FieldTag::Pronoun || tag == FieldTag::Gender || tag == FieldTag::TransitionPointName || tag == FieldTag::ProjData || tag == FieldTag::PostStreamingInstall,
        ensures
            final(self).data == old(self).data,
            final(self).metadata == old(self).metadata,
            final(self).wf(),
            match field_step(old(self).data@, tag, old(self).pos as int, old(meta)@, *old(version_seen)) {
                Ok((m, seen, q)) => r is Ok && final(meta)@ == m && *final(version_seen) == seen
                    && final(self).pos == q,
                Err(e) => r is Err && r->Err_0@ == e,
            },
    {
        reveal(field_step);
        match tag {
            FieldTag::Level => {
                meta.character_level = self.read_u32_le()?;
            },
            FieldTag::Difficulty => {
                let c = self.read_u32_le()?;
                match Difficulty::from_u32(c) {
                    Some(v) => meta.difficulty = v,
                    None => return Err(SaveError::UnknownCode(CodedField::Difficulty, c)),
                }
            },
            FieldTag::Tone => {
                let c = self.read_u32_le()?;
                match CharacterVoiceTone::from_u32(c) {
                    Some(v) => meta.voice_tone = v,
                    None => return Err(SaveError::UnknownCode(CodedField::VoiceTone, c)),
                }
            },
            FieldTag::Voice => {
                let c = self.read_u32_le()?;
                match CharacterVoice::from_u32(c) {
                    Some(v) => meta.voice = v,
                    None => return Err(SaveError::UnknownCode(CodedField::Voice, c)),
                }
            },
            FieldTag::Pronoun => {
                let c = self.read_u32_le()?;
                match CharacterPronouns::from_u32(c) {
                    Some(v) => meta.pronouns = v,
                    None => return Err(SaveError::UnknownCode(CodedField::Pronouns, c)),
                }
            },
            FieldTag::Gender => {
                let c = self.read_u32_le()?;
                match CharacterGender::from_u32(c) {
                    Some(v) => meta.gender = v,
                    None => return Err(SaveError::UnknownCode(CodedField::Gender, c)),
                }
            },
            FieldTag::TransitionPointName => {
                // A length byte comes first.
                self.seek_from_current(1);
                meta.transition_point_name = self.read_null_terminated_string()?;
            },
            FieldTag::ProjData => {
                meta.project_data = self.read_u16_le()?;
            },
            FieldTag::PostStreamingInstall => {
                meta.post_streaming_install = self.read_bool()?;
            },
            _ => {},
        }
        Ok(())
    }

    #[verifier::rlimit(60)]
    fn read_field_c(&mut self, tag: FieldTag, meta: &mut BWSaveGameMetadata, version_seen: &mut bool) -> (r:
        Result<(), SaveError>)
        requires
            old(self).wf(),
            tag == FieldTag::AfterPointOfNoReturn || tag == FieldTag::Cdur || tag == FieldTag::Playtime || tag == FieldTag::Type || tag == FieldTag::Description || tag == FieldTag::NexusSessionId || tag == FieldTag::SessionId || tag == FieldTag::BuildCl,
        ensures
            final(self).data == old(self).data,
            final(self).metadata == old(self).metadata,
            final(self).wf(),
            match field_step(old(self).data@, tag, old(self).pos as int, old(meta)@, *old(version_seen)) {
                Ok((m, seen, q)) => r is Ok && final(meta)@ == m && *final(version_seen) == seen
                    && final(self).pos == q,
                Err(e) => r is Err && r->Err_0@ == e,
            },
    {
        reveal(field_step);
        match tag {
            FieldTag::AfterPointOfNoReturn => {
                meta.after_point_of_no_return = self.read_bool()?;
                let next = self.read_u8()?;
                // A non-zero byte starts the next field: step back onto it.
                if next != 0 {
                    self.pos = self.pos - 1;
                }
            },
            FieldTag::Cdur => {
                meta.cdur = self.read_u32_le()?;
            },
            FieldTag::Playtime => {
                meta.playtime = self.read_u32_le()?;
            },
            FieldTag::Type => {
                // A kind byte comes first.
                self.seek_from_current(1);
                let s = self.read_null_terminated_string()?;
                match SaveType::from_str(s.as_str()) {
                    Some(t) => meta.save_type = t,
                    None => return Err(SaveError::UnknownSaveType(s)),
                }
            },
            FieldTag::Description => {
                // A length byte comes first.
                self.seek_from_current(1);
                meta.description = self.read_null_terminated_string()?;
            },
            FieldTag::NexusSessionId => {
                meta.nexus_session_id = self.read_u16_le()?;
            },
            FieldTag::SessionId => {
                // A length byte comes first.
                self.seek_from_current(1);
                meta.session_id = self.read_null_terminated_string()?;
            },
            FieldTag::BuildCl => {
                meta.buildcl = self.read_u32_le()?;
            },
            _ => {},
        }
        Ok(())
    }

    #[verifier::rlimit(60)]
    fn read_field_d(&mut self, tag: FieldTag, meta: &mut BWSaveGameMetadata, version_seen: &mut bool) -> (r:
        Result<(), SaveError>)
        requires
            old(self).wf(),
            tag == FieldTag::UnixTimeSeconds || tag == FieldTag::Time || tag == FieldTag::Expansion || tag == FieldTag::SaveFileVersion || tag == FieldTag::Project || tag == FieldTag::LicenseeVersion || tag == FieldTag::Version || tag == FieldTag::Uid,
        ensures
            final(self).data == old(self).data,
            final(self).metadata == old(self).metadata,
            final(self).wf(),
            match field_step(old(self).data@, tag, old(self).pos as int, old(meta)@, *old(version_seen)) {
                Ok((m, seen, q)) => r is Ok && final(meta)@ == m && *final(version_seen) == seen
                    && final(self).pos == q,
                Err(e) => r is Err && r->Err_0@ == e,
            },
    {
        reveal(field_step);
        match tag {
            FieldTag::UnixTimeSeconds => {
                meta.unix_timestamp = self.read_i64_le()?;
            },
            FieldTag::Time => {
                meta.date_time = self.read_date_time()?;
            },
            FieldTag::Expansion => {
                let b = self.read_bytes(9)?;
                let a: [u8; 9] = [b[0], b[1], b[2], b[3], b[4], b[5], b[6], b[7], b[8]];
                assert(a@ =~= b@);
                meta.expansion = a;
            },
            FieldTag::SaveFileVersion => {
                meta.save_file_version = self.read_i32_le()?;
            },
            FieldTag::Project => {
                meta.project = self.read_u32_le()?;
            },
            FieldTag::LicenseeVersion => {
                meta.licensee_version = self.read_string_of_len(1)?;
            },
            FieldTag::Version => {
                let v = self.read_u32_le()?;
                if !*version_seen {
                    meta.version = v;
                } else {
                    meta.version_two = v;
                }
                *version_seen = true;
            },
            FieldTag::Uid => {
                meta.guid = self.read_guid()?;
            },
            _ => {},
        }
        Ok(())
    }

    /// Reads the fields of the record, in whatever order they come.
    pub fn parse_metadata(&mut self) -> (r: Result<(), SaveError>)
        ensures
            final(self).data == old(self).data,
            r is Err ==> final(self).metadata == old(self).metadata,
            match metadata_of(old(self).data@) {
                Ok(m) => r is Ok && final(self).metadata@ == m,
                Err(e) => r is Err && r->Err_0@ == e,
            },
    {
        let ghost d = self.data@;
        let mut meta = BWSaveGameMetadata::default();
        let mut version_seen = false;
        let eof_offset = self.data.len();
        self.seek_from_start(RECORD_PREFIX_LEN);
        while eof_offset > 0 && self.pos < eof_offset - 1
            invariant
                self.data == old(self).data,
                self.metadata == old(self).metadata,
                self.data@ == d,
                eof_offset == d.len(),
                self.wf(),
                metadata_of(d) == parse_fields(d, self.pos as int, meta@, version_seen),
            decreases d.len() - self.pos,
        {
            let ghost p = self.pos as int;
            let name = self.read_name_string()?;
            proof {
                lemma_nul_end_bounds(d, skipped(d, p, 1));
            }
            let tag = match Self::field_tag(name.as_str()) {
                Some(t) => t,
                None => return Err(SaveError::UnknownField(name)),
            };
            proof {
                lemma_field_step_advances(d, tag, self.pos as int, meta@, version_seen);
            }
            self.read_field(tag, &mut meta, &mut version_seen)?;
        }
        self.metadata = meta;
        Ok(())
    }
}

} // verus!
