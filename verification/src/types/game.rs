//! The records that the host saves, one shape for each generation.

use crate::json::{field_u128, field_u32, field_u8, json_field_u128, json_field_u32, json_field_u8};
use vstd::prelude::*;
use vstd::string::*;

verus! {

/// One stage entry of a note-array record.
#[derive(Debug, Clone, Copy, PartialEq, Eq, Structural)]
pub struct Note {
    pub stagenum: u8,
    pub mcode: u32,
    pub notetype: u8,
    pub clearkind: u8,
    pub score: u32,
    pub ex_score: u32,
    pub maxcombo: u32,
    pub fastcount: u32,
    pub slowcount: u32,
    pub judge_marvelous: u32,
    pub judge_perfect: u32,
    pub judge_great: u32,
    pub judge_good: u32,
    pub judge_miss: u32,
    pub judge_ok: u32,
    pub endtime: u128,
    pub playstyle: u8,
}

/// The result that a result-blob record embeds, once decoded.
#[derive(Debug, Clone, Copy, PartialEq, Eq, Structural)]
pub struct Result {
    pub stagenum: u8,
    pub mcode: u32,
    pub difficulty: u8,
    pub clearkind: u8,
    pub score: u32,
    pub ex_score: u32,
    pub maxcombo: u32,
    pub fastcount: u32,
    pub slowcount: u32,
    pub judge_marv: u32,
    pub judge_perf: u32,
    pub judge_great: u32,
    pub judge_good: u32,
    pub judge_miss: u32,
    pub judge_ok: u32,
    pub playtime: u128,
    pub style: u8,
    pub flare_force: u8,
}

/// The result that a JSON value holds: every field of `Result` stored under
/// its key as an unsigned number that fits the field. Members under other
/// keys are not looked at.
pub open spec fn decoded_result(value: serde_json::Value) -> Option<Result> {
    if json_field_u8(value, "stagenum"@) is Some && json_field_u32(value, "mcode"@) is Some
        && json_field_u8(value, "difficulty"@) is Some && json_field_u8(value, "clearkind"@)
        is Some && json_field_u32(value, "score"@) is Some && json_field_u32(value, "exscore"@)
        is Some && json_field_u32(value, "maxcombo"@) is Some && json_field_u32(
        value,
        "fastcount"@,
    ) is Some && json_field_u32(value, "slowcount"@) is Some && json_field_u32(
        value,
        "judge_marv"@,
    ) is Some && json_field_u32(value, "judge_perf"@) is Some && json_field_u32(
        value,
        "judge_great"@,
    ) is Some && json_field_u32(value, "judge_good"@) is Some && json_field_u32(
        value,
        "judge_miss"@,
    ) is Some && json_field_u32(value, "judge_ok"@) is Some && json_field_u128(
        value,
        "playtime"@,
    ) is Some && json_field_u8(value, "style"@) is Some && json_field_u8(value, "flare_force"@)
        is Some {
        Some(
            Result {
                stagenum: json_field_u8(value, "stagenum"@)->0,
                mcode: json_field_u32(value, "mcode"@)->0,
                difficulty: json_field_u8(value, "difficulty"@)->0,
                clearkind: json_field_u8(value, "clearkind"@)->0,
                score: json_field_u32(value, "score"@)->0,
                ex_score: json_field_u32(value, "exscore"@)->0,
                maxcombo: json_field_u32(value, "maxcombo"@)->0,
                fastcount: json_field_u32(value, "fastcount"@)->0,
                slowcount: json_field_u32(value, "slowcount"@)->0,
                judge_marv: json_field_u32(value, "judge_marv"@)->0,
                judge_perf: json_field_u32(value, "judge_perf"@)->0,
                judge_great: json_field_u32(value, "judge_great"@)->0,
                judge_good: json_field_u32(value, "judge_good"@)->0,
                judge_miss: json_field_u32(value, "judge_miss"@)->0,
                judge_ok: json_field_u32(value, "judge_ok"@)->0,
                playtime: json_field_u128(value, "playtime"@)->0,
                style: json_field_u8(value, "style"@)->0,
                flare_force: json_field_u8(value, "flare_force"@)->0,
            },
        )
    } else {
        None
    }
}

impl Result {
    /// Decodes the result that a record embeds as an untyped JSON value.
    pub fn decode(value: &serde_json::Value) -> (decoded: Option<Result>)
        ensures
            decoded == decoded_result(*value),
    {
        let stagenum: u8 = field_u8(value, "stagenum")?;
        let mcode: u32 = field_u32(value, "mcode")?;
        let difficulty: u8 = field_u8(value, "difficulty")?;
        let clearkind: u8 = field_u8(value, "clearkind")?;
        let score: u32 = field_u32(value, "score")?;
        let ex_score: u32 = field_u32(value, "exscore")?;
        let maxcombo: u32 = field_u32(value, "maxcombo")?;
        let fastcount: u32 = field_u32(value, "fastcount")?;
        let slowcount: u32 = field_u32(value, "slowcount")?;
        let judge_marv: u32 = field_u32(value, "judge_marv")?;
        let judge_perf: u32 = field_u32(value, "judge_perf")?;
        let judge_great: u32 = field_u32(value, "judge_great")?;
        let judge_good: u32 = field_u32(value, "judge_good")?;
        let judge_miss: u32 = field_u32(value, "judge_miss")?;
        let judge_ok: u32 = field_u32(value, "judge_ok")?;
        let playtime: u128 = field_u128(value, "playtime")?;
        let style: u8 = field_u8(value, "style")?;
        let flare_force: u8 = field_u8(value, "flare_force")?;
        Some(
            Result {
                stagenum,
                mcode,
                difficulty,
                clearkind,
                score,
                ex_score,
                maxcombo,
                fastcount,
                slowcount,
                judge_marv,
                judge_perf,
                judge_great,
                judge_good,
                judge_miss,
                judge_ok,
                playtime,
                style,
                flare_force,
            },
        )
    }
}

/// What a note-array record says of one credit: who played, whether the
/// credit ended in a game over, and one entry for each stage.
#[derive(Debug, Clone)]
pub struct PlayerData2Data {
    pub mode: String,
    pub ref_id: String,
    pub isgameover: bool,
    pub note: Vec<Note>,
}

/// What a `PlayerData2Data` holds.
pub struct PlayerData2DataView {
    pub mode: Seq<char>,
    pub ref_id: Seq<char>,
    pub isgameover: bool,
    pub note: Seq<Note>,
}

impl View for PlayerData2Data {
    type V = PlayerData2DataView;

    open spec fn view(&self) -> PlayerData2DataView {
        PlayerData2DataView {
            mode: self.mode@,
            ref_id: self.ref_id@,
            isgameover: self.isgameover,
            note: self.note@,
        }
    }
}

/// The `playerdata_2` call of a note-array record.
#[derive(Debug, Clone)]
pub struct PlayerData2 {
    pub data: PlayerData2Data,
}

/// The calls of a note-array record.
#[derive(Debug, Clone)]
pub struct CallStruct2 {
    pub playerdata_2: PlayerData2,
}

/// A note-array record as the host saves it.
#[derive(Debug, Clone)]
pub struct Property2 {
    pub call: CallStruct2,
}

/// What a result-blob record says of one stage: who played, and the result
/// as an untyped JSON value.
#[derive(Debug, Clone)]
pub struct PlayData3Data {
    pub ref_id: String,
    pub savekind: u8,
    pub result: serde_json::Value,
}

/// What a `PlayData3Data` holds.
pub struct PlayData3DataView {
    pub ref_id: Seq<char>,
    pub savekind: u8,
    pub result: serde_json::Value,
}

impl View for PlayData3Data {
    type V = PlayData3DataView;

    open spec fn view(&self) -> PlayData3DataView {
        PlayData3DataView { ref_id: self.ref_id@, savekind: self.savekind, result: self.result }
    }
}

/// The `playdata_3` call of a result-blob record.
#[derive(Debug, Clone)]
pub struct PlayData3 {
    pub data: PlayData3Data,
}

/// The calls of a result-blob record.
#[derive(Debug, Clone)]
pub struct CallStruct3 {
    pub playdata_3: PlayData3,
}

/// A result-blob record as the host saves it.
#[derive(Debug, Clone)]
pub struct Property3 {
    pub call: CallStruct3,
}

} // verus!
