//! From a captured record to the score that is sent, or to the reason why
//! none is.

use crate::configuration::{whitelist_allows, Configuration};
use crate::error::ScoreError;
use crate::takure::CardSession;
use crate::text::{begins_with, decimal_string, decimal_text};
use crate::types::game::{decoded_result, Note, PlayData3Data, PlayData3DataView, PlayerData2Data,
    PlayerData2DataView};
use crate::types::tachi::{difficulty_of, flare_of, lamp_of, meta_for, playtype_of, Difficulty,
    Flare, HitMeta, Import, ImportMeta, ImportScore, ImportScoreView, ImportView, Judgements,
    Optional, Playtype, TachiLamp};
use vstd::prelude::*;
use vstd::string::*;

verus! {

/// The play-style code of versus play.
pub const VERSUS: u8 = 2;

/// A record of a play as the host saved it, in the shape of its generation.
#[derive(Debug, Clone)]
pub enum RawScoreRecord {
    /// The oldest shape: an array of stage entries; the time of the play is
    /// the one that the entry gives, and versus play is not sent.
    Legacy(PlayerData2Data),
    /// An array of stage entries whose end times cannot be relied on.
    NoteArrayV2(PlayerData2Data),
    /// One result, embedded as an untyped value.
    ResultBlobV3(PlayData3Data),
}

/// What a `RawScoreRecord` holds.
pub enum RawScoreRecordView {
    Legacy(PlayerData2DataView),
    NoteArrayV2(PlayerData2DataView),
    ResultBlobV3(PlayData3DataView),
}

impl View for RawScoreRecord {
    type V = RawScoreRecordView;

    open spec fn view(&self) -> RawScoreRecordView {
        match self {
            RawScoreRecord::Legacy(data) => RawScoreRecordView::Legacy(data@),
            RawScoreRecord::NoteArrayV2(data) => RawScoreRecordView::NoteArrayV2(data@),
            RawScoreRecord::ResultBlobV3(data) => RawScoreRecordView::ResultBlobV3(data@),
        }
    }
}

impl RawScoreRecordView {
    /// `true` where the record says that the credit ended in a game over. A
    /// result-blob record has no such flag.
    pub open spec fn is_game_over(self) -> bool {
        match self {
            RawScoreRecordView::Legacy(data) => data.isgameover,
            RawScoreRecordView::NoteArrayV2(data) => data.isgameover,
            RawScoreRecordView::ResultBlobV3(_) => false,
        }
    }

    /// The reference id of the player.
    pub open spec fn ref_id(self) -> Seq<char> {
        match self {
            RawScoreRecordView::Legacy(data) => data.ref_id,
            RawScoreRecordView::NoteArrayV2(data) => data.ref_id,
            RawScoreRecordView::ResultBlobV3(data) => data.ref_id,
        }
    }
}

/// Why a record was not sent though nothing was wrong with it.
#[derive(Debug, Clone, Copy, PartialEq, Eq, Structural)]
pub enum SkipReason {
    /// The module is switched off.
    Disabled,
    /// No card has been identified.
    CardUnknown,
    /// The card is not on the whitelist.
    CardNotWhitelisted,
    /// The stage was played in versus style.
    Versus,
    /// The credit ended in a game over.
    GameOver,
    /// The player was a guest.
    Guest,
    /// No entry of the record tells of a stage.
    NoStage,
}

/// What is to be done with a record.
#[derive(Debug, Clone)]
pub enum Submission {
    /// Send this import to the scoring service.
    Send(Import),
    /// Send nothing.
    Skip(SkipReason),
}

/// What a `Submission` holds.
pub enum SubmissionView {
    Send(ImportView),
    Skip(SkipReason),
}

impl View for Submission {
    type V = SubmissionView;

    open spec fn view(&self) -> SubmissionView {
        match self {
            Submission::Send(import) => SubmissionView::Send(import@),
            Submission::Skip(reason) => SubmissionView::Skip(*reason),
        }
    }
}

/// What the outcome of handling a record holds.
pub open spec fn outcome_view(outcome: Result<Submission, ScoreError>) -> Result<
    SubmissionView,
    ScoreError,
> {
    match outcome {
        Ok(submission) => Ok(submission@),
        Err(error) => Err(error),
    }
}

/// What the three shapes of record say of one stage, side by side.
#[derive(Debug, Clone, Copy)]
pub struct StageRecord {
    pub stagenum: u8,
    pub mcode: u32,
    pub chart: u8,
    pub clearkind: u8,
    pub score: u32,
    pub ex_score: u32,
    pub maxcombo: u32,
    pub fastcount: u32,
    pub slowcount: u32,
    pub judgements: Judgements,
    /// When the stage ended; a result blob does not say.
    pub endtime: Option<u128>,
    pub playstyle: u8,
    /// The code of the flare rank; a stage entry has none.
    pub bonus: Option<u8>,
}

/// The stage that an entry of a note array tells of.
pub open spec fn stage_of_note(note: Note) -> StageRecord {
    StageRecord {
        stagenum: note.stagenum,
        mcode: note.mcode,
        chart: note.notetype,
        clearkind: note.clearkind,
        score: note.score,
        ex_score: note.ex_score,
        maxcombo: note.maxcombo,
        fastcount: note.fastcount,
        slowcount: note.slowcount,
        judgements: Judgements {
            marvelous: note.judge_marvelous,
            perfect: note.judge_perfect,
            great: note.judge_great,
            good: note.judge_good,
            miss: note.judge_miss,
            ok: note.judge_ok,
        },
        endtime: Some(note.endtime),
        playstyle: note.playstyle,
        bonus: None,
    }
}

/// The stage that a decoded result tells of.
pub open spec fn stage_of_result(result: crate::types::game::Result) -> StageRecord {
    StageRecord {
        stagenum: result.stagenum,
        mcode: result.mcode,
        chart: result.difficulty,
        clearkind: result.clearkind,
        score: result.score,
        ex_score: result.ex_score,
        maxcombo: result.maxcombo,
        fastcount: result.fastcount,
        slowcount: result.slowcount,
        judgements: Judgements {
            marvelous: result.judge_marv,
            perfect: result.judge_perf,
            great: result.judge_great,
            good: result.judge_good,
            miss: result.judge_miss,
            ok: result.judge_ok,
        },
        endtime: None,
        playstyle: result.style,
        bonus: Some(result.flare_force),
    }
}

impl StageRecord {
    /// Reads a stage out of an entry of a note array.
    pub fn from_note(note: &Note) -> (stage: Self)
        ensures
            stage == stage_of_note(*note),
    {
        StageRecord {
            stagenum: note.stagenum,
            mcode: note.mcode,
            chart: note.notetype,
            clearkind: note.clearkind,
            score: note.score,
            ex_score: note.ex_score,
            maxcombo: note.maxcombo,
            fastcount: note.fastcount,
            slowcount: note.slowcount,
            judgements: Judgements {
                marvelous: note.judge_marvelous,
                perfect: note.judge_perfect,
                great: note.judge_great,
                good: note.judge_good,
                miss: note.judge_miss,
                ok: note.judge_ok,
            },
            endtime: Some(note.endtime),
            playstyle: note.playstyle,
            bonus: None,
        }
    }

    /// Reads a stage out of a decoded result.
    pub fn from_result(result: &crate::types::game::Result) -> (stage: Self)
        ensures
            stage == stage_of_result(*result),
    {
        StageRecord {
            stagenum: result.stagenum,
            mcode: result.mcode,
            chart: result.difficulty,
            clearkind: result.clearkind,
            score: result.score,
            ex_score: result.ex_score,
            maxcombo: result.maxcombo,
            fastcount: result.fastcount,
            slowcount: result.slowcount,
            judgements: Judgements {
                marvelous: result.judge_marv,
                perfect: result.judge_perf,
                great: result.judge_great,
                good: result.judge_good,
                miss: result.judge_miss,
                ok: result.judge_ok,
            },
            endtime: None,
            playstyle: result.style,
            bonus: Some(result.flare_force),
        }
    }
}

/// The flare rank of a stage: the one that its bonus code stands for, and
/// none where it has no code. Code 0 stands for no rank.
pub open spec fn bonus_of(bonus: Option<u8>) -> Optional {
    match bonus {
        Some(code) => Optional { flare: flare_of(code) },
        None => Optional { flare: Flare::Unranked },
    }
}

/// The score entry that a stage becomes, once its difficulty is known.
pub open spec fn score_of(stage: StageRecord, difficulty: Difficulty, time: u128)
    -> ImportScoreView {
    ImportScoreView {
        score: stage.score,
        lamp: lamp_of(stage.clearkind),
        match_type: "inGameID"@,
        identifier: decimal_text(stage.mcode as nat),
        difficulty,
        time_achieved: time,
        judgements: stage.judgements,
        hit_meta: HitMeta {
            fast: stage.fastcount,
            slow: stage.slowcount,
            max_combo: stage.maxcombo,
            ex_score: stage.ex_score,
        },
        optional: bonus_of(stage.bonus),
    }
}

/// The import that a stage becomes when it was achieved at `time`: exactly
/// one score. A difficulty code or a play-style code that stands for nothing
/// is an error, the difficulty first.
pub open spec fn import_of(stage: StageRecord, time: u128) -> Result<ImportView, ScoreError> {
    match difficulty_of(stage.chart) {
        None => Err(ScoreError::Difficulty(stage.chart)),
        Some(difficulty) => match playtype_of(stage.playstyle) {
            None => Err(ScoreError::PlayStyle(stage.playstyle)),
            Some(play_type) => Ok(
                ImportView {
                    meta: meta_for(play_type),
                    scores: seq![score_of(stage, difficulty, time)],
                },
            ),
        },
    }
}

/// Builds the import for one stage.
pub fn build_import(stage: &StageRecord, time: u128) -> (built: Result<Import, ScoreError>)
    ensures
        match built {
            Ok(import) => import_of(*stage, time) == Ok::<ImportView, ScoreError>(import@),
            Err(error) => import_of(*stage, time) == Err::<ImportView, ScoreError>(error),
        },
{
    let difficulty: Difficulty = match Difficulty::from_code(stage.chart) {
        Ok(difficulty) => difficulty,
        Err(error) => {
            return Err(error);
        },
    };
    let play_type: Playtype = match Playtype::from_code(stage.playstyle) {
        Ok(play_type) => play_type,
        Err(error) => {
            return Err(error);
        },
    };
    let optional: Optional = match stage.bonus {
        Some(code) => Optional { flare: Flare::from(code) },
        None => Optional::default(),
    };
    let score = ImportScore {
        score: stage.score,
        lamp: TachiLamp::from(stage.clearkind),
        match_type: "inGameID".to_owned(),
        identifier: decimal_string(stage.mcode),
        difficulty,
        time_achieved: time,
        judgements: stage.judgements,
        hit_meta: HitMeta {
            fast: stage.fastcount,
            slow: stage.slowcount,
            max_combo: stage.maxcombo,
            ex_score: stage.ex_score,
        },
        optional,
    };
    Ok(Import::single(ImportMeta::new(play_type), score))
}

/// `true` exactly when the entry at `at` is the one that a note array is
/// read by: it tells of a stage (its stage number is not 0), no entry has a
/// higher stage number, and every entry after it has a lower one.
pub open spec fn is_highest_stage(notes: Seq<Note>, at: int) -> bool {
    &&& 0 <= at < notes.len()
    &&& notes[at].stagenum != 0
    &&& forall|k: int| 0 <= k < notes.len() ==> (#[trigger] notes[k]).stagenum <= notes[at].stagenum
    &&& forall|k: int| at < k < notes.len() ==> (#[trigger] notes[k]).stagenum < notes[at].stagenum
}

/// The place of the entry that a note array is read by, if it has one.
pub open spec fn highest_stage(notes: Seq<Note>) -> Option<int> {
    if exists|at: int| is_highest_stage(notes, at) {
        Some(choose|at: int| is_highest_stage(notes, at))
    } else {
        None
    }
}

/// A note array is read by one entry at most.
pub proof fn lemma_highest_stage_is_unique(notes: Seq<Note>, first: int, second: int)
    requires
        is_highest_stage(notes, first),
        is_highest_stage(notes, second),
    ensures
        first == second,
{
    if first < second {
        assert(notes[second].stagenum < notes[first].stagenum);
    } else if second < first {
        assert(notes[first].stagenum < notes[second].stagenum);
    }
}

/// A note array is read by an entry exactly when some entry tells of a stage.
pub proof fn lemma_highest_stage_exists(notes: Seq<Note>)
    ensures
        highest_stage(notes) is None <==> forall|k: int|
            0 <= k < notes.len() ==> (#[trigger] notes[k]).stagenum == 0,
        highest_stage(notes) matches Some(at) ==> is_highest_stage(notes, at),
    decreases notes.len(),
{
    if notes.len() > 0 {
        let front = notes.drop_last();
        let last = notes.len() - 1;
        lemma_highest_stage_exists(front);
        assert forall|k: int| 0 <= k < front.len() implies front[k] == notes[k] by {}
        if notes[last].stagenum != 0 && (highest_stage(front) is None || notes[highest_stage(
            front,
        )->0].stagenum <= notes[last].stagenum) {
            assert forall|k: int| 0 <= k < notes.len() implies (#[trigger] notes[k]).stagenum
                <= notes[last].stagenum by {
                if k < last {
                    assert(front[k] == notes[k]);
                    if highest_stage(front) is Some {
                        assert(front[k].stagenum <= front[highest_stage(front)->0].stagenum);
                    }
                }
            }
            assert(is_highest_stage(notes, last));
        } else if highest_stage(front) is Some {
            let at = highest_stage(front)->0;
            assert forall|k: int| 0 <= k < notes.len() implies (#[trigger] notes[k]).stagenum
                <= notes[at].stagenum by {
                if k < last {
                    assert(front[k] == notes[k]);
                }
            }
            assert forall|k: int| at < k < notes.len() implies (#[trigger] notes[k]).stagenum
                < notes[at].stagenum by {
                if k < last {
                    assert(front[k] == notes[k]);
                }
            }
            assert(is_highest_stage(notes, at));
        } else {
            assert forall|k: int| 0 <= k < notes.len() implies (#[trigger] notes[k]).stagenum
                == 0 by {
                if k < last {
                    assert(front[k] == notes[k]);
                }
            }
        }
    }
}

/// Finds the entry that a note array is read by: among the entries with the
/// highest stage number other than 0, the last.
pub fn select_stage(notes: &Vec<Note>) -> (pick: Option<usize>)
    ensures
        highest_stage(notes@) == match pick {
            Some(at) => Some(at as int),
            None => None,
        },
        pick matches Some(at) ==> is_highest_stage(notes@, at as int),
        pick is None <==> forall|k: int|
            0 <= k < notes@.len() ==> (#[trigger] notes@[k]).stagenum == 0,
{
    let mut pick: Option<usize> = None;
    let mut at: usize = 0;
    while at < notes.len()
        invariant
            at <= notes.len(),
            pick is None ==> forall|k: int| 0 <= k < at ==> (#[trigger] notes@[k]).stagenum == 0,
            pick matches Some(best) ==> {
                &&& best < at
                &&& notes@[best as int].stagenum != 0
                &&& forall|k: int|
                    0 <= k < at ==> (#[trigger] notes@[k]).stagenum <= notes@[best as int].stagenum
                &&& forall|k: int|
                    best < k < at ==> (#[trigger] notes@[k]).stagenum < notes@[best as int].stagenum
            },
        decreases notes.len() - at,
    {
        let stage: u8 = notes[at].stagenum;
        if stage != 0 {
            let replace: bool = match pick {
                Some(best) => notes[best].stagenum <= stage,
                None => true,
            };
            if replace {
                pick = Some(at);
            }
        }
        at = at + 1;
    }
    proof {
        lemma_highest_stage_exists(notes@);
        if let Some(best) = pick {
            assert(is_highest_stage(notes@, best as int));
            lemma_highest_stage_is_unique(notes@, best as int, highest_stage(notes@)->0);
        }
    }
    pick
}

/// `true` exactly when a reference id is that of a guest: it begins with
/// `X000`.
pub open spec fn is_guest(ref_id: Seq<char>) -> bool {
    "X000"@.is_prefix_of(ref_id)
}

/// What is sent for a built import.
pub open spec fn sent(built: Result<ImportView, ScoreError>) -> Result<SubmissionView, ScoreError> {
    match built {
        Ok(import) => Ok(SubmissionView::Send(import)),
        Err(error) => Err(error),
    }
}

/// What becomes of a record of the oldest shape. In this order: versus play
/// is not sent, nor a credit that ended in a game over, nor a guest's play,
/// nor a record without a stage. The score is that of the entry with the
/// highest stage number, achieved when that entry says it ended.
pub open spec fn legacy_outcome(data: PlayerData2DataView) -> Result<SubmissionView, ScoreError> {
    let pick = highest_stage(data.note);
    if pick is Some && data.note[pick->0].playstyle == VERSUS {
        Ok(SubmissionView::Skip(SkipReason::Versus))
    } else if data.isgameover {
        Ok(SubmissionView::Skip(SkipReason::GameOver))
    } else if is_guest(data.ref_id) {
        Ok(SubmissionView::Skip(SkipReason::Guest))
    } else if pick is None {
        Ok(SubmissionView::Skip(SkipReason::NoStage))
    } else {
        sent(import_of(stage_of_note(data.note[pick->0]), data.note[pick->0].endtime))
    }
}

/// What becomes of a note-array record that was captured at `time`. In this
/// order: without the time nothing can be built; a credit that ended in a
/// game over is not sent, nor a guest's play, nor a record without a stage.
/// The score is that of the entry with the highest stage number, achieved at
/// the time of capture.
pub open spec fn note_array_outcome(data: PlayerData2DataView, time: Option<u128>) -> Result<
    SubmissionView,
    ScoreError,
> {
    let pick = highest_stage(data.note);
    if time is None {
        Err(ScoreError::Clock)
    } else if data.isgameover {
        Ok(SubmissionView::Skip(SkipReason::GameOver))
    } else if is_guest(data.ref_id) {
        Ok(SubmissionView::Skip(SkipReason::Guest))
    } else if pick is None {
        Ok(SubmissionView::Skip(SkipReason::NoStage))
    } else {
        sent(import_of(stage_of_note(data.note[pick->0]), time->0))
    }
}

/// What becomes of a result-blob record that was captured at `time`, given
/// what its embedded result decodes to. In this order: without the time
/// nothing can be built; a guest's play is not sent; a result that does not
/// decode is an error. The score is achieved at the time of capture.
pub open spec fn result_blob_outcome(
    ref_id: Seq<char>,
    decoded: Option<crate::types::game::Result>,
    time: Option<u128>,
) -> Result<SubmissionView, ScoreError> {
    if time is None {
        Err(ScoreError::Clock)
    } else if is_guest(ref_id) {
        Ok(SubmissionView::Skip(SkipReason::Guest))
    } else if decoded is None {
        Err(ScoreError::Result)
    } else {
        sent(import_of(stage_of_result(decoded->0), time->0))
    }
}

/// What becomes of a record that was captured at `time`.
pub open spec fn normalized(record: RawScoreRecordView, time: Option<u128>) -> Result<
    SubmissionView,
    ScoreError,
> {
    match record {
        RawScoreRecordView::Legacy(data) => legacy_outcome(data),
        RawScoreRecordView::NoteArrayV2(data) => note_array_outcome(data, time),
        RawScoreRecordView::ResultBlobV3(data) => result_blob_outcome(
            data.ref_id,
            decoded_result(data.result),
            time,
        ),
    }
}

/// What becomes of a record once the settings and the session have had
/// their say. In this order: nothing is sent while the module is switched
/// off, nor before a card is identified, nor for a card that the whitelist
/// keeps out; then the record decides.
pub open spec fn gated(
    enabled: bool,
    whitelist: Seq<Seq<char>>,
    card: Option<Seq<char>>,
    record: RawScoreRecordView,
    time: Option<u128>,
) -> Result<SubmissionView, ScoreError> {
    if !enabled {
        Ok(SubmissionView::Skip(SkipReason::Disabled))
    } else if card is None {
        Ok(SubmissionView::Skip(SkipReason::CardUnknown))
    } else if !whitelist_allows(whitelist, card->0) {
        Ok(SubmissionView::Skip(SkipReason::CardNotWhitelisted))
    } else {
        normalized(record, time)
    }
}

/// Wraps a built import for sending.
fn send(built: Result<Import, ScoreError>) -> (outcome: Result<Submission, ScoreError>)
    ensures
        outcome_view(outcome) == sent(
            match built {
                Ok(import) => Ok(import@),
                Err(error) => Err(error),
            },
        ),
{
    match built {
        Ok(import) => Ok(Submission::Send(import)),
        Err(error) => Err(error),
    }
}

/// Handles a record of the oldest shape.
pub fn normalize_legacy(data: &PlayerData2Data) -> (outcome: Result<Submission, ScoreError>)
    ensures
        outcome_view(outcome) == legacy_outcome(data@),
{
    let pick: Option<usize> = select_stage(&data.note);
    if let Some(at) = pick {
        if data.note[at].playstyle == VERSUS {
            return Ok(Submission::Skip(SkipReason::Versus));
        }
    }
    if data.isgameover {
        return Ok(Submission::Skip(SkipReason::GameOver));
    }
    if begins_with(data.ref_id.as_str(), "X000") {
        return Ok(Submission::Skip(SkipReason::Guest));
    }
    match pick {
        None => Ok(Submission::Skip(SkipReason::NoStage)),
        Some(at) => {
            let stage = StageRecord::from_note(&data.note[at]);
            send(build_import(&stage, data.note[at].endtime))
        },
    }
}

/// Handles a note-array record that was captured at `time`.
pub fn normalize_note_array(data: &PlayerData2Data, time: Option<u128>) -> (outcome: Result<
    Submission,
    ScoreError,
>)
    ensures
        outcome_view(outcome) == note_array_outcome(data@, time),
{
    let captured: u128 = match time {
        Some(captured) => captured,
        None => {
            return Err(ScoreError::Clock);
        },
    };
    if data.isgameover {
        return Ok(Submission::Skip(SkipReason::GameOver));
    }
    if begins_with(data.ref_id.as_str(), "X000") {
        return Ok(Submission::Skip(SkipReason::Guest));
    }
    match select_stage(&data.note) {
        None => Ok(Submission::Skip(SkipReason::NoStage)),
        Some(at) => {
            let stage = StageRecord::from_note(&data.note[at]);
            send(build_import(&stage, captured))
        },
    }
}

/// Handles a result-blob record that was captured at `time`, given what its
/// embedded result decoded to.
pub fn normalize_result_blob(
    ref_id: &str,
    decoded: Option<crate::types::game::Result>,
    time: Option<u128>,
) -> (outcome: Result<Submission, ScoreError>)
    ensures
        outcome_view(outcome) == result_blob_outcome(ref_id@, decoded, time),
{
    let captured: u128 = match time {
        Some(captured) => captured,
        None => {
            return Err(ScoreError::Clock);
        },
    };
    if begins_with(ref_id, "X000") {
        return Ok(Submission::Skip(SkipReason::Guest));
    }
    match decoded {
        None => Err(ScoreError::Result),
        Some(result) => {
            let stage = StageRecord::from_result(&result);
            send(build_import(&stage, captured))
        },
    }
}

/// Handles a record that was captured at `time`.
pub fn normalize(record: &RawScoreRecord, time: Option<u128>) -> (outcome: Result<
    Submission,
    ScoreError,
>)
    ensures
        outcome_view(outcome) == normalized(record@, time),
{
    match record {
        RawScoreRecord::Legacy(data) => normalize_legacy(data),
        RawScoreRecord::NoteArrayV2(data) => normalize_note_array(data, time),
        RawScoreRecord::ResultBlobV3(data) => normalize_result_blob(
            data.ref_id.as_str(),
            crate::types::game::Result::decode(&data.result),
            time,
        ),
    }
}

/// Decides what to do with a record that was captured at `time` while
/// `card` was the current card.
pub fn evaluate(
    configuration: &Configuration,
    card: Option<&str>,
    record: &RawScoreRecord,
    time: Option<u128>,
) -> (outcome: Result<Submission, ScoreError>)
    ensures
        outcome_view(outcome) == gated(
            configuration.general.enable,
            configuration.cards@,
            match card {
                Some(id) => Some(id@),
                None => None,
            },
            record@,
            time,
        ),
{
    if !configuration.general.enable {
        return Ok(Submission::Skip(SkipReason::Disabled));
    }
    let id: &str = match card {
        Some(id) => id,
        None => {
            return Ok(Submission::Skip(SkipReason::CardUnknown));
        },
    };
    if !configuration.cards.allows(id) {
        return Ok(Submission::Skip(SkipReason::CardNotWhitelisted));
    }
    normalize(record, time)
}

/// `SystemTime::elapsed` on `UNIX_EPOCH`: the time since the epoch by the
/// system clock, or nothing where the clock stands before the epoch.
/// Nothing is known of the time that comes back.
#[verifier::external_body]
fn since_epoch() -> (elapsed: Option<core::time::Duration>) {
    match std::time::UNIX_EPOCH.elapsed() {
        Ok(elapsed) => Some(elapsed),
        Err(_) => None,
    }
}

/// `Duration::as_millis`: the duration in whole milliseconds.
pub assume_specification[ core::time::Duration::as_millis ](
    duration: &core::time::Duration,
) -> (millis: u128)
;

/// The time by the system clock, in milliseconds since the epoch, or nothing
/// where the clock stands before the epoch. The clock alone decides what
/// comes back, so nothing is promised of it: `evaluate` takes the time as an
/// argument and says what becomes of a record for every value of it.
fn capture_time() -> (time: Option<u128>) {
    match since_epoch() {
        Some(elapsed) => Some(elapsed.as_millis()),
        None => None,
    }
}

/// Decides what to do with a record that has just been captured: as
/// `evaluate` does for the session's current card and the time that the
/// system clock gives, whatever that time is.
pub fn process_scores(
    scores: &RawScoreRecord,
    configuration: &Configuration,
    session: &CardSession,
) -> (outcome: Result<Submission, ScoreError>)
    ensures
        exists|time: Option<u128>|
            outcome_view(outcome) == #[trigger] gated(
                configuration.general.enable,
                configuration.cards@,
                session@,
                scores@,
                time,
            ),
{
    let time: Option<u128> = capture_time();
    evaluate(configuration, session.current(), scores, time)
}

/// `true` exactly when the outcome is that an import is sent.
pub open spec fn is_sent(outcome: Result<SubmissionView, ScoreError>) -> bool {
    outcome matches Ok(SubmissionView::Send(_))
}

/// A record of a credit that ended in a game over is never sent, whatever
/// else it holds and whatever the settings, the card and the time are.
pub proof fn law_game_over_is_never_sent(
    enabled: bool,
    whitelist: Seq<Seq<char>>,
    card: Option<Seq<char>>,
    record: RawScoreRecordView,
    time: Option<u128>,
)
    requires
        record.is_game_over(),
    ensures
        !is_sent(gated(enabled, whitelist, card, record, time)),
{
}

/// A record of a guest's play is never sent, whatever else it holds and
/// whatever the settings, the card and the time are.
pub proof fn law_guest_is_never_sent(
    enabled: bool,
    whitelist: Seq<Seq<char>>,
    card: Option<Seq<char>>,
    record: RawScoreRecordView,
    time: Option<u128>,
)
    requires
        is_guest(record.ref_id()),
    ensures
        !is_sent(gated(enabled, whitelist, card, record, time)),
{
}

/// A note array in which no entry tells of a stage is never sent.
pub proof fn law_no_stage_is_never_sent(
    enabled: bool,
    whitelist: Seq<Seq<char>>,
    card: Option<Seq<char>>,
    record: RawScoreRecordView,
    time: Option<u128>,
)
    requires
        match record {
            RawScoreRecordView::Legacy(data) => forall|k: int|
                0 <= k < data.note.len() ==> (#[trigger] data.note[k]).stagenum == 0,
            RawScoreRecordView::NoteArrayV2(data) => forall|k: int|
                0 <= k < data.note.len() ==> (#[trigger] data.note[k]).stagenum == 0,
            RawScoreRecordView::ResultBlobV3(_) => false,
        },
    ensures
        !is_sent(gated(enabled, whitelist, card, record, time)),
{
    match record {
        RawScoreRecordView::Legacy(data) => lemma_highest_stage_exists(data.note),
        RawScoreRecordView::NoteArrayV2(data) => lemma_highest_stage_exists(data.note),
        RawScoreRecordView::ResultBlobV3(_) => {},
    }
}

/// Nothing is sent unless the module is switched on and the current card is
/// known and let through by the whitelist.
pub proof fn law_sent_only_for_an_allowed_card(
    enabled: bool,
    whitelist: Seq<Seq<char>>,
    card: Option<Seq<char>>,
    record: RawScoreRecordView,
    time: Option<u128>,
)
    requires
        is_sent(gated(enabled, whitelist, card, record, time)),
    ensures
        enabled,
        card is Some,
        whitelist_allows(whitelist, card->0),
{
}

/// Versus play is never sent from a record of the oldest shape.
pub proof fn law_legacy_versus_is_never_sent(
    enabled: bool,
    whitelist: Seq<Seq<char>>,
    card: Option<Seq<char>>,
    data: PlayerData2DataView,
    time: Option<u128>,
)
    requires
        highest_stage(data.note) matches Some(at) && data.note[at].playstyle == VERSUS,
    ensures
        !is_sent(gated(enabled, whitelist, card, RawScoreRecordView::Legacy(data), time)),
{
}

/// Outside the oldest shape versus play is no reason to skip: the stage is
/// built into an import like any other, as singles play.
pub proof fn law_versus_is_singles_elsewhere(stage: StageRecord, time: u128)
    requires
        stage.playstyle == VERSUS,
        difficulty_of(stage.chart) is Some,
    ensures
        import_of(stage, time) matches Ok(import) && import.meta.play_type == Playtype::SP,
{
}

/// Whatever is sent carries exactly one score. For a note array it is the
/// score of the entry that the array is read by.
pub proof fn law_one_score_is_sent(
    enabled: bool,
    whitelist: Seq<Seq<char>>,
    card: Option<Seq<char>>,
    record: RawScoreRecordView,
    time: Option<u128>,
)
    requires
        is_sent(gated(enabled, whitelist, card, record, time)),
    ensures
        gated(enabled, whitelist, card, record, time) matches Ok(SubmissionView::Send(import))
            && import.scores.len() == 1 && match record {
            RawScoreRecordView::Legacy(data) => highest_stage(data.note) matches Some(at)
                && is_highest_stage(data.note, at) && import.scores[0].score
                == data.note[at].score && import.scores[0].time_achieved == data.note[at].endtime,
            RawScoreRecordView::NoteArrayV2(data) => highest_stage(data.note) matches Some(at)
                && is_highest_stage(data.note, at) && import.scores[0].score
                == data.note[at].score && Some(import.scores[0].time_achieved) == time,
            RawScoreRecordView::ResultBlobV3(data) => decoded_result(data.result) matches Some(
                result,
            ) && import.scores[0].score == result.score && Some(import.scores[0].time_achieved)
                == time,
        },
{
    match record {
        RawScoreRecordView::Legacy(data) => lemma_highest_stage_exists(data.note),
        RawScoreRecordView::NoteArrayV2(data) => lemma_highest_stage_exists(data.note),
        RawScoreRecordView::ResultBlobV3(_) => {},
    }
}

} // verus!
