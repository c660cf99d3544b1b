//! The canonical score import, as the scoring service takes it.

use crate::error::ScoreError;
use vstd::prelude::*;
use vstd::string::*;

verus! {

/// Singles or doubles.
#[derive(Debug, Clone, Copy, PartialEq, Eq, Structural)]
pub enum Playtype {
    SP,
    DP,
}

/// The play type that a play-style code stands for, if it stands for one.
/// Code 2 is versus play, which is played on single charts.
pub open spec fn playtype_of(code: u8) -> Option<Playtype> {
    if code == 0 || code == 2 {
        Some(Playtype::SP)
    } else if code == 1 {
        Some(Playtype::DP)
    } else {
        None
    }
}

impl Playtype {
    /// Decodes a play-style code; a code that stands for nothing is an error.
    pub fn from_code(value: u8) -> (decoded: Result<Playtype, ScoreError>)
        ensures
            decoded == match playtype_of(value) {
                Some(playtype) => Ok::<Playtype, ScoreError>(playtype),
                None => Err::<Playtype, ScoreError>(ScoreError::PlayStyle(value)),
            },
    {
        match value {
            0 | 2 => Ok(Playtype::SP),
            1 => Ok(Playtype::DP),
            _ => Err(ScoreError::PlayStyle(value)),
        }
    }
}

/// The clear lamp of a play.
#[derive(Debug, Clone, Copy, PartialEq, Eq, Structural)]
pub enum TachiLamp {
    Failed,
    Assist,
    Clear,
    Life4,
    FullCombo,
    GreatFullCombo,
    PerfectFullCombo,
    MarvelousFullCombo,
}

/// The lamp that a clear-kind code stands for. A code outside the table is
/// read as a failed play.
pub open spec fn lamp_of(code: u8) -> TachiLamp {
    if code == 2 {
        TachiLamp::Assist
    } else if code == 3 {
        TachiLamp::Clear
    } else if code == 6 {
        TachiLamp::Life4
    } else if code == 7 {
        TachiLamp::FullCombo
    } else if code == 8 {
        TachiLamp::GreatFullCombo
    } else if code == 9 {
        TachiLamp::PerfectFullCombo
    } else if code == 10 {
        TachiLamp::MarvelousFullCombo
    } else {
        TachiLamp::Failed
    }
}

impl From<u8> for TachiLamp {
    fn from(value: u8) -> (lamp: Self) {
        match value {
            2 => TachiLamp::Assist,
            3 => TachiLamp::Clear,
            6 => TachiLamp::Life4,
            7 => TachiLamp::FullCombo,
            8 => TachiLamp::GreatFullCombo,
            9 => TachiLamp::PerfectFullCombo,
            10 => TachiLamp::MarvelousFullCombo,
            _ => TachiLamp::Failed,
        }
    }
}

impl vstd::std_specs::convert::FromSpecImpl<u8> for TachiLamp {
    open spec fn obeys_from_spec() -> bool {
        true
    }

    open spec fn from_spec(value: u8) -> Self {
        lamp_of(value)
    }
}

/// The difficulty of a chart.
#[derive(Debug, Clone, Copy, PartialEq, Eq, Structural)]
pub enum Difficulty {
    Beginner,
    Basic,
    Difficult,
    Expert,
    Challenge,
}

/// The difficulty that a chart code stands for, if it stands for one: the
/// codes 1 to 4 are the single charts, 5 to 8 the double charts.
pub open spec fn difficulty_of(code: u8) -> Option<Difficulty> {
    if code == 0 {
        Some(Difficulty::Beginner)
    } else if code == 1 || code == 5 {
        Some(Difficulty::Basic)
    } else if code == 2 || code == 6 {
        Some(Difficulty::Difficult)
    } else if code == 3 || code == 7 {
        Some(Difficulty::Expert)
    } else if code == 4 || code == 8 {
        Some(Difficulty::Challenge)
    } else {
        None
    }
}

impl Difficulty {
    /// Decodes a chart code; a code that stands for nothing is an error.
    pub fn from_code(value: u8) -> (decoded: Result<Difficulty, ScoreError>)
        ensures
            decoded == match difficulty_of(value) {
                Some(difficulty) => Ok::<Difficulty, ScoreError>(difficulty),
                None => Err::<Difficulty, ScoreError>(ScoreError::Difficulty(value)),
            },
    {
        match value {
            0 => Ok(Difficulty::Beginner),
            1 | 5 => Ok(Difficulty::Basic),
            2 | 6 => Ok(Difficulty::Difficult),
            3 | 7 => Ok(Difficulty::Expert),
            4 | 8 => Ok(Difficulty::Challenge),
            _ => Err(ScoreError::Difficulty(value)),
        }
    }
}

/// The flare rank of a play; `Unranked` where the play earned none.
#[derive(Debug, Clone, Copy, PartialEq, Eq, Structural)]
pub enum Flare {
    Unranked,
    I,
    II,
    III,
    IV,
    V,
    VI,
    VII,
    VIII,
    IX,
}

/// The flare rank that a code stands for. A code outside the table is read
/// as no rank.
pub open spec fn flare_of(code: u8) -> Flare {
    if code == 1 {
        Flare::I
    } else if code == 2 {
        Flare::II
    } else if code == 3 {
        Flare::III
    } else if code == 4 {
        Flare::IV
    } else if code == 5 {
        Flare::V
    } else if code == 6 {
        Flare::VI
    } else if code == 7 {
        Flare::VII
    } else if code == 8 {
        Flare::VIII
    } else if code == 9 {
        Flare::IX
    } else {
        Flare::Unranked
    }
}

impl From<u8> for Flare {
    fn from(value: u8) -> (flare: Self) {
        match value {
            1 => Flare::I,
            2 => Flare::II,
            3 => Flare::III,
            4 => Flare::IV,
            5 => Flare::V,
            6 => Flare::VI,
            7 => Flare::VII,
            8 => Flare::VIII,
            9 => Flare::IX,
            _ => Flare::Unranked,
        }
    }
}

impl vstd::std_specs::convert::FromSpecImpl<u8> for Flare {
    open spec fn obeys_from_spec() -> bool {
        true
    }

    open spec fn from_spec(value: u8) -> Self {
        flare_of(value)
    }
}

impl Default for Flare {
    fn default() -> (flare: Self)
        ensures
            flare == Flare::Unranked,
    {
        Flare::Unranked
    }
}

/// What a score may carry beside the required fields.
#[derive(Debug, Clone, Copy, PartialEq, Eq, Structural)]
pub struct Optional {
    pub flare: Flare,
}

impl Optional {
    /// `true` exactly when there is nothing to say: no flare rank.
    pub fn is_default(opt: &Optional) -> (plain: bool)
        ensures
            plain == (opt.flare == Flare::Unranked),
    {
        opt.flare == Flare::Unranked
    }
}

impl Default for Optional {
    fn default() -> (optional: Self)
        ensures
            optional == (Optional { flare: Flare::Unranked }),
    {
        Optional { flare: Flare::Unranked }
    }
}

/// How many steps got each judgement.
#[derive(Debug, Clone, Copy, PartialEq, Eq, Structural)]
pub struct Judgements {
    pub marvelous: u32,
    pub perfect: u32,
    pub great: u32,
    pub good: u32,
    pub miss: u32,
    pub ok: u32,
}

impl Default for Judgements {
    fn default() -> (judgements: Self)
        ensures
            judgements == (Judgements {
                marvelous: 0,
                perfect: 0,
                great: 0,
                good: 0,
                miss: 0,
                ok: 0,
            }),
    {
        Judgements { marvelous: 0, perfect: 0, great: 0, good: 0, miss: 0, ok: 0 }
    }
}

/// Timing and combo figures of a play.
#[derive(Debug, Clone, Copy, PartialEq, Eq, Structural)]
pub struct HitMeta {
    pub fast: u32,
    pub slow: u32,
    pub max_combo: u32,
    pub ex_score: u32,
}

impl Default for HitMeta {
    fn default() -> (hit_meta: Self)
        ensures
            hit_meta == (HitMeta { fast: 0, slow: 0, max_combo: 0, ex_score: 0 }),
    {
        HitMeta { fast: 0, slow: 0, max_combo: 0, ex_score: 0 }
    }
}

/// A score, in the shape the scoring service asks for.
#[derive(Debug, Clone)]
pub struct ImportScore {
    pub score: u32,
    pub lamp: TachiLamp,
    pub match_type: String,
    pub identifier: String,
    pub difficulty: Difficulty,
    pub time_achieved: u128,
    pub judgements: Judgements,
    pub hit_meta: HitMeta,
    pub optional: Optional,
}

/// What an `ImportScore` holds.
pub struct ImportScoreView {
    pub score: u32,
    pub lamp: TachiLamp,
    pub match_type: Seq<char>,
    pub identifier: Seq<char>,
    pub difficulty: Difficulty,
    pub time_achieved: u128,
    pub judgements: Judgements,
    pub hit_meta: HitMeta,
    pub optional: Optional,
}

impl View for ImportScore {
    type V = ImportScoreView;

    open spec fn view(&self) -> ImportScoreView {
        ImportScoreView {
            score: self.score,
            lamp: self.lamp,
            match_type: self.match_type@,
            identifier: self.identifier@,
            difficulty: self.difficulty,
            time_achieved: self.time_achieved,
            judgements: self.judgements,
            hit_meta: self.hit_meta,
            optional: self.optional,
        }
    }
}

/// What an import is about: the game, the play type, and who sends it.
#[derive(Debug, Clone)]
pub struct ImportMeta {
    pub game: String,
    pub play_type: Playtype,
    pub service: String,
}

/// What an `ImportMeta` holds.
pub struct ImportMetaView {
    pub game: Seq<char>,
    pub play_type: Playtype,
    pub service: Seq<char>,
}

impl View for ImportMeta {
    type V = ImportMetaView;

    open spec fn view(&self) -> ImportMetaView {
        ImportMetaView { game: self.game@, play_type: self.play_type, service: self.service@ }
    }
}

/// The metadata of an import of the given play type.
pub open spec fn meta_for(play_type: Playtype) -> ImportMetaView {
    ImportMetaView { game: "ddr"@, play_type, service: "Takure"@ }
}

impl ImportMeta {
    /// The metadata of an import of the given play type.
    pub fn new(play_type: Playtype) -> (meta: Self)
        ensures
            meta@ == meta_for(play_type),
    {
        ImportMeta { game: "ddr".to_owned(), play_type, service: "Takure".to_owned() }
    }
}

impl Default for ImportMeta {
    fn default() -> (meta: Self)
        ensures
            meta@ == meta_for(Playtype::SP),
    {
        ImportMeta::new(Playtype::SP)
    }
}

/// One submission to the scoring service.
#[derive(Debug, Clone)]
pub struct Import {
    pub meta: ImportMeta,
    pub scores: Vec<ImportScore>,
}

/// What an `Import` holds.
pub struct ImportView {
    pub meta: ImportMetaView,
    pub scores: Seq<ImportScoreView>,
}

impl View for Import {
    type V = ImportView;

    open spec fn view(&self) -> ImportView {
        ImportView {
            meta: self.meta@,
            scores: self.scores@.map_values(|score: ImportScore| score@),
        }
    }
}

impl Import {
    /// An import that carries exactly one score.
    pub fn single(meta: ImportMeta, score: ImportScore) -> (import: Self)
        ensures
            import@ == (ImportView { meta: meta@, scores: seq![score@] }),
    {
        let ghost shown = score@;
        let mut scores: Vec<ImportScore> = Vec::new();
        scores.push(score);
        let import = Import { meta, scores };
        assert(import@.scores =~= seq![shown]);
        import
    }
}

impl Default for Import {
    fn default() -> (import: Self)
        ensures
            import@ == (ImportView { meta: meta_for(Playtype::SP), scores: Seq::empty() }),
    {
        let import = Import { meta: ImportMeta::default(), scores: Vec::new() };
        assert(import@.scores =~= Seq::<ImportScoreView>::empty());
        import
    }
}

} // verus!
