//! The import as it goes over the wire: every enumeration by its name, and
//! the optional part left out where it says nothing.

use crate::text::same_text;
use crate::types::tachi::{Difficulty, Flare, HitMeta, Import, ImportMeta, ImportMetaView,
    ImportScore, ImportScoreView, ImportView, Judgements, Optional, Playtype, TachiLamp};
use vstd::prelude::*;
use vstd::string::*;

verus! {

/// The name of a play type on the wire.
pub open spec fn playtype_name(play_type: Playtype) -> Seq<char> {
    match play_type {
        Playtype::SP => "SP"@,
        Playtype::DP => "DP"@,
    }
}

/// The play type that a name stands for.
pub open spec fn named_playtype(name: Seq<char>) -> Option<Playtype> {
    if name == "SP"@ {
        Some(Playtype::SP)
    } else if name == "DP"@ {
        Some(Playtype::DP)
    } else {
        None
    }
}

/// The name of a lamp on the wire.
pub open spec fn lamp_name(lamp: TachiLamp) -> Seq<char> {
    match lamp {
        TachiLamp::Failed => "FAILED"@,
        TachiLamp::Assist => "ASSIST"@,
        TachiLamp::Clear => "CLEAR"@,
        TachiLamp::Life4 => "LIFE4"@,
        TachiLamp::FullCombo => "FULL COMBO"@,
        TachiLamp::GreatFullCombo => "GREAT FULL COMBO"@,
        TachiLamp::PerfectFullCombo => "PERFECT FULL COMBO"@,
        TachiLamp::MarvelousFullCombo => "MARVELOUS FULL COMBO"@,
    }
}

/// The lamp that a name stands for.
pub open spec fn named_lamp(name: Seq<char>) -> Option<TachiLamp> {
    if name == "FAILED"@ {
        Some(TachiLamp::Failed)
    } else if name == "ASSIST"@ {
        Some(TachiLamp::Assist)
    } else if name == "CLEAR"@ {
        Some(TachiLamp::Clear)
    } else if name == "LIFE4"@ {
        Some(TachiLamp::Life4)
    } else if name == "FULL COMBO"@ {
        Some(TachiLamp::FullCombo)
    } else if name == "GREAT FULL COMBO"@ {
        Some(TachiLamp::GreatFullCombo)
    } else if name == "PERFECT FULL COMBO"@ {
        Some(TachiLamp::PerfectFullCombo)
    } else if name == "MARVELOUS FULL COMBO"@ {
        Some(TachiLamp::MarvelousFullCombo)
    } else {
        None
    }
}

/// The name of a difficulty on the wire.
pub open spec fn difficulty_name(difficulty: Difficulty) -> Seq<char> {
    match difficulty {
        Difficulty::Beginner => "BEGINNER"@,
        Difficulty::Basic => "BASIC"@,
        Difficulty::Difficult => "DIFFICULT"@,
        Difficulty::Expert => "EXPERT"@,
        Difficulty::Challenge => "CHALLENGE"@,
    }
}

/// The difficulty that a name stands for.
pub open spec fn named_difficulty(name: Seq<char>) -> Option<Difficulty> {
    if name == "BEGINNER"@ {
        Some(Difficulty::Beginner)
    } else if name == "BASIC"@ {
        Some(Difficulty::Basic)
    } else if name == "DIFFICULT"@ {
        Some(Difficulty::Difficult)
    } else if name == "EXPERT"@ {
        Some(Difficulty::Expert)
    } else if name == "CHALLENGE"@ {
        Some(Difficulty::Challenge)
    } else {
        None
    }
}

/// The name of a flare rank on the wire.
pub open spec fn flare_name(flare: Flare) -> Seq<char> {
    match flare {
        Flare::Unranked => "None"@,
        Flare::I => "I"@,
        Flare::II => "II"@,
        Flare::III => "III"@,
        Flare::IV => "IV"@,
        Flare::V => "V"@,
        Flare::VI => "VI"@,
        Flare::VII => "VII"@,
        Flare::VIII => "VIII"@,
        Flare::IX => "IX"@,
    }
}

/// The flare rank that a name stands for.
pub open spec fn named_flare(name: Seq<char>) -> Option<Flare> {
    if name == "None"@ {
        Some(Flare::Unranked)
    } else if name == "I"@ {
        Some(Flare::I)
    } else if name == "II"@ {
        Some(Flare::II)
    } else if name == "III"@ {
        Some(Flare::III)
    } else if name == "IV"@ {
        Some(Flare::IV)
    } else if name == "V"@ {
        Some(Flare::V)
    } else if name == "VI"@ {
        Some(Flare::VI)
    } else if name == "VII"@ {
        Some(Flare::VII)
    } else if name == "VIII"@ {
        Some(Flare::VIII)
    } else if name == "IX"@ {
        Some(Flare::IX)
    } else {
        None
    }
}

impl Playtype {
    /// The name of the play type on the wire.
    pub fn name(&self) -> (name: &'static str)
        ensures
            name@ == playtype_name(*self),
    {
        match self {
            Playtype::SP => "SP",
            Playtype::DP => "DP",
        }
    }

    /// The play type that a name stands for.
    pub fn from_name(name: &str) -> (play_type: Option<Playtype>)
        ensures
            play_type == named_playtype(name@),
    {
        if same_text(name, "SP") {
            Some(Playtype::SP)
        } else if same_text(name, "DP") {
            Some(Playtype::DP)
        } else {
            None
        }
    }
}

impl TachiLamp {
    /// The name of the lamp on the wire.
    pub fn name(&self) -> (name: &'static str)
        ensures
            name@ == lamp_name(*self),
    {
        match self {
            TachiLamp::Failed => "FAILED",
            TachiLamp::Assist => "ASSIST",
            TachiLamp::Clear => "CLEAR",
            TachiLamp::Life4 => "LIFE4",
            TachiLamp::FullCombo => "FULL COMBO",
            TachiLamp::GreatFullCombo => "GREAT FULL COMBO",
            TachiLamp::PerfectFullCombo => "PERFECT FULL COMBO",
            TachiLamp::MarvelousFullCombo => "MARVELOUS FULL COMBO",
        }
    }

    /// The lamp that a name stands for.
    pub fn from_name(name: &str) -> (lamp: Option<TachiLamp>)
        ensures
            lamp == named_lamp(name@),
    {
        if same_text(name, "FAILED") {
            Some(TachiLamp::Failed)
        } else if same_text(name, "ASSIST") {
            Some(TachiLamp::Assist)
        } else if same_text(name, "CLEAR") {
            Some(TachiLamp::Clear)
        } else if same_text(name, "LIFE4") {
            Some(TachiLamp::Life4)
        } else if same_text(name, "FULL COMBO") {
            Some(TachiLamp::FullCombo)
        } else if same_text(name, "GREAT FULL COMBO") {
            Some(TachiLamp::GreatFullCombo)
        } else if same_text(name, "PERFECT FULL COMBO") {
            Some(TachiLamp::PerfectFullCombo)
        } else if same_text(name, "MARVELOUS FULL COMBO") {
            Some(TachiLamp::MarvelousFullCombo)
        } else {
            None
        }
    }
}

impl Difficulty {
    /// The name of the difficulty on the wire.
    pub fn name(&self) -> (name: &'static str)
        ensures
            name@ == difficulty_name(*self),
    {
        match self {
            Difficulty::Beginner => "BEGINNER",
            Difficulty::Basic => "BASIC",
            Difficulty::Difficult => "DIFFICULT",
            Difficulty::Expert => "EXPERT",
            Difficulty::Challenge => "CHALLENGE",
        }
    }

    /// The difficulty that a name stands for.
    pub fn from_name(name: &str) -> (difficulty: Option<Difficulty>)
        ensures
            difficulty == named_difficulty(name@),
    {
        if same_text(name, "BEGINNER") {
            Some(Difficulty::Beginner)
        } else if same_text(name, "BASIC") {
            Some(Difficulty::Basic)
        } else if same_text(name, "DIFFICULT") {
            Some(Difficulty::Difficult)
        } else if same_text(name, "EXPERT") {
            Some(Difficulty::Expert)
        } else if same_text(name, "CHALLENGE") {
            Some(Difficulty::Challenge)
        } else {
            None
        }
    }
}

impl Flare {
    /// The name of the flare rank on the wire.
    pub fn name(&self) -> (name: &'static str)
        ensures
            name@ == flare_name(*self),
    {
        match self {
            Flare::Unranked => "None",
            Flare::I => "I",
            Flare::II => "II",
            Flare::III => "III",
            Flare::IV => "IV",
            Flare::V => "V",
            Flare::VI => "VI",
            Flare::VII => "VII",
            Flare::VIII => "VIII",
            Flare::IX => "IX",
        }
    }

    /// The flare rank that a name stands for.
    pub fn from_name(name: &str) -> (flare: Option<Flare>)
        ensures
            flare == named_flare(name@),
    {
        if same_text(name, "None") {
            Some(Flare::Unranked)
        } else if same_text(name, "I") {
            Some(Flare::I)
        } else if same_text(name, "II") {
            Some(Flare::II)
        } else if same_text(name, "III") {
            Some(Flare::III)
        } else if same_text(name, "IV") {
            Some(Flare::IV)
        } else if same_text(name, "V") {
            Some(Flare::V)
        } else if same_text(name, "VI") {
            Some(Flare::VI)
        } else if same_text(name, "VII") {
            Some(Flare::VII)
        } else if same_text(name, "VIII") {
            Some(Flare::VIII)
        } else if same_text(name, "IX") {
            Some(Flare::IX)
        } else {
            None
        }
    }
}

/// Every play type is found again by its name.
pub proof fn law_playtype_name_round_trip(play_type: Playtype)
    ensures
        named_playtype(playtype_name(play_type)) == Some(play_type),
{
    reveal_strlit("SP");
    reveal_strlit("DP");
    assert("SP"@.len() == 2);
    assert("DP"@.len() == 2);
    assert("SP"@[0] != "DP"@[0]);
}

/// Every lamp is found again by its name.
pub proof fn law_lamp_name_round_trip(lamp: TachiLamp)
    ensures
        named_lamp(lamp_name(lamp)) == Some(lamp),
{
    reveal_strlit("FAILED");
    reveal_strlit("ASSIST");
    reveal_strlit("CLEAR");
    reveal_strlit("LIFE4");
    reveal_strlit("FULL COMBO");
    reveal_strlit("GREAT FULL COMBO");
    reveal_strlit("PERFECT FULL COMBO");
    reveal_strlit("MARVELOUS FULL COMBO");
    assert("FAILED"@.len() == 6);
    assert("ASSIST"@.len() == 6);
    assert("CLEAR"@.len() == 5);
    assert("LIFE4"@.len() == 5);
    assert("FULL COMBO"@.len() == 10);
    assert("GREAT FULL COMBO"@.len() == 16);
    assert("PERFECT FULL COMBO"@.len() == 18);
    assert("MARVELOUS FULL COMBO"@.len() == 20);
    assert("FAILED"@[0] != "ASSIST"@[0]);
    assert("CLEAR"@[0] != "LIFE4"@[0]);
}

/// Every difficulty is found again by its name.
pub proof fn law_difficulty_name_round_trip(difficulty: Difficulty)
    ensures
        named_difficulty(difficulty_name(difficulty)) == Some(difficulty),
{
    reveal_strlit("BEGINNER");
    reveal_strlit("BASIC");
    reveal_strlit("DIFFICULT");
    reveal_strlit("EXPERT");
    reveal_strlit("CHALLENGE");
    assert("BEGINNER"@.len() == 8);
    assert("BASIC"@.len() == 5);
    assert("DIFFICULT"@.len() == 9);
    assert("EXPERT"@.len() == 6);
    assert("CHALLENGE"@.len() == 9);
    assert("DIFFICULT"@[0] != "CHALLENGE"@[0]);
}

/// Every flare rank is found again by its name.
pub proof fn law_flare_name_round_trip(flare: Flare)
    ensures
        named_flare(flare_name(flare)) == Some(flare),
{
    reveal_strlit("None");
    reveal_strlit("I");
    reveal_strlit("II");
    reveal_strlit("III");
    reveal_strlit("IV");
    reveal_strlit("V");
    reveal_strlit("VI");
    reveal_strlit("VII");
    reveal_strlit("VIII");
    reveal_strlit("IX");
    assert("None"@.len() == 4);
    assert("I"@.len() == 1);
    assert("II"@.len() == 2);
    assert("III"@.len() == 3);
    assert("IV"@.len() == 2);
    assert("V"@.len() == 1);
    assert("VI"@.len() == 2);
    assert("VII"@.len() == 3);
    assert("VIII"@.len() == 4);
    assert("IX"@.len() == 2);
    assert("None"@[0] != "VIII"@[0]);
    assert("I"@[0] != "V"@[0]);
    assert("II"@[1] != "IV"@[1]);
    assert("II"@[0] != "VI"@[0]);
    assert("II"@[1] != "IX"@[1]);
    assert("III"@[0] != "VII"@[0]);
    assert("IV"@[0] != "VI"@[0]);
    assert("IV"@[1] != "IX"@[1]);
    assert("VI"@[0] != "IX"@[0]);
}

/// The optional part of a score on the wire.
#[derive(Debug, Clone)]
pub struct WireOptional {
    pub flare: String,
}

/// A score on the wire.
#[derive(Debug, Clone)]
pub struct WireScore {
    pub score: u32,
    pub lamp: String,
    pub match_type: String,
    pub identifier: String,
    pub difficulty: String,
    pub time_achieved: u128,
    pub judgements: Judgements,
    pub hit_meta: HitMeta,
    /// Left out where the score has nothing optional to say.
    pub optional: Option<WireOptional>,
}

/// What a `WireScore` holds; its optional part by the name of the flare.
pub struct WireScoreView {
    pub score: u32,
    pub lamp: Seq<char>,
    pub match_type: Seq<char>,
    pub identifier: Seq<char>,
    pub difficulty: Seq<char>,
    pub time_achieved: u128,
    pub judgements: Judgements,
    pub hit_meta: HitMeta,
    pub optional: Option<Seq<char>>,
}

impl View for WireScore {
    type V = WireScoreView;

    open spec fn view(&self) -> WireScoreView {
        WireScoreView {
            score: self.score,
            lamp: self.lamp@,
            match_type: self.match_type@,
            identifier: self.identifier@,
            difficulty: self.difficulty@,
            time_achieved: self.time_achieved,
            judgements: self.judgements,
            hit_meta: self.hit_meta,
            optional: match self.optional {
                Some(optional) => Some(optional.flare@),
                None => None,
            },
        }
    }
}

/// The metadata of an import on the wire.
#[derive(Debug, Clone)]
pub struct WireMeta {
    pub game: String,
    pub playtype: String,
    pub service: String,
}

/// What a `WireMeta` holds.
pub struct WireMetaView {
    pub game: Seq<char>,
    pub playtype: Seq<char>,
    pub service: Seq<char>,
}

impl View for WireMeta {
    type V = WireMetaView;

    open spec fn view(&self) -> WireMetaView {
        WireMetaView { game: self.game@, playtype: self.playtype@, service: self.service@ }
    }
}

/// An import on the wire.
#[derive(Debug, Clone)]
pub struct WireImport {
    pub meta: WireMeta,
    pub scores: Vec<WireScore>,
}

/// What a `WireImport` holds.
pub struct WireImportView {
    pub meta: WireMetaView,
    pub scores: Seq<WireScoreView>,
}

impl View for WireImport {
    type V = WireImportView;

    open spec fn view(&self) -> WireImportView {
        WireImportView {
            meta: self.meta@,
            scores: self.scores@.map_values(|score: WireScore| score@),
        }
    }
}

/// The optional part of a score on the wire: left out exactly when the score
/// has no flare rank.
pub open spec fn wire_optional_of(optional: Optional) -> Option<Seq<char>> {
    if optional.flare == Flare::Unranked {
        None
    } else {
        Some(flare_name(optional.flare))
    }
}

/// A score as it goes over the wire.
pub open spec fn wire_score_of(score: ImportScoreView) -> WireScoreView {
    WireScoreView {
        score: score.score,
        lamp: lamp_name(score.lamp),
        match_type: score.match_type,
        identifier: score.identifier,
        difficulty: difficulty_name(score.difficulty),
        time_achieved: score.time_achieved,
        judgements: score.judgements,
        hit_meta: score.hit_meta,
        optional: wire_optional_of(score.optional),
    }
}

/// An import as it goes over the wire.
pub open spec fn wire_of(import: ImportView) -> WireImportView {
    WireImportView {
        meta: WireMetaView {
            game: import.meta.game,
            playtype: playtype_name(import.meta.play_type),
            service: import.meta.service,
        },
        scores: import.scores.map_values(|score: ImportScoreView| wire_score_of(score)),
    }
}

/// The optional part that a score on the wire stands for: where it is left
/// out, the score has no flare rank. Nothing where a flare is named that
/// does not exist.
pub open spec fn read_optional(optional: Option<Seq<char>>) -> Option<Optional> {
    match optional {
        None => Some(Optional { flare: Flare::Unranked }),
        Some(name) => match named_flare(name) {
            Some(flare) => Some(Optional { flare }),
            None => None,
        },
    }
}

/// The score that a score on the wire stands for, if every name in it is
/// known.
pub open spec fn read_score(wire: WireScoreView) -> Option<ImportScoreView> {
    if named_lamp(wire.lamp) is Some && named_difficulty(wire.difficulty) is Some && read_optional(
        wire.optional,
    ) is Some {
        Some(
            ImportScoreView {
                score: wire.score,
                lamp: named_lamp(wire.lamp)->0,
                match_type: wire.match_type,
                identifier: wire.identifier,
                difficulty: named_difficulty(wire.difficulty)->0,
                time_achieved: wire.time_achieved,
                judgements: wire.judgements,
                hit_meta: wire.hit_meta,
                optional: read_optional(wire.optional)->0,
            },
        )
    } else {
        None
    }
}

/// The import that an import on the wire stands for, if every name in it is
/// known.
pub open spec fn read_import(wire: WireImportView) -> Option<ImportView> {
    if named_playtype(wire.meta.playtype) is Some && (forall|k: int|
        0 <= k < wire.scores.len() ==> read_score(#[trigger] wire.scores[k]) is Some) {
        Some(
            ImportView {
                meta: ImportMetaView {
                    game: wire.meta.game,
                    play_type: named_playtype(wire.meta.playtype)->0,
                    service: wire.meta.service,
                },
                scores: wire.scores.map_values(|score: WireScoreView| read_score(score)->0),
            },
        )
    } else {
        None
    }
}

impl ImportScore {
    /// The score as it goes over the wire.
    pub fn to_wire(&self) -> (wire: WireScore)
        ensures
            wire@ == wire_score_of(self@),
    {
        WireScore {
            score: self.score,
            lamp: self.lamp.name().to_owned(),
            match_type: self.match_type.clone(),
            identifier: self.identifier.clone(),
            difficulty: self.difficulty.name().to_owned(),
            time_achieved: self.time_achieved,
            judgements: self.judgements,
            hit_meta: self.hit_meta,
            optional: if Optional::is_default(&self.optional) {
                None
            } else {
                Some(WireOptional { flare: self.optional.flare.name().to_owned() })
            },
        }
    }
}

impl WireScore {
    /// The score that this stands for.
    pub fn to_score(&self) -> (score: Option<ImportScore>)
        ensures
            score is Some <==> read_score(self@) is Some,
            score matches Some(read) ==> Some(read@) == read_score(self@),
    {
        let lamp: TachiLamp = TachiLamp::from_name(self.lamp.as_str())?;
        let difficulty: Difficulty = Difficulty::from_name(self.difficulty.as_str())?;
        let optional: Optional = match &self.optional {
            None => Optional { flare: Flare::Unranked },
            Some(optional) => Optional { flare: Flare::from_name(optional.flare.as_str())? },
        };
        Some(
            ImportScore {
                score: self.score,
                lamp,
                match_type: self.match_type.clone(),
                identifier: self.identifier.clone(),
                difficulty,
                time_achieved: self.time_achieved,
                judgements: self.judgements,
                hit_meta: self.hit_meta,
                optional,
            },
        )
    }
}

impl Import {
    /// The import as it goes over the wire.
    pub fn to_wire(&self) -> (wire: WireImport)
        ensures
            wire@ == wire_of(self@),
    {
        let mut scores: Vec<WireScore> = Vec::new();
        let mut at: usize = 0;
        while at < self.scores.len()
            invariant
                at <= self.scores.len(),
                scores@.len() == at,
                forall|k: int| 0 <= k < at ==> (#[trigger] scores@[k])@ == wire_score_of(
                    self.scores@[k]@,
                ),
            decreases self.scores.len() - at,
        {
            scores.push(self.scores[at].to_wire());
            at = at + 1;
        }
        let wire = WireImport {
            meta: WireMeta {
                game: self.meta.game.clone(),
                playtype: self.meta.play_type.name().to_owned(),
                service: self.meta.service.clone(),
            },
            scores,
        };
        assert(wire@.scores =~= wire_of(self@).scores);
        wire
    }
}

impl WireImport {
    /// The import that this stands for.
    pub fn to_import(&self) -> (import: Option<Import>)
        ensures
            import is Some <==> read_import(self@) is Some,
            import matches Some(read) ==> Some(read@) == read_import(self@),
    {
        let play_type: Playtype = match Playtype::from_name(self.meta.playtype.as_str()) {
            Some(play_type) => play_type,
            None => {
                return None;
            },
        };
        let mut scores: Vec<ImportScore> = Vec::new();
        let mut at: usize = 0;
        while at < self.scores.len()
            invariant
                at <= self.scores.len(),
                scores@.len() == at,
                forall|k: int|
                    0 <= k < at ==> Some((#[trigger] scores@[k])@) == read_score(self.scores@[k]@),
            decreases self.scores.len() - at,
        {
            match self.scores[at].to_score() {
                Some(score) => {
                    scores.push(score);
                },
                None => {
                    assert(self@.scores[at as int] == self.scores@[at as int]@);
                    return None;
                },
            }
            at = at + 1;
        }
        proof {
            assert forall|k: int| 0 <= k < self@.scores.len() implies read_score(
                #[trigger] self@.scores[k],
            ) == Some(scores@[k]@) by {
                assert(self@.scores[k] == self.scores@[k]@);
            }
        }
        let import = Import {
            meta: ImportMeta {
                game: self.meta.game.clone(),
                play_type,
                service: self.meta.service.clone(),
            },
            scores,
        };
        assert(import@.scores =~= read_import(self@)->0.scores);
        Some(import)
    }
}

/// The optional part of a score is left out on the wire exactly when it
/// says nothing: when the score has no flare rank.
pub proof fn law_optional_is_left_out_when_default(score: ImportScoreView)
    ensures
        wire_score_of(score).optional is None <==> score.optional.flare == Flare::Unranked,
{
}

/// A score that is put on the wire and read back is the score that was put
/// there. The optional part that was left out comes back as no flare rank.
pub proof fn law_score_round_trip(score: ImportScoreView)
    ensures
        read_score(wire_score_of(score)) == Some(score),
{
    law_lamp_name_round_trip(score.lamp);
    law_difficulty_name_round_trip(score.difficulty);
    law_flare_name_round_trip(score.optional.flare);
}

/// An import that is put on the wire and read back is the import that was
/// put there.
pub proof fn law_import_round_trip(import: ImportView)
    ensures
        read_import(wire_of(import)) == Some(import),
{
    law_playtype_name_round_trip(import.meta.play_type);
    let wire = wire_of(import);
    assert forall|k: int| 0 <= k < wire.scores.len() implies read_score(#[trigger] wire.scores[k])
        == Some(import.scores[k]) by {
        law_score_round_trip(import.scores[k]);
    }
    assert(read_import(wire)->0.scores =~= import.scores);
}

} // verus!
