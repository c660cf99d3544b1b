use takure::configuration::{
    default_timeout, default_true, CardsConfiguration, Configuration, GeneralConfiguration,
    TachiConfiguration,
};
use takure::json::{field, field_u128, field_u32, field_u8};
use takure::sys::{Architecture, HostFunction, NodeType, TARGET};
use takure::types::game::Result as StageResult;
use takure::types::tachi::{
    Difficulty, Flare, HitMeta, Import, ImportMeta, ImportScore, Judgements, Optional, Playtype,
    TachiLamp,
};
use takure::version::{
    version_gate, Compatibility, VersionField, VersionInfo, NEWEST_BUILD, OLDEST_BUILD,
};
use takure::wire::{WireImport, WireMeta, WireOptional, WireScore};

fn host(model: &str, revision: &str, build: u64) -> VersionInfo {
    VersionInfo {
        model: model.to_string(),
        destination: "J".to_string(),
        specification: "A".to_string(),
        revision: revision.to_string(),
        build,
    }
}

fn score(lamp: TachiLamp, difficulty: Difficulty, flare: Flare) -> ImportScore {
    ImportScore {
        score: 876_540,
        lamp,
        match_type: "inGameID".to_string(),
        identifier: "38311".to_string(),
        difficulty,
        time_achieved: 1_700_000_000_000,
        judgements: Judgements { marvelous: 1, perfect: 2, great: 3, good: 4, miss: 5, ok: 6 },
        hit_meta: HitMeta { fast: 7, slow: 8, max_combo: 9, ex_score: 10 },
        optional: Optional { flare },
    }
}

fn same_score(left: &ImportScore, right: &ImportScore) -> bool {
    left.score == right.score
        && left.lamp == right.lamp
        && left.match_type == right.match_type
        && left.identifier == right.identifier
        && left.difficulty == right.difficulty
        && left.time_achieved == right.time_achieved
        && left.judgements == right.judgements
        && left.hit_meta == right.hit_meta
        && left.optional == right.optional
}

#[test]
fn defaults_of_the_settings() {
    assert!(default_true());
    assert_eq!(default_timeout(), 3000);
    let configuration = Configuration::default();
    assert_eq!(configuration.general, GeneralConfiguration { enable: false, timeout: 0 });
    assert_eq!(GeneralConfiguration::default(), GeneralConfiguration { enable: false, timeout: 0 });
    assert!(configuration.cards.whitelist.is_empty());
    assert!(CardsConfiguration::default().whitelist.is_empty());
    assert_eq!(configuration.tachi.base_url, "");
    assert_eq!(configuration.tachi.api_key, "");
    assert_eq!(TachiConfiguration::default().base_url, "");
}

#[test]
fn defaults_of_the_import() {
    let meta = ImportMeta::default();
    assert_eq!(meta.game, "ddr");
    assert_eq!(meta.play_type, Playtype::SP);
    assert_eq!(meta.service, "Takure");
    let meta = ImportMeta::new(Playtype::DP);
    assert_eq!(meta.game, "ddr");
    assert_eq!(meta.play_type, Playtype::DP);
    assert_eq!(meta.service, "Takure");
    assert_eq!(
        Judgements::default(),
        Judgements { marvelous: 0, perfect: 0, great: 0, good: 0, miss: 0, ok: 0 }
    );
    assert_eq!(HitMeta::default(), HitMeta { fast: 0, slow: 0, max_combo: 0, ex_score: 0 });
    let import = Import::default();
    assert_eq!(import.meta.game, "ddr");
    assert_eq!(import.meta.play_type, Playtype::SP);
    assert!(import.scores.is_empty());
    let single = Import::single(meta, score(TachiLamp::Clear, Difficulty::Basic, Flare::I));
    assert_eq!(single.scores.len(), 1);
    assert_eq!(single.scores[0].score, 876_540);
    assert_eq!(single.meta.play_type, Playtype::DP);
}

#[test]
fn node_types_are_numbered_from_one() {
    assert_eq!(NodeType::NodeNode.code(), 1);
    assert_eq!(NodeType::NodeU8.code(), 3);
    assert_eq!(NodeType::NodeBin.code(), 10);
    assert_eq!(NodeType::NodeStr.code(), 11);
    assert_eq!(NodeType::NodeDouble.code(), 15);
    assert_eq!(NodeType::Node2d.code(), 25);
    assert_eq!(NodeType::Node3d.code(), 35);
    assert_eq!(NodeType::Node4d.code(), 45);
    assert_eq!(NodeType::NodeAttr.code(), 46);
    assert_eq!(NodeType::NodeAttrAndNode.code(), 47);
    assert_eq!(NodeType::NodeVu16.code(), 51);
    assert_eq!(NodeType::NodeBool.code(), 52);
    assert_eq!(NodeType::NodeVb.code(), 56);
    assert_eq!(NodeType::from_code(0), None);
    assert_eq!(NodeType::from_code(57), None);
    assert_eq!(NodeType::from_code(u32::MAX), None);
    assert_eq!(NodeType::from_code(46), Some(NodeType::NodeAttr));
    let mut seen = Vec::new();
    for code in 1..=56u32 {
        let kind = NodeType::from_code(code).unwrap();
        assert_eq!(kind.code(), code);
        assert!(!seen.contains(&kind));
        seen.push(kind);
    }
}

#[test]
fn version_fields_name_their_nodes() {
    assert_eq!(VersionField::Model.path(), "/soft/model");
    assert_eq!(VersionField::Destination.path(), "/soft/dest");
    assert_eq!(VersionField::Specification.path(), "/soft/spec");
    assert_eq!(VersionField::Revision.path(), "/soft/rev");
    assert_eq!(VersionField::Build.path(), "/soft/ext");
    assert_eq!(VersionField::Model.limit(), 3);
    assert_eq!(VersionField::Destination.limit(), 1);
    assert_eq!(VersionField::Specification.limit(), 1);
    assert_eq!(VersionField::Revision.limit(), 1);
    assert_eq!(VersionField::Build.limit(), 10);
}

#[test]
fn the_gate_takes_the_supported_hosts_only() {
    assert_eq!(OLDEST_BUILD, 2022022801);
    assert_eq!(NEWEST_BUILD, 2024040200);
    assert!(host("MDX", "A", 2022022801).is_supported());
    assert!(host("MDX", "A", 2024040200).is_supported());
    assert!(host("MDX", "", 2023010100).is_supported());
    assert!(!host("MDX", "A", 2022022800).is_supported());
    assert!(!host("MDX", "A", 2024040201).is_supported());
    assert!(!host("MDX", "A", 0).is_supported());
    assert!(!host("MDX", "O", 2023010100).is_supported());
    assert!(!host("MDX", "X", 2023010100).is_supported());
    assert!(!host("LDJ", "A", 2023010100).is_supported());
    assert!(!host("mdx", "A", 2023010100).is_supported());
    assert!(!host("", "A", 2023010100).is_supported());
    assert_eq!(version_gate(&Some(host("MDX", "A", 2023010100))), Compatibility::Supported);
    assert_eq!(version_gate(&Some(host("MDX", "X", 2023010100))), Compatibility::Unsupported);
    assert_eq!(version_gate(&None), Compatibility::Unknown);
}

#[test]
fn the_identification_needs_every_field() {
    let field = |text: &str| Some(text.to_string());
    let info =
        VersionInfo::assemble(field("MDX"), field("J"), field("A"), field("B"), field("2023042500"))
            .unwrap();
    assert_eq!(info.model, "MDX");
    assert_eq!(info.destination, "J");
    assert_eq!(info.specification, "A");
    assert_eq!(info.revision, "B");
    assert_eq!(info.build, 2023042500);
    let info =
        VersionInfo::assemble(field("MDX"), field("J"), field("A"), field("B"), field("latest"))
            .unwrap();
    assert_eq!(info.build, 0);
    assert!(!info.is_supported());
    assert!(VersionInfo::assemble(None, field("J"), field("A"), field("B"), field("1")).is_none());
    assert!(VersionInfo::assemble(field("MDX"), None, field("A"), field("B"), field("1")).is_none());
    assert!(VersionInfo::assemble(field("MDX"), field("J"), None, field("B"), field("1")).is_none());
    assert!(VersionInfo::assemble(field("MDX"), field("J"), field("A"), None, field("1")).is_none());
    assert!(VersionInfo::assemble(field("MDX"), field("J"), field("A"), field("B"), None).is_none());
}

#[test]
fn numbers_are_read_out_of_objects() {
    let value: serde_json::Value = serde_json::from_str(
        "{\"a\":7,\"b\":256,\"c\":4294967296,\"d\":-1,\"e\":1.5,\"f\":\"7\",\"g\":null,\
         \"h\":18446744073709551615,\"i\":255,\"j\":4294967295,\"k\":[7]}",
    )
    .unwrap();
    assert_eq!(field(&value, "a"), Some(7));
    assert_eq!(field(&value, "h"), Some(u64::MAX));
    assert_eq!(field(&value, "d"), None);
    assert_eq!(field(&value, "e"), None);
    assert_eq!(field(&value, "f"), None);
    assert_eq!(field(&value, "g"), None);
    assert_eq!(field(&value, "k"), None);
    assert_eq!(field(&value, "zz"), None);
    assert_eq!(field_u8(&value, "a"), Some(7));
    assert_eq!(field_u8(&value, "i"), Some(255));
    assert_eq!(field_u8(&value, "b"), None);
    assert_eq!(field_u8(&value, "zz"), None);
    assert_eq!(field_u32(&value, "b"), Some(256));
    assert_eq!(field_u32(&value, "j"), Some(u32::MAX));
    assert_eq!(field_u32(&value, "c"), None);
    assert_eq!(field_u128(&value, "c"), Some(4294967296));
    assert_eq!(field_u128(&value, "h"), Some(u64::MAX as u128));
    assert_eq!(field_u128(&value, "d"), None);
    let array: serde_json::Value = serde_json::from_str("[1,2,3]").unwrap();
    assert_eq!(field(&array, "0"), None);
    assert_eq!(field(&serde_json::Value::from(7u64), "a"), None);
}

#[test]
fn a_result_is_decoded_field_by_field() {
    let text = "{\"stagenum\":2,\"mcode\":38311,\"difficulty\":3,\"clearkind\":7,\
        \"score\":987650,\"exscore\":1500,\"maxcombo\":400,\"fastcount\":5,\"slowcount\":6,\
        \"judge_marv\":300,\"judge_perf\":90,\"judge_great\":8,\"judge_good\":1,\"judge_miss\":1,\
        \"judge_ok\":12,\"playtime\":1234567890123,\"style\":1,\"flare_force\":9,\"extra\":\"x\"}";
    let value: serde_json::Value = serde_json::from_str(text).unwrap();
    let decoded = StageResult::decode(&value).unwrap();
    assert_eq!(
        decoded,
        StageResult {
            stagenum: 2,
            mcode: 38311,
            difficulty: 3,
            clearkind: 7,
            score: 987650,
            ex_score: 1500,
            maxcombo: 400,
            fastcount: 5,
            slowcount: 6,
            judge_marv: 300,
            judge_perf: 90,
            judge_great: 8,
            judge_good: 1,
            judge_miss: 1,
            judge_ok: 12,
            playtime: 1234567890123,
            style: 1,
            flare_force: 9,
        }
    );
    for key in [
        "stagenum", "mcode", "difficulty", "clearkind", "score", "exscore", "maxcombo",
        "fastcount", "slowcount", "judge_marv", "judge_perf", "judge_great", "judge_good",
        "judge_miss", "judge_ok", "playtime", "style", "flare_force",
    ] {
        let mut without = value.clone();
        without.as_object_mut().unwrap().remove(key);
        assert_eq!(StageResult::decode(&without), None, "{}", key);
        let mut negative = value.clone();
        negative.as_object_mut().unwrap().insert(key.to_string(), serde_json::Value::from(-1));
        assert_eq!(StageResult::decode(&negative), None, "{}", key);
    }
    let mut wide = value.clone();
    wide.as_object_mut().unwrap().insert("style".to_string(), serde_json::Value::from(256));
    assert_eq!(StageResult::decode(&wide), None);
    let mut wide = value.clone();
    wide.as_object_mut().unwrap().insert("score".to_string(), serde_json::Value::from(1u64 << 32));
    assert_eq!(StageResult::decode(&wide), None);
    assert_eq!(StageResult::decode(&serde_json::Value::Null), None);
    assert_eq!(StageResult::decode(&serde_json::Value::Array(Vec::new())), None);
}

#[test]
fn names_on_the_wire() {
    assert_eq!(Playtype::SP.name(), "SP");
    assert_eq!(Playtype::DP.name(), "DP");
    assert_eq!(TachiLamp::Failed.name(), "FAILED");
    assert_eq!(TachiLamp::Assist.name(), "ASSIST");
    assert_eq!(TachiLamp::Clear.name(), "CLEAR");
    assert_eq!(TachiLamp::Life4.name(), "LIFE4");
    assert_eq!(TachiLamp::FullCombo.name(), "FULL COMBO");
    assert_eq!(TachiLamp::GreatFullCombo.name(), "GREAT FULL COMBO");
    assert_eq!(TachiLamp::PerfectFullCombo.name(), "PERFECT FULL COMBO");
    assert_eq!(TachiLamp::MarvelousFullCombo.name(), "MARVELOUS FULL COMBO");
    assert_eq!(Difficulty::Beginner.name(), "BEGINNER");
    assert_eq!(Difficulty::Basic.name(), "BASIC");
    assert_eq!(Difficulty::Difficult.name(), "DIFFICULT");
    assert_eq!(Difficulty::Expert.name(), "EXPERT");
    assert_eq!(Difficulty::Challenge.name(), "CHALLENGE");
    assert_eq!(Flare::Unranked.name(), "None");
    assert_eq!(Flare::I.name(), "I");
    assert_eq!(Flare::IV.name(), "IV");
    assert_eq!(Flare::IX.name(), "IX");
    for play_type in [Playtype::SP, Playtype::DP] {
        assert_eq!(Playtype::from_name(play_type.name()), Some(play_type));
    }
    for code in 0..=12u8 {
        let lamp = TachiLamp::from(code);
        assert_eq!(TachiLamp::from_name(lamp.name()), Some(lamp));
        let flare = Flare::from(code);
        assert_eq!(Flare::from_name(flare.name()), Some(flare));
        if let Ok(difficulty) = Difficulty::from_code(code) {
            assert_eq!(Difficulty::from_name(difficulty.name()), Some(difficulty));
        }
    }
    assert_eq!(Playtype::from_name("sp"), None);
    assert_eq!(TachiLamp::from_name("FULLCOMBO"), None);
    assert_eq!(TachiLamp::from_name(""), None);
    assert_eq!(Difficulty::from_name("Expert"), None);
    assert_eq!(Flare::from_name("X"), None);
    assert_eq!(Flare::from_name("IIII"), None);
}

#[test]
fn the_optional_part_is_left_out_when_it_says_nothing() {
    let plain = score(TachiLamp::Clear, Difficulty::Expert, Flare::Unranked).to_wire();
    assert!(plain.optional.is_none());
    assert_eq!(plain.lamp, "CLEAR");
    assert_eq!(plain.difficulty, "EXPERT");
    assert_eq!(plain.score, 876_540);
    assert_eq!(plain.match_type, "inGameID");
    assert_eq!(plain.identifier, "38311");
    assert_eq!(plain.time_achieved, 1_700_000_000_000);
    assert_eq!(plain.judgements.great, 3);
    assert_eq!(plain.hit_meta.max_combo, 9);
    let ranked = score(TachiLamp::Clear, Difficulty::Expert, Flare::VII).to_wire();
    assert_eq!(ranked.optional.map(|optional| optional.flare), Some("VII".to_string()));
}

#[test]
fn an_import_comes_back_from_the_wire_as_it_went() {
    let lamps = [TachiLamp::Failed, TachiLamp::Life4, TachiLamp::MarvelousFullCombo];
    let flares = [Flare::Unranked, Flare::I, Flare::IX];
    for play_type in [Playtype::SP, Playtype::DP] {
        for (lamp, flare) in lamps.iter().zip(flares.iter()) {
            let original = Import::single(
                ImportMeta::new(play_type),
                score(*lamp, Difficulty::Challenge, *flare),
            );
            let wire = original.to_wire();
            assert_eq!(wire.meta.game, "ddr");
            assert_eq!(wire.meta.service, "Takure");
            assert_eq!(wire.meta.playtype, play_type.name());
            assert_eq!(wire.scores.len(), 1);
            assert_eq!(wire.scores[0].optional.is_none(), *flare == Flare::Unranked);
            let back = wire.to_import().unwrap();
            assert_eq!(back.meta.game, original.meta.game);
            assert_eq!(back.meta.play_type, original.meta.play_type);
            assert_eq!(back.meta.service, original.meta.service);
            assert_eq!(back.scores.len(), 1);
            assert!(same_score(&back.scores[0], &original.scores[0]));
        }
    }
    let empty = Import::default().to_wire();
    assert!(empty.scores.is_empty());
    assert!(empty.to_import().unwrap().scores.is_empty());
}

#[test]
fn unknown_names_on_the_wire_are_refused() {
    let good = || WireImport {
        meta: WireMeta {
            game: "ddr".to_string(),
            playtype: "SP".to_string(),
            service: "Takure".to_string(),
        },
        scores: vec![score(TachiLamp::Clear, Difficulty::Basic, Flare::II).to_wire()],
    };
    assert!(good().to_import().is_some());
    let mut wire = good();
    wire.meta.playtype = "VS".to_string();
    assert!(wire.to_import().is_none());
    let mut wire = good();
    wire.scores[0].lamp = "PASSED".to_string();
    assert!(wire.to_import().is_none());
    assert!(wire.scores[0].to_score().is_none());
    let mut wire = good();
    wire.scores[0].difficulty = "EDIT".to_string();
    assert!(wire.to_import().is_none());
    let mut wire = good();
    wire.scores[0].optional = Some(WireOptional { flare: "EX".to_string() });
    assert!(wire.to_import().is_none());
    let mut wire = good();
    wire.scores[0].optional = Some(WireOptional { flare: "None".to_string() });
    assert_eq!(wire.to_import().unwrap().scores[0].optional.flare, Flare::Unranked);
    let mut wire = good();
    wire.scores[0].optional = None;
    assert_eq!(wire.to_import().unwrap().scores[0].optional.flare, Flare::Unranked);
    let kept: WireScore = good().scores.remove(0);
    assert!(same_score(
        &kept.to_score().unwrap(),
        &score(TachiLamp::Clear, Difficulty::Basic, Flare::II)
    ));
}

#[test]
fn symbols_follow_the_architecture() {
    assert_eq!(TARGET, HostFunction::PropertyDestroy);
    assert_eq!(Architecture::X86.library(), "libavs-win32.dll");
    assert_eq!(Architecture::X86_64.library(), "libavs-win64.dll");
    let functions = [
        (HostFunction::PropertyDestroy, "XCd229cc00013c", "XCnbrep7000091"),
        (HostFunction::PropertySetFlag, "XCd229cc000035", "XCnbrep700009a"),
        (HostFunction::PropertyClearError, "XCd229cc00014b", "XCnbrep700009d"),
        (HostFunction::PropertyQuerySize, "XCd229cc000032", "XCnbrep700009f"),
        (HostFunction::PropertySearch, "XCd229cc00012e", "XCnbrep70000a1"),
        (HostFunction::PropertyNodeName, "XCd229cc000049", "XCnbrep70000a7"),
        (HostFunction::PropertyNodeRead, "XCd229cc0000f3", "XCnbrep70000ab"),
        (HostFunction::PropertyNodeRefer, "XCd229cc000009", "XCnbrep70000af"),
        (HostFunction::PropertyMemWrite, "XCd229cc000033", "XCnbrep70000b8"),
    ];
    for (function, narrow, wide) in functions {
        assert_eq!(Architecture::X86.symbol(function), narrow);
        assert_eq!(Architecture::X86_64.symbol(function), wide);
    }
    for (first, _, _) in functions {
        for (second, _, _) in functions {
            if first != second {
                assert_ne!(Architecture::X86.symbol(first), Architecture::X86.symbol(second));
                assert_ne!(Architecture::X86_64.symbol(first), Architecture::X86_64.symbol(second));
            }
        }
    }
}
