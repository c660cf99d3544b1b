use takure::sys::NodeType;
use takure::takure::{
    hook_init, hook_release, property_destroy_hook, saves_scores, service_user, Attribute, Call,
    CardSession, Dormancy, HookEvent, HookRequest, HookState, HookStep, InitError, Lifecycle,
    LifecycleEvent, LifecycleRequest, BUFFER_SIZE, CARD_LIMIT, METHOD_LIMIT, NAME_LIMIT,
    NATIVE_FLAG, SNAPSHOT_FLAG,
};
use takure::types::game::PlayerData2Data;
use takure::version::Compatibility;

fn filled(text: &[u8]) -> HookEvent {
    let mut buffer = vec![0u8; BUFFER_SIZE as usize];
    buffer[..text.len()].copy_from_slice(text);
    HookEvent::Filled { code: 0, buffer }
}

fn asked(step: HookStep) -> (HookState, HookRequest) {
    match step {
        HookStep::Ask(state, request) => (state, request),
        HookStep::Forward => panic!("the call was forwarded"),
    }
}

fn forwarded(step: HookStep) -> bool {
    matches!(step, HookStep::Forward)
}

fn up_to_method(name: &[u8]) -> HookState {
    let (state, _) = asked(property_destroy_hook(true));
    let (state, _) = asked(state.step(HookEvent::Found(true)));
    let (state, request) = asked(state.step(filled(name)));
    assert!(matches!(request, HookRequest::ReadAttribute(Attribute::Method)));
    state
}

fn up_to_copy() -> HookState {
    let state = up_to_method(b"playerdata_2");
    let (state, _) = asked(state.step(filled(b"usergamedata_advanced")));
    let (state, _) = asked(state.step(HookEvent::Done));
    let (state, request) = asked(state.step(HookEvent::Size(16)));
    assert!(matches!(request, HookRequest::Copy { size: 16 }));
    state
}

#[test]
fn limits_and_flags_are_those_of_the_host() {
    assert_eq!(NAME_LIMIT, 32);
    assert_eq!(METHOD_LIMIT, 21);
    assert_eq!(CARD_LIMIT, 32);
    assert_eq!(BUFFER_SIZE, 256);
    assert_eq!(SNAPSHOT_FLAG, 0x800);
    assert_eq!(NATIVE_FLAG, 0x008);
    assert_eq!(Call::PlayerData.name(), "playerdata_2");
    assert_eq!(Call::CardManager.name(), "cardmng");
    assert_eq!(Call::PlayerData.path(), "/call/playerdata_2");
    assert_eq!(Call::CardManager.path(), "/call/cardmng");
    assert_eq!(Attribute::Method.path(), "method@");
    assert_eq!(Attribute::CardId.path(), "cardid@");
    assert_eq!(Attribute::Method.limit(), 21);
    assert_eq!(Attribute::CardId.limit(), 32);
    assert_eq!(Attribute::Method.node_type(), NodeType::NodeAttr);
    assert_eq!(Attribute::CardId.node_type(), NodeType::NodeAttr);
}

#[test]
fn a_call_without_a_property_is_forwarded_at_once() {
    assert!(forwarded(property_destroy_hook(false)));
    let (state, request) = asked(property_destroy_hook(true));
    assert!(matches!(state, HookState::SeekingPlayerData));
    assert!(matches!(request, HookRequest::Search(Call::PlayerData)));
    let (state, request) = asked(HookState::begin());
    assert!(matches!(state, HookState::SeekingPlayerData));
    assert!(matches!(request, HookRequest::Search(Call::PlayerData)));
}

#[test]
fn a_call_that_is_neither_is_passed_through() {
    let (state, _) = asked(property_destroy_hook(true));
    let (state, request) = asked(state.step(HookEvent::Found(false)));
    assert!(matches!(state, HookState::SeekingCardManager));
    assert!(matches!(request, HookRequest::Search(Call::CardManager)));
    let (state, request) = asked(state.step(HookEvent::Found(false)));
    assert!(matches!(state, HookState::ClearingError));
    assert!(matches!(request, HookRequest::ClearError));
    assert!(forwarded(state.step(HookEvent::Done)));

    let (state, _) = asked(property_destroy_hook(true));
    let (state, request) = asked(state.step(HookEvent::Found(true)));
    assert!(matches!(request, HookRequest::ReadName));
    assert!(forwarded(state.step(filled(b"eventlog"))));
}

#[test]
fn a_card_inquiry_updates_the_card() {
    let (state, _) = asked(property_destroy_hook(true));
    let (state, _) = asked(state.step(HookEvent::Found(false)));
    let (state, request) = asked(state.step(HookEvent::Found(true)));
    assert!(matches!(request, HookRequest::ReadName));
    let (state, request) = asked(state.step(filled(b"cardmng")));
    assert!(matches!(state, HookState::ReadingMethod(Call::CardManager)));
    assert!(matches!(request, HookRequest::ReadAttribute(Attribute::Method)));
    let (state, request) = asked(state.step(filled(b"inquire")));
    assert!(matches!(state, HookState::ReadingCardId));
    assert!(matches!(request, HookRequest::ReadAttribute(Attribute::CardId)));
    let (state, request) = asked(state.step(filled(b"E004010000000001")));
    assert!(matches!(state, HookState::Concluding));
    match request {
        HookRequest::RememberCard(card) => assert_eq!(card, "E004010000000001"),
        other => panic!("unexpected request {:?}", other),
    }
    assert!(forwarded(state.step(HookEvent::Done)));
}

#[test]
fn a_card_call_that_is_no_inquiry_is_passed_through() {
    assert!(forwarded(up_to_method(b"cardmng").step(filled(b"authpass"))));
    assert!(forwarded(up_to_method(b"cardmng").step(filled(b"usergamedata_advanced"))));
    assert!(forwarded(up_to_method(b"playerdata_2").step(filled(b"inquire"))));
    assert!(forwarded(up_to_method(b"playerdata_2").step(filled(b"usergamedata_recv"))));
}

#[test]
fn a_save_is_copied_under_the_flag_and_handed_on() {
    let state = up_to_method(b"playerdata_2");
    let (state, request) = asked(state.step(filled(b"usergamedata_advanced")));
    assert!(matches!(state, HookState::RaisingFlag));
    assert!(matches!(request, HookRequest::SetFlags { set: 0x800, clear: 0x008 }));
    let (state, request) = asked(state.step(HookEvent::Done));
    assert!(matches!(state, HookState::Measuring));
    assert!(matches!(request, HookRequest::QuerySize));
    let (state, request) = asked(state.step(HookEvent::Size(9)));
    assert!(matches!(state, HookState::Copying));
    assert!(matches!(request, HookRequest::Copy { size: 9 }));
    let payload = b"{\"a\":123}".to_vec();
    let (state, request) = asked(state.step(HookEvent::Filled { code: 9, buffer: payload }));
    assert!(matches!(request, HookRequest::SetFlags { set: 0x008, clear: 0x800 }));
    match &state {
        HookState::LoweringFlag(Some(text)) => assert_eq!(text, "{\"a\":123}"),
        other => panic!("unexpected state {:?}", other),
    }
    let (state, request) = asked(state.step(HookEvent::Done));
    assert!(matches!(state, HookState::Concluding));
    match request {
        HookRequest::Process(text) => assert_eq!(text, "{\"a\":123}"),
        other => panic!("unexpected request {:?}", other),
    }
    assert!(forwarded(state.step(HookEvent::Done)));
}

#[test]
fn failed_reads_pass_the_call_through() {
    let failure = || HookEvent::Filled { code: -1, buffer: b"cardmng".to_vec() };
    let (state, _) = asked(property_destroy_hook(true));
    let (state, _) = asked(state.step(HookEvent::Found(true)));
    assert!(forwarded(state.step(failure())));
    assert!(forwarded(up_to_method(b"cardmng").step(failure())));
    let (state, _) = asked(up_to_method(b"cardmng").step(filled(b"inquire")));
    assert!(forwarded(state.step(HookEvent::Filled { code: -5, buffer: b"E004".to_vec() })));
    let (state, _) = asked(up_to_method(b"cardmng").step(filled(b"inquire")));
    assert!(forwarded(state.step(HookEvent::Filled { code: 0, buffer: vec![0xff, 0xfe] })));
    let (state, _) = asked(property_destroy_hook(true));
    let (state, _) = asked(state.step(HookEvent::Found(true)));
    assert!(forwarded(state.step(HookEvent::Filled { code: 0, buffer: vec![0xc3] })));
}

#[test]
fn the_flags_are_put_back_after_every_failure() {
    let restore = |step: HookStep| {
        let (state, request) = asked(step);
        assert!(matches!(request, HookRequest::SetFlags { set: 0x008, clear: 0x800 }));
        assert!(matches!(state, HookState::LoweringFlag(None)));
        assert!(forwarded(state.step(HookEvent::Done)));
    };
    let raised = || asked(up_to_method(b"playerdata_2").step(filled(b"usergamedata_advanced"))).0;
    restore(raised().step(HookEvent::Found(true)));
    let measuring = || asked(raised().step(HookEvent::Done)).0;
    restore(measuring().step(HookEvent::Size(-1)));
    restore(measuring().step(HookEvent::Size(i32::MIN)));
    restore(measuring().step(HookEvent::Done));
    restore(up_to_copy().step(HookEvent::Filled { code: -1, buffer: b"{}".to_vec() }));
    restore(up_to_copy().step(HookEvent::Size(3)));

    let (state, request) =
        asked(up_to_copy().step(HookEvent::Filled { code: 2, buffer: vec![0xff, 0xff] }));
    assert!(matches!(request, HookRequest::SetFlags { set: 0x008, clear: 0x800 }));
    assert!(matches!(state, HookState::LoweringFlag(None)));
    assert!(forwarded(state.step(HookEvent::Done)));
}

#[test]
fn an_empty_property_is_copied_too() {
    let state = asked(up_to_method(b"playerdata_2").step(filled(b"usergamedata_advanced"))).0;
    let state = asked(state.step(HookEvent::Done)).0;
    let (state, request) = asked(state.step(HookEvent::Size(0)));
    assert!(matches!(request, HookRequest::Copy { size: 0 }));
    let (state, _) = asked(state.step(HookEvent::Filled { code: 0, buffer: Vec::new() }));
    let (_, request) = asked(state.step(HookEvent::Done));
    match request {
        HookRequest::Process(text) => assert_eq!(text, ""),
        other => panic!("unexpected request {:?}", other),
    }
}

#[test]
fn the_method_is_read_up_to_its_limit() {
    let state = up_to_method(b"playerdata_2");
    let (state, _) = asked(state.step(filled(b"usergamedata_advanced_more")));
    assert!(matches!(state, HookState::RaisingFlag));
    let (state, _) = asked(property_destroy_hook(true));
    let (state, _) = asked(state.step(HookEvent::Found(true)));
    let long = b"playerdata_2\0\0\0\0\0\0\0\0\0\0\0\0\0\0\0\0\0\0\0\0X";
    let (state, _) = asked(state.step(filled(long)));
    assert!(matches!(state, HookState::ReadingMethod(Call::PlayerData)));
}

#[test]
fn every_run_ends_in_a_forward() {
    let answers = || {
        vec![
            HookEvent::Found(true),
            HookEvent::Found(false),
            HookEvent::Done,
            HookEvent::Size(4),
            HookEvent::Size(-4),
            filled(b"playerdata_2"),
            filled(b"cardmng"),
            filled(b"inquire"),
            filled(b"usergamedata_advanced"),
            HookEvent::Filled { code: -1, buffer: Vec::new() },
        ]
    };
    let mut frontier = vec![(asked(property_destroy_hook(true)).0, 0usize)];
    let mut ended = 0usize;
    while let Some((state, depth)) = frontier.pop() {
        assert!(depth < 10);
        for answer in answers() {
            match state.clone().step(answer) {
                HookStep::Forward => ended += 1,
                HookStep::Ask(next, _) => frontier.push((next, depth + 1)),
            }
        }
    }
    assert!(ended > 0);
}

#[test]
fn the_session_keeps_the_last_card() {
    let mut session = CardSession::new();
    assert_eq!(session.current(), None);
    session.identify("CARD1".to_string());
    assert_eq!(session.current(), Some("CARD1"));
    session.identify("CARD2".to_string());
    assert_eq!(session.current(), Some("CARD2"));
    let copy = session.clone();
    assert_eq!(copy.current(), Some("CARD2"));
}

#[test]
fn a_card_set_under_the_lock_is_seen_by_the_next_reader() {
    let session = std::sync::Arc::new(std::sync::RwLock::new(CardSession::new()));
    {
        let writer = std::sync::Arc::clone(&session);
        let mut guard = writer.write().unwrap();
        guard.identify("CARD1".to_string());
    }
    let reader = std::sync::Arc::clone(&session);
    let guard = reader.read().unwrap();
    assert_eq!(guard.current(), Some("CARD1"));
}

#[test]
fn only_a_user_save_carries_scores() {
    let mut data = PlayerData2Data {
        mode: "usersave".to_string(),
        ref_id: String::new(),
        isgameover: false,
        note: Vec::new(),
    };
    assert!(saves_scores(&data));
    data.mode = "userload".to_string();
    assert!(!saves_scores(&data));
    data.mode = String::new();
    assert!(!saves_scores(&data));
}

#[test]
fn the_user_is_read_from_the_body_of_the_reply() {
    let reply: serde_json::Value =
        serde_json::from_str("{\"success\":true,\"body\":{\"whoami\":42}}").unwrap();
    assert_eq!(service_user(&reply), Some(42));
    let reply: serde_json::Value = serde_json::from_str("{\"body\":{\"whoami\":null}}").unwrap();
    assert_eq!(service_user(&reply), None);
    let reply: serde_json::Value = serde_json::from_str("{\"body\":{\"whoami\":-3}}").unwrap();
    assert_eq!(service_user(&reply), None);
    let reply: serde_json::Value = serde_json::from_str("{\"body\":{\"whoami\":\"42\"}}").unwrap();
    assert_eq!(service_user(&reply), None);
    let reply: serde_json::Value = serde_json::from_str("{\"whoami\":42}").unwrap();
    assert_eq!(service_user(&reply), None);
    let reply: serde_json::Value = serde_json::from_str("[1,2]").unwrap();
    assert_eq!(service_user(&reply), None);
    assert_eq!(service_user(&serde_json::Value::Null), None);
}

#[test]
fn loading_goes_through_the_gate_to_the_install() {
    let (state, request) = hook_init(Lifecycle::new(), true, false);
    assert_eq!(state, Lifecycle::Identifying { local: false });
    assert_eq!(request, Some(LifecycleRequest::Identify));
    let (state, request) = state.step(LifecycleEvent::Identified(Compatibility::Supported));
    assert_eq!(state, Lifecycle::Greeting);
    assert_eq!(request, Some(LifecycleRequest::Greet));
    let (state, request) = state.step(LifecycleEvent::Greeted(Some(7)));
    assert_eq!(state, Lifecycle::Installing { user: Some(7) });
    assert_eq!(request, Some(LifecycleRequest::Install));
    let (state, request) = state.step(LifecycleEvent::Installed(true));
    assert_eq!(state, Lifecycle::Active { user: Some(7) });
    assert_eq!(request, None);
    assert_eq!(state.failure(), None);
}

#[test]
fn a_local_module_does_not_greet() {
    let (state, _) = Lifecycle::new().step(LifecycleEvent::Load { enabled: true, local: true });
    assert_eq!(state, Lifecycle::Identifying { local: true });
    let (state, request) = state.step(LifecycleEvent::Identified(Compatibility::Unknown));
    assert_eq!(state, Lifecycle::Installing { user: None });
    assert_eq!(request, Some(LifecycleRequest::Install));
    let (state, _) = state.step(LifecycleEvent::Installed(true));
    assert_eq!(state, Lifecycle::Active { user: None });
}

#[test]
fn an_unknown_host_is_let_through() {
    let identifying = Lifecycle::Identifying { local: false };
    assert_eq!(
        identifying.step(LifecycleEvent::Identified(Compatibility::Unknown)),
        (Lifecycle::Greeting, Some(LifecycleRequest::Greet))
    );
    assert_eq!(
        identifying.step(LifecycleEvent::Identified(Compatibility::Unsupported)),
        (Lifecycle::Dormant(Dormancy::Unsupported), None)
    );
    let local = Lifecycle::Identifying { local: true };
    assert_eq!(
        local.step(LifecycleEvent::Identified(Compatibility::Unsupported)),
        (Lifecycle::Dormant(Dormancy::Unsupported), None)
    );
}

#[test]
fn a_disabled_module_stays_dormant() {
    let (state, request) = hook_init(Lifecycle::new(), false, false);
    assert_eq!(state, Lifecycle::Dormant(Dormancy::Disabled));
    assert_eq!(request, None);
    assert_eq!(hook_release(state), (state, None));
    assert_eq!(state.step(LifecycleEvent::Installed(true)), (state, None));
    assert_eq!(state.failure(), None);
}

#[test]
fn failures_of_loading_are_fatal() {
    let greeting = Lifecycle::Greeting;
    let (state, request) = greeting.step(LifecycleEvent::Unreachable);
    assert_eq!(state, Lifecycle::Failed(InitError::ServiceUnreachable));
    assert_eq!(request, None);
    assert_eq!(state.failure(), Some(InitError::ServiceUnreachable));
    let (state, request) = greeting.step(LifecycleEvent::Greeted(None));
    assert_eq!(state, Lifecycle::Failed(InitError::UnknownUser));
    assert_eq!(request, None);
    let installing = Lifecycle::Installing { user: Some(1) };
    let (state, request) = installing.step(LifecycleEvent::Installed(false));
    assert_eq!(state, Lifecycle::Failed(InitError::InstallFailed));
    assert_eq!(request, None);
    assert_eq!(hook_release(state), (state, None));
    assert_eq!(
        hook_init(state, true, true),
        (Lifecycle::Identifying { local: true }, Some(LifecycleRequest::Identify))
    );
}

#[test]
fn install_is_idempotent_and_remove_needs_an_install() {
    let active = Lifecycle::Active { user: Some(3) };
    assert_eq!(hook_init(active, true, false), (active, None));
    assert_eq!(hook_init(active, false, true), (active, None));
    assert_eq!(
        hook_release(active),
        (Lifecycle::Removing { user: Some(3) }, Some(LifecycleRequest::Remove))
    );
    let removing = Lifecycle::Removing { user: Some(3) };
    assert_eq!(hook_release(removing), (removing, None));
    assert_eq!(hook_init(removing, true, false), (removing, None));
    assert_eq!(removing.step(LifecycleEvent::Removed(true)), (Lifecycle::Removed, None));
    assert_eq!(removing.step(LifecycleEvent::Removed(false)), (active, None));
    assert_eq!(removing.step(LifecycleEvent::Removed(false)).0.failure(), None);
    for idle in [
        Lifecycle::Unloaded,
        Lifecycle::Removed,
        Lifecycle::Greeting,
        Lifecycle::Identifying { local: false },
        Lifecycle::Installing { user: None },
        Lifecycle::Dormant(Dormancy::Unsupported),
    ] {
        assert_eq!(hook_release(idle), (idle, None));
        assert_eq!(idle.step(LifecycleEvent::Unload), (idle, None));
    }
    assert_eq!(
        hook_init(Lifecycle::Removed, true, false),
        (Lifecycle::Identifying { local: false }, Some(LifecycleRequest::Identify))
    );
}

#[test]
fn answers_to_no_request_change_nothing() {
    let active = Lifecycle::Active { user: None };
    assert_eq!(active.step(LifecycleEvent::Installed(false)), (active, None));
    assert_eq!(active.step(LifecycleEvent::Greeted(Some(1))), (active, None));
    assert_eq!(active.step(LifecycleEvent::Removed(true)), (active, None));
    let unloaded = Lifecycle::Unloaded;
    assert_eq!(unloaded.step(LifecycleEvent::Installed(true)), (unloaded, None));
    assert_eq!(
        unloaded.step(LifecycleEvent::Identified(Compatibility::Supported)),
        (unloaded, None)
    );
    let greeting = Lifecycle::Greeting;
    assert_eq!(greeting.step(LifecycleEvent::Installed(true)), (greeting, None));
}
