//! The hook itself: what it remembers between calls and what it decides.

use crate::json::{field, json_field, json_member};
use crate::sys::NodeType;
use crate::text::{decode_text, field_text, read_field, same_text, utf8_decoded};
use crate::types::game::PlayerData2Data;
use crate::version::Compatibility;
use vstd::prelude::*;
use vstd::string::*;

verus! {

/// The card that was identified last. There is at most one at any time; a
/// new one takes the place of the one before.
#[derive(Debug, Clone)]
pub struct CardSession {
    card: Option<String>,
}

impl View for CardSession {
    type V = Option<Seq<char>>;

    closed spec fn view(&self) -> Option<Seq<char>> {
        match self.card {
            Some(card) => Some(card@),
            None => None,
        }
    }
}

impl CardSession {
    /// A session in which no card has been identified yet.
    pub fn new() -> (session: Self)
        ensures
            session@ is None,
    {
        CardSession { card: None }
    }

    /// Remembers `card` as the current card, in place of any card before it.
    pub fn identify(&mut self, card: String)
        ensures
            final(self)@ == Some(card@),
    {
        self.card = Some(card);
    }

    /// The current card, if one has been identified.
    pub fn current(&self) -> (card: Option<&str>)
        ensures
            card is Some <==> self@ is Some,
            card matches Some(id) ==> self@ == Some(id@),
    {
        match &self.card {
            Some(card) => Some(card.as_str()),
            None => None,
        }
    }
}

/// How many bytes of its buffer the name of a call takes up at most.
pub const NAME_LIMIT: usize = 32;

/// How many bytes of its buffer the method of a call takes up at most.
pub const METHOD_LIMIT: usize = 21;

/// How many bytes of its buffer a card id takes up at most.
pub const CARD_LIMIT: usize = 32;

/// The size of the buffer that a name or an attribute is read into.
pub const BUFFER_SIZE: u32 = 256;

/// The flag under which the host hands a property out whole.
pub const SNAPSHOT_FLAG: u32 = 0x800;

/// The flag that the host runs with, and that a snapshot puts aside.
pub const NATIVE_FLAG: u32 = 0x008;

/// The calls that the hook looks at.
#[derive(Debug, Clone, Copy, PartialEq, Eq, Structural)]
pub enum Call {
    /// The call that saves the data of a player.
    PlayerData,
    /// The call that manages cards.
    CardManager,
}

impl Call {
    /// The name of the call.
    pub open spec fn spec_name(self) -> Seq<char> {
        match self {
            Call::PlayerData => "playerdata_2"@,
            Call::CardManager => "cardmng"@,
        }
    }

    /// The name of the call.
    pub fn name(&self) -> (name: &'static str)
        ensures
            name@ == self.spec_name(),
    {
        match self {
            Call::PlayerData => "playerdata_2",
            Call::CardManager => "cardmng",
        }
    }

    /// The path of the call's node in a property tree.
    pub fn path(&self) -> (path: &'static str)
        ensures
            path@ == "/call/"@ + self.spec_name(),
    {
        proof {
            reveal_strlit("/call/");
            reveal_strlit("playerdata_2");
            reveal_strlit("cardmng");
            reveal_strlit("/call/playerdata_2");
            reveal_strlit("/call/cardmng");
        }
        match self {
            Call::PlayerData => {
                assert("/call/playerdata_2"@ =~= "/call/"@ + "playerdata_2"@);
                "/call/playerdata_2"
            },
            Call::CardManager => {
                assert("/call/cardmng"@ =~= "/call/"@ + "cardmng"@);
                "/call/cardmng"
            },
        }
    }
}

/// The attributes of a call that the hook reads.
#[derive(Debug, Clone, Copy, PartialEq, Eq, Structural)]
pub enum Attribute {
    /// The method of the call.
    Method,
    /// The id of the card that the call is about.
    CardId,
}

impl Attribute {
    /// The path of the attribute below the call's node.
    pub fn path(&self) -> (path: &'static str)
        ensures
            path@ == match self {
                Attribute::Method => "method@"@,
                Attribute::CardId => "cardid@"@,
            },
    {
        match self {
            Attribute::Method => "method@",
            Attribute::CardId => "cardid@",
        }
    }

    /// The kind of node that an attribute is read as.
    pub fn node_type(&self) -> (kind: NodeType)
        ensures
            kind == NodeType::NodeAttr,
    {
        NodeType::NodeAttr
    }

    /// How many bytes of its buffer the attribute takes up at most.
    pub open spec fn spec_limit(self) -> usize {
        match self {
            Attribute::Method => METHOD_LIMIT,
            Attribute::CardId => CARD_LIMIT,
        }
    }

    /// How many bytes of its buffer the attribute takes up at most.
    pub fn limit(&self) -> (limit: usize)
        ensures
            limit == self.spec_limit(),
    {
        match self {
            Attribute::Method => METHOD_LIMIT,
            Attribute::CardId => CARD_LIMIT,
        }
    }
}

/// What the hook asks of the host, one thing at a time.
#[derive(Debug, Clone)]
pub enum HookRequest {
    /// Look for the node of a call.
    Search(Call),
    /// Clear the error that a search without a find has left.
    ClearError,
    /// Read the name of the node that was found, into a buffer of
    /// `BUFFER_SIZE` bytes.
    ReadName,
    /// Read an attribute of the node that was found, into a buffer of
    /// `BUFFER_SIZE` bytes.
    ReadAttribute(Attribute),
    /// Set some flags of the property and clear others.
    SetFlags { set: u32, clear: u32 },
    /// Ask how many bytes the property takes when written out.
    QuerySize,
    /// Write the property out into a buffer of `size` bytes.
    Copy { size: u32 },
    /// Remember the card as the current one.
    RememberCard(String),
    /// Decode the payload and handle the record that it holds.
    Process(String),
}

/// What a `HookRequest` holds.
pub enum HookRequestView {
    Search(Call),
    ClearError,
    ReadName,
    ReadAttribute(Attribute),
    SetFlags { set: u32, clear: u32 },
    QuerySize,
    Copy { size: u32 },
    RememberCard(Seq<char>),
    Process(Seq<char>),
}

impl View for HookRequest {
    type V = HookRequestView;

    open spec fn view(&self) -> HookRequestView {
        match self {
            HookRequest::Search(call) => HookRequestView::Search(*call),
            HookRequest::ClearError => HookRequestView::ClearError,
            HookRequest::ReadName => HookRequestView::ReadName,
            HookRequest::ReadAttribute(attribute) => HookRequestView::ReadAttribute(*attribute),
            HookRequest::SetFlags { set, clear } => HookRequestView::SetFlags {
                set: *set,
                clear: *clear,
            },
            HookRequest::QuerySize => HookRequestView::QuerySize,
            HookRequest::Copy { size } => HookRequestView::Copy { size: *size },
            HookRequest::RememberCard(card) => HookRequestView::RememberCard(card@),
            HookRequest::Process(payload) => HookRequestView::Process(payload@),
        }
    }
}

/// The request that raises the snapshot flag.
pub open spec fn raise_flag() -> HookRequestView {
    HookRequestView::SetFlags { set: SNAPSHOT_FLAG, clear: NATIVE_FLAG }
}

/// The request that puts the flags back as they were.
pub open spec fn restore_flag() -> HookRequestView {
    HookRequestView::SetFlags { set: NATIVE_FLAG, clear: SNAPSHOT_FLAG }
}

/// What the host answers to a request.
#[derive(Debug, Clone)]
pub enum HookEvent {
    /// A search has ended: the node was found, or not.
    Found(bool),
    /// A name, an attribute or the whole property has been written into a
    /// buffer. A negative code tells of a failure.
    Filled { code: i32, buffer: Vec<u8> },
    /// The size of the property; a negative one tells of a failure.
    Size(i32),
    /// A request that has nothing to answer has been carried out.
    Done,
}

/// What a `HookEvent` holds.
pub enum HookEventView {
    Found(bool),
    Filled { code: i32, buffer: Seq<u8> },
    Size(i32),
    Done,
}

impl View for HookEvent {
    type V = HookEventView;

    open spec fn view(&self) -> HookEventView {
        match self {
            HookEvent::Found(found) => HookEventView::Found(*found),
            HookEvent::Filled { code, buffer } => HookEventView::Filled {
                code: *code,
                buffer: buffer@,
            },
            HookEvent::Size(size) => HookEventView::Size(*size),
            HookEvent::Done => HookEventView::Done,
        }
    }
}

/// Where the hook stands in an intercepted call: the request that it has
/// made last, and what it has to keep until the answer comes.
#[derive(Debug, Clone)]
pub enum HookState {
    /// Looking for the player-data call.
    SeekingPlayerData,
    /// Looking for the card-management call.
    SeekingCardManager,
    /// Clearing the error that the searches have left.
    ClearingError,
    /// Reading the name of the node that was found.
    ReadingName,
    /// Reading the method of the call.
    ReadingMethod(Call),
    /// Reading the id of the card.
    ReadingCardId,
    /// Raising the snapshot flag.
    RaisingFlag,
    /// Asking for the size of the property, under the snapshot flag.
    Measuring,
    /// Copying the property, under the snapshot flag.
    Copying,
    /// Putting the flags back; with the payload, where one was copied.
    LoweringFlag(Option<String>),
    /// Waiting for the last request to be carried out.
    Concluding,
}

/// What a `HookState` holds.
pub enum HookStateView {
    SeekingPlayerData,
    SeekingCardManager,
    ClearingError,
    ReadingName,
    ReadingMethod(Call),
    ReadingCardId,
    RaisingFlag,
    Measuring,
    Copying,
    LoweringFlag(Option<Seq<char>>),
    Concluding,
}

impl View for HookState {
    type V = HookStateView;

    open spec fn view(&self) -> HookStateView {
        match self {
            HookState::SeekingPlayerData => HookStateView::SeekingPlayerData,
            HookState::SeekingCardManager => HookStateView::SeekingCardManager,
            HookState::ClearingError => HookStateView::ClearingError,
            HookState::ReadingName => HookStateView::ReadingName,
            HookState::ReadingMethod(call) => HookStateView::ReadingMethod(*call),
            HookState::ReadingCardId => HookStateView::ReadingCardId,
            HookState::RaisingFlag => HookStateView::RaisingFlag,
            HookState::Measuring => HookStateView::Measuring,
            HookState::Copying => HookStateView::Copying,
            HookState::LoweringFlag(payload) => HookStateView::LoweringFlag(
                match payload {
                    Some(text) => Some(text@),
                    None => None,
                },
            ),
            HookState::Concluding => HookStateView::Concluding,
        }
    }
}

/// What the hook does next.
#[derive(Debug, Clone)]
pub enum HookStep {
    /// Make the request, and come back with the answer.
    Ask(HookState, HookRequest),
    /// Invoke the host's own function and return what it returns. This ends
    /// the call: there is no state to come back with.
    Forward,
}

/// What a `HookStep` holds.
pub enum HookStepView {
    Ask(HookStateView, HookRequestView),
    Forward,
}

impl View for HookStep {
    type V = HookStepView;

    open spec fn view(&self) -> HookStepView {
        match self {
            HookStep::Ask(state, request) => HookStepView::Ask(state@, request@),
            HookStep::Forward => HookStepView::Forward,
        }
    }
}

/// The step that gives up a snapshot: the flags are put back, and nothing
/// is kept.
pub open spec fn abandon_snapshot() -> HookStepView {
    HookStepView::Ask(HookStateView::LoweringFlag(None), restore_flag())
}

/// What the hook does when the search for the player-data call has ended.
pub open spec fn after_player_data_search(event: HookEventView) -> HookStepView {
    match event {
        HookEventView::Found(true) => HookStepView::Ask(
            HookStateView::ReadingName,
            HookRequestView::ReadName,
        ),
        HookEventView::Found(false) => HookStepView::Ask(
            HookStateView::SeekingCardManager,
            HookRequestView::Search(Call::CardManager),
        ),
        _ => HookStepView::Forward,
    }
}

/// What the hook does when the search for the card-management call has
/// ended.
pub open spec fn after_card_manager_search(event: HookEventView) -> HookStepView {
    match event {
        HookEventView::Found(true) => HookStepView::Ask(
            HookStateView::ReadingName,
            HookRequestView::ReadName,
        ),
        HookEventView::Found(false) => HookStepView::Ask(
            HookStateView::ClearingError,
            HookRequestView::ClearError,
        ),
        _ => HookStepView::Forward,
    }
}

/// The text that an answer carries in its buffer, read up to `limit` bytes;
/// nothing where the answer tells of a failure or carries no text.
pub open spec fn answered_text(event: HookEventView, limit: nat) -> Option<Seq<char>> {
    match event {
        HookEventView::Filled { code, buffer } => if code < 0 {
            None
        } else {
            field_text(buffer, limit)
        },
        _ => None,
    }
}

/// What the hook does when the name of the node has been read.
pub open spec fn after_name(event: HookEventView) -> HookStepView {
    match answered_text(event, NAME_LIMIT as nat) {
        Some(name) => if name == Call::PlayerData.spec_name() {
            HookStepView::Ask(
                HookStateView::ReadingMethod(Call::PlayerData),
                HookRequestView::ReadAttribute(Attribute::Method),
            )
        } else if name == Call::CardManager.spec_name() {
            HookStepView::Ask(
                HookStateView::ReadingMethod(Call::CardManager),
                HookRequestView::ReadAttribute(Attribute::Method),
            )
        } else {
            HookStepView::Forward
        },
        None => HookStepView::Forward,
    }
}

/// What the hook does when the method of a call has been read: a card
/// inquiry has its card id read, a save of player data has the property
/// copied under the snapshot flag, and every other call is let through.
pub open spec fn after_method(call: Call, event: HookEventView) -> HookStepView {
    match answered_text(event, METHOD_LIMIT as nat) {
        Some(method) => match call {
            Call::CardManager => if method == "inquire"@ {
                HookStepView::Ask(
                    HookStateView::ReadingCardId,
                    HookRequestView::ReadAttribute(Attribute::CardId),
                )
            } else {
                HookStepView::Forward
            },
            Call::PlayerData => if method == "usergamedata_advanced"@ {
                HookStepView::Ask(HookStateView::RaisingFlag, raise_flag())
            } else {
                HookStepView::Forward
            },
        },
        None => HookStepView::Forward,
    }
}

/// What the hook does when the card id has been read.
pub open spec fn after_card_id(event: HookEventView) -> HookStepView {
    match answered_text(event, CARD_LIMIT as nat) {
        Some(card) => HookStepView::Ask(
            HookStateView::Concluding,
            HookRequestView::RememberCard(card),
        ),
        None => HookStepView::Forward,
    }
}

/// What the hook does when the snapshot flag has been raised.
pub open spec fn after_raise(event: HookEventView) -> HookStepView {
    match event {
        HookEventView::Done => HookStepView::Ask(
            HookStateView::Measuring,
            HookRequestView::QuerySize,
        ),
        _ => abandon_snapshot(),
    }
}

/// What the hook does when the size of the property is known.
pub open spec fn after_size(event: HookEventView) -> HookStepView {
    match event {
        HookEventView::Size(size) => if size < 0 {
            abandon_snapshot()
        } else {
            HookStepView::Ask(HookStateView::Copying, HookRequestView::Copy { size: size as u32 })
        },
        _ => abandon_snapshot(),
    }
}

/// What the hook does when the property has been copied: in every case the
/// flags are put back; the payload is kept where the copy succeeded and is
/// UTF-8 text.
pub open spec fn after_copy(event: HookEventView) -> HookStepView {
    match event {
        HookEventView::Filled { code, buffer } => if code < 0 {
            abandon_snapshot()
        } else {
            HookStepView::Ask(HookStateView::LoweringFlag(utf8_decoded(buffer)), restore_flag())
        },
        _ => abandon_snapshot(),
    }
}

/// What the hook does when the flags have been put back.
pub open spec fn after_restore(payload: Option<Seq<char>>, event: HookEventView) -> HookStepView {
    match (payload, event) {
        (Some(text), HookEventView::Done) => HookStepView::Ask(
            HookStateView::Concluding,
            HookRequestView::Process(text),
        ),
        _ => HookStepView::Forward,
    }
}

/// What the hook does in a state when an answer comes. An answer that tells
/// of a failure, or that is not the answer to the request made, lets the
/// call through, after the flags have been put back where they were changed.
pub open spec fn transition(state: HookStateView, event: HookEventView) -> HookStepView {
    match state {
        HookStateView::SeekingPlayerData => after_player_data_search(event),
        HookStateView::SeekingCardManager => after_card_manager_search(event),
        HookStateView::ClearingError => HookStepView::Forward,
        HookStateView::ReadingName => after_name(event),
        HookStateView::ReadingMethod(call) => after_method(call, event),
        HookStateView::ReadingCardId => after_card_id(event),
        HookStateView::RaisingFlag => after_raise(event),
        HookStateView::Measuring => after_size(event),
        HookStateView::Copying => after_copy(event),
        HookStateView::LoweringFlag(payload) => after_restore(payload, event),
        HookStateView::Concluding => HookStepView::Forward,
    }
}

/// The text that an answer carries in its buffer.
fn read_answer(event: &HookEvent, limit: usize) -> (text: Option<String>)
    ensures
        text is Some <==> answered_text(event@, limit as nat) is Some,
        text matches Some(found) ==> Some(found@) == answered_text(event@, limit as nat),
{
    match event {
        HookEvent::Filled { code, buffer } => if *code < 0 {
            None
        } else {
            read_field(buffer.as_slice(), limit)
        },
        _ => None,
    }
}

/// The step that gives up a snapshot.
fn abandon() -> (step: HookStep)
    ensures
        step@ == abandon_snapshot(),
{
    HookStep::Ask(
        HookState::LoweringFlag(None),
        HookRequest::SetFlags { set: NATIVE_FLAG, clear: SNAPSHOT_FLAG },
    )
}

impl HookState {
    /// The first step of an intercepted call: the search for the
    /// player-data call.
    pub fn begin() -> (step: HookStep)
        ensures
            step@ == HookStepView::Ask(
                HookStateView::SeekingPlayerData,
                HookRequestView::Search(Call::PlayerData),
            ),
    {
        HookStep::Ask(HookState::SeekingPlayerData, HookRequest::Search(Call::PlayerData))
    }

    /// The next step, given the host's answer to the request made last.
    pub fn step(self, event: HookEvent) -> (step: HookStep)
        ensures
            step@ == transition(self@, event@),
    {
        match self {
            HookState::SeekingPlayerData => match event {
                HookEvent::Found(true) => HookStep::Ask(
                    HookState::ReadingName,
                    HookRequest::ReadName,
                ),
                HookEvent::Found(false) => HookStep::Ask(
                    HookState::SeekingCardManager,
                    HookRequest::Search(Call::CardManager),
                ),
                _ => HookStep::Forward,
            },
            HookState::SeekingCardManager => match event {
                HookEvent::Found(true) => HookStep::Ask(
                    HookState::ReadingName,
                    HookRequest::ReadName,
                ),
                HookEvent::Found(false) => HookStep::Ask(
                    HookState::ClearingError,
                    HookRequest::ClearError,
                ),
                _ => HookStep::Forward,
            },
            HookState::ClearingError => HookStep::Forward,
            HookState::ReadingName => match read_answer(&event, NAME_LIMIT) {
                Some(name) => if same_text(name.as_str(), Call::PlayerData.name()) {
                    HookStep::Ask(
                        HookState::ReadingMethod(Call::PlayerData),
                        HookRequest::ReadAttribute(Attribute::Method),
                    )
                } else if same_text(name.as_str(), Call::CardManager.name()) {
                    HookStep::Ask(
                        HookState::ReadingMethod(Call::CardManager),
                        HookRequest::ReadAttribute(Attribute::Method),
                    )
                } else {
                    HookStep::Forward
                },
                None => HookStep::Forward,
            },
            HookState::ReadingMethod(call) => match read_answer(&event, METHOD_LIMIT) {
                Some(method) => match call {
                    Call::CardManager => if same_text(method.as_str(), "inquire") {
                        HookStep::Ask(
                            HookState::ReadingCardId,
                            HookRequest::ReadAttribute(Attribute::CardId),
                        )
                    } else {
                        HookStep::Forward
                    },
                    Call::PlayerData => if same_text(method.as_str(), "usergamedata_advanced") {
                        HookStep::Ask(
                            HookState::RaisingFlag,
                            HookRequest::SetFlags { set: SNAPSHOT_FLAG, clear: NATIVE_FLAG },
                        )
                    } else {
                        HookStep::Forward
                    },
                },
                None => HookStep::Forward,
            },
            HookState::ReadingCardId => match read_answer(&event, CARD_LIMIT) {
                Some(card) => HookStep::Ask(HookState::Concluding, HookRequest::RememberCard(card)),
                None => HookStep::Forward,
            },
            HookState::RaisingFlag => match event {
                HookEvent::Done => HookStep::Ask(HookState::Measuring, HookRequest::QuerySize),
                _ => abandon(),
            },
            HookState::Measuring => match event {
                HookEvent::Size(size) => if size < 0 {
                    abandon()
                } else {
                    HookStep::Ask(HookState::Copying, HookRequest::Copy { size: size as u32 })
                },
                _ => abandon(),
            },
            HookState::Copying => match event {
                HookEvent::Filled { code, buffer } => if code < 0 {
                    abandon()
                } else {
                    HookStep::Ask(
                        HookState::LoweringFlag(decode_text(buffer.as_slice())),
                        HookRequest::SetFlags { set: NATIVE_FLAG, clear: SNAPSHOT_FLAG },
                    )
                },
                _ => abandon(),
            },
            HookState::LoweringFlag(payload) => match (payload, event) {
                (Some(text), HookEvent::Done) => HookStep::Ask(
                    HookState::Concluding,
                    HookRequest::Process(text),
                ),
                _ => HookStep::Forward,
            },
            HookState::Concluding => HookStep::Forward,
        }
    }
}

/// How many requests an intercepted call can still make, at most, once it
/// stands in a state.
pub open spec fn requests_left(state: HookStateView) -> nat {
    match state {
        HookStateView::SeekingPlayerData => 9,
        HookStateView::SeekingCardManager => 8,
        HookStateView::ReadingName => 7,
        HookStateView::ReadingMethod(_) => 6,
        HookStateView::ReadingCardId => 1,
        HookStateView::RaisingFlag => 5,
        HookStateView::Measuring => 4,
        HookStateView::Copying => 3,
        HookStateView::LoweringFlag(_) => 1,
        HookStateView::ClearingError => 0,
        HookStateView::Concluding => 0,
    }
}

/// `true` in the states in which the snapshot flag is raised, or about to
/// be: from the request that raises it up to the request that puts the flags
/// back.
pub open spec fn holds_snapshot_flag(state: HookStateView) -> bool {
    state is RaisingFlag || state is Measuring || state is Copying
}

/// Every intercepted call is let through to the host's own function, and
/// once only: whatever the host answers, a step either forwards the call,
/// which leaves no state to go on from, or makes a request from which fewer
/// requests are left than before.
pub proof fn law_every_call_is_forwarded(state: HookStateView, event: HookEventView)
    ensures
        match transition(state, event) {
            HookStepView::Forward => true,
            HookStepView::Ask(next, _) => requests_left(next) < requests_left(state),
        },
{
}

/// The place of the answer upon which a call is forwarded, when the host's
/// answers come in the given order; nothing if the answers run out first.
pub open spec fn forwarded_at(state: HookStateView, answers: Seq<HookEventView>) -> Option<nat>
    decreases answers.len(),
{
    if answers.len() == 0 {
        None
    } else {
        match transition(state, answers[0]) {
            HookStepView::Forward => Some(0),
            HookStepView::Ask(next, _) => match forwarded_at(next, answers.skip(1)) {
                Some(place) => Some(place + 1),
                None => None,
            },
        }
    }
}

/// Whatever the host answers, in whatever order, a call is forwarded before
/// it has made more requests than were left to it: no run of answers keeps
/// a call from the host's own function.
pub proof fn law_every_run_ends_in_a_forward(state: HookStateView, answers: Seq<HookEventView>)
    requires
        answers.len() > requests_left(state),
    ensures
        forwarded_at(state, answers) matches Some(place) && place <= requests_left(state),
    decreases answers.len(),
{
    law_every_call_is_forwarded(state, answers[0]);
    match transition(state, answers[0]) {
        HookStepView::Forward => {},
        HookStepView::Ask(next, _) => {
            law_every_run_ends_in_a_forward(next, answers.skip(1));
        },
    }
}

/// A call that has made its last request is forwarded whatever the answer.
pub proof fn law_last_request_is_followed_by_forward(state: HookStateView, event: HookEventView)
    requires
        requests_left(state) == 0,
    ensures
        transition(state, event) is Forward,
{
}

/// Once the snapshot flag is raised the call is not forwarded before the
/// flags are put back: whatever the host answers, failures included, the
/// next step keeps the flag for a further request or asks for the flags to
/// be put back.
pub proof fn law_flags_are_put_back(state: HookStateView, event: HookEventView)
    requires
        holds_snapshot_flag(state),
    ensures
        transition(state, event) matches HookStepView::Ask(next, request) && (holds_snapshot_flag(
            next,
        ) || (next is LoweringFlag && request == restore_flag())),
{
}

/// The flags are touched for nothing but a snapshot: the only requests that
/// set flags are the one that raises the snapshot flag, made when a save of
/// player data has been recognised, and the one that puts the flags back,
/// made while the flag is raised.
pub proof fn law_flags_change_only_for_a_snapshot(state: HookStateView, event: HookEventView)
    ensures
        transition(state, event) matches HookStepView::Ask(next, request) ==> {
            &&& request is SetFlags ==> request == raise_flag() || request == restore_flag()
            &&& request == raise_flag() <==> next is RaisingFlag
            &&& request == raise_flag() ==> state == HookStateView::ReadingMethod(Call::PlayerData)
                && answered_text(event, METHOD_LIMIT as nat) == Some("usergamedata_advanced"@)
            &&& request == restore_flag() <==> next is LoweringFlag
            &&& request == restore_flag() ==> holds_snapshot_flag(state)
            &&& holds_snapshot_flag(next) ==> next is RaisingFlag || holds_snapshot_flag(state)
        },
{
}

/// The card is remembered only when a card inquiry has had its card id
/// read, and it is that id.
pub proof fn law_card_comes_from_an_inquiry(
    state: HookStateView,
    event: HookEventView,
    card: Seq<char>,
)
    requires
        transition(state, event) matches HookStepView::Ask(_, request) && request
            == HookRequestView::RememberCard(card),
    ensures
        state is ReadingCardId,
        answered_text(event, CARD_LIMIT as nat) == Some(card),
{
}

/// A payload is handed on only after the flags have been put back.
pub proof fn law_payload_follows_the_restore(
    state: HookStateView,
    event: HookEventView,
    payload: Seq<char>,
)
    requires
        transition(state, event) matches HookStepView::Ask(_, request) && request
            == HookRequestView::Process(payload),
    ensures
        state == HookStateView::LoweringFlag(Some(payload)),
        event is Done,
{
}

/// An answer that tells of a failure (a negative code or size) never leads
/// to a card being remembered or a payload being handled: the call is
/// forwarded, after the flags have been put back where they were raised.
pub proof fn law_failures_pass_through(state: HookStateView, event: HookEventView)
    requires
        match event {
            HookEventView::Filled { code, .. } => code < 0,
            HookEventView::Size(size) => size < 0,
            _ => false,
        },
    ensures
        transition(state, event) == if holds_snapshot_flag(state) {
            abandon_snapshot()
        } else {
            HookStepView::Forward
        },
{
}

/// The first step of an intercepted call. A call without a property has
/// nothing to look at and is let through at once; every other call starts
/// with the search for the player-data call.
pub fn property_destroy_hook(has_property: bool) -> (step: HookStep)
    ensures
        step@ == if has_property {
            HookStepView::Ask(
                HookStateView::SeekingPlayerData,
                HookRequestView::Search(Call::PlayerData),
            )
        } else {
            HookStepView::Forward
        },
{
    if has_property {
        HookState::begin()
    } else {
        HookStep::Forward
    }
}

/// Tells whether a note-array record is one that saves a player's scores:
/// its mode is `usersave`.
pub fn saves_scores(data: &PlayerData2Data) -> (saves: bool)
    ensures
        saves == (data@.mode == "usersave"@),
{
    same_text(data.mode.as_str(), "usersave")
}

/// The user that a reply of the scoring service names: the unsigned number
/// under `whoami` in the member `body`.
pub open spec fn service_user_of(reply: serde_json::Value) -> Option<u64> {
    json_field(json_member(reply, "body"@), "whoami"@)
}

/// Reads the user out of the service's reply to the status request.
pub fn service_user(reply: &serde_json::Value) -> (user: Option<u64>)
    ensures
        user == service_user_of(*reply),
{
    field(crate::json::member(reply, "body"), "whoami")
}

/// Why the hook is not installed although nothing failed.
#[derive(Debug, Clone, Copy, PartialEq, Eq, Structural)]
pub enum Dormancy {
    /// The settings switch the module off.
    Disabled,
    /// The host is one that the hook does not run on.
    Unsupported,
}

/// Why the hook could not be installed.
#[derive(Debug, Clone, Copy, PartialEq, Eq, Structural)]
pub enum InitError {
    /// The scoring service did not answer the status request.
    ServiceUnreachable,
    /// The answer of the scoring service names no user.
    UnknownUser,
    /// The redirection of the entry point could not be enabled.
    InstallFailed,
}

/// Where the module stands between being loaded and being unloaded.
#[derive(Debug, Clone, Copy, PartialEq, Eq)]
pub enum Lifecycle {
    /// Nothing has been done yet.
    Unloaded,
    /// The host is being identified.
    Identifying { local: bool },
    /// The scoring service is being asked who sends.
    Greeting,
    /// The redirection is being enabled.
    Installing { user: Option<u64> },
    /// The redirection is enabled: calls are intercepted.
    Active { user: Option<u64> },
    /// The redirection is not enabled, by decision.
    Dormant(Dormancy),
    /// The redirection is not enabled, because a step failed.
    Failed(InitError),
    /// The redirection is being disabled.
    Removing { user: Option<u64> },
    /// The redirection has been disabled.
    Removed,
}

/// What the module asks to have done while it is loaded or unloaded.
#[derive(Debug, Clone, Copy, PartialEq, Eq, Structural)]
pub enum LifecycleRequest {
    /// Read the fields by which the host identifies itself.
    Identify,
    /// Send the status request to the scoring service.
    Greet,
    /// Enable the redirection of the entry point.
    Install,
    /// Disable the redirection of the entry point.
    Remove,
}

/// What happens to the module, and what comes back from its requests.
#[derive(Debug, Clone, Copy, PartialEq, Eq)]
pub enum LifecycleEvent {
    /// The module is loaded. `local` tells that it runs without the scoring
    /// service.
    Load { enabled: bool, local: bool },
    /// The verdict on the host.
    Identified(Compatibility),
    /// The scoring service did not answer.
    Unreachable,
    /// The scoring service answered, naming this user or none.
    Greeted(Option<u64>),
    /// The redirection was enabled, or could not be.
    Installed(bool),
    /// The module is unloaded.
    Unload,
    /// The redirection was disabled, or could not be.
    Removed(bool),
}

impl Lifecycle {
    /// `true` exactly when the redirection is enabled.
    pub open spec fn is_installed(self) -> bool {
        self is Active || self is Removing
    }

    /// `true` exactly when loading is under way.
    pub open spec fn is_loading(self) -> bool {
        self is Identifying || self is Greeting || self is Installing
    }

    /// What loading the module leads to. It is absorbed while the
    /// redirection is enabled or being worked on; everywhere else it starts
    /// afresh: switched off, the module goes dormant without a request.
    pub open spec fn loaded(self, enabled: bool, local: bool) -> (Lifecycle, Option<
        LifecycleRequest,
    >) {
        if self.is_installed() || self.is_loading() {
            (self, None)
        } else if !enabled {
            (Lifecycle::Dormant(Dormancy::Disabled), None)
        } else {
            (Lifecycle::Identifying { local }, Some(LifecycleRequest::Identify))
        }
    }

    /// What unloading the module leads to: the redirection is disabled only
    /// if it is enabled.
    pub open spec fn unloaded(self) -> (Lifecycle, Option<LifecycleRequest>) {
        match self {
            Lifecycle::Active { user } => (
                Lifecycle::Removing { user },
                Some(LifecycleRequest::Remove),
            ),
            _ => (self, None),
        }
    }

    /// The state after an event, and the request to make next, if any. An
    /// event that answers no request of the state changes nothing.
    pub open spec fn transition(self, event: LifecycleEvent) -> (Lifecycle, Option<
        LifecycleRequest,
    >) {
        match (self, event) {
            (_, LifecycleEvent::Load { enabled, local }) => self.loaded(enabled, local),
            (_, LifecycleEvent::Unload) => self.unloaded(),
            (Lifecycle::Identifying { local }, LifecycleEvent::Identified(compatibility)) => {
                if compatibility == Compatibility::Unsupported {
                    (Lifecycle::Dormant(Dormancy::Unsupported), None)
                } else if local {
                    (Lifecycle::Installing { user: None }, Some(LifecycleRequest::Install))
                } else {
                    (Lifecycle::Greeting, Some(LifecycleRequest::Greet))
                }
            },
            (Lifecycle::Greeting, LifecycleEvent::Unreachable) => (
                Lifecycle::Failed(InitError::ServiceUnreachable),
                None,
            ),
            (Lifecycle::Greeting, LifecycleEvent::Greeted(None)) => (
                Lifecycle::Failed(InitError::UnknownUser),
                None,
            ),
            (Lifecycle::Greeting, LifecycleEvent::Greeted(Some(user))) => (
                Lifecycle::Installing { user: Some(user) },
                Some(LifecycleRequest::Install),
            ),
            (Lifecycle::Installing { user }, LifecycleEvent::Installed(true)) => (
                Lifecycle::Active { user },
                None,
            ),
            (Lifecycle::Installing { user }, LifecycleEvent::Installed(false)) => (
                Lifecycle::Failed(InitError::InstallFailed),
                None,
            ),
            (Lifecycle::Removing { user }, LifecycleEvent::Removed(true)) => (
                Lifecycle::Removed,
                None,
            ),
            (Lifecycle::Removing { user }, LifecycleEvent::Removed(false)) => (
                Lifecycle::Active { user },
                None,
            ),
            _ => (self, None),
        }
    }

    /// The module before it is loaded.
    pub fn new() -> (lifecycle: Self)
        ensures
            lifecycle == Lifecycle::Unloaded,
    {
        Lifecycle::Unloaded
    }

    /// Takes an event in.
    pub fn step(self, event: LifecycleEvent) -> (next: (Lifecycle, Option<LifecycleRequest>))
        ensures
            next == self.transition(event),
    {
        match (self, event) {
            (_, LifecycleEvent::Load { enabled, local }) => hook_init(self, enabled, local),
            (_, LifecycleEvent::Unload) => hook_release(self),
            (Lifecycle::Identifying { local }, LifecycleEvent::Identified(compatibility)) => {
                match compatibility {
                    Compatibility::Unsupported => (Lifecycle::Dormant(Dormancy::Unsupported), None),
                    _ => if local {
                        (Lifecycle::Installing { user: None }, Some(LifecycleRequest::Install))
                    } else {
                        (Lifecycle::Greeting, Some(LifecycleRequest::Greet))
                    },
                }
            },
            (Lifecycle::Greeting, LifecycleEvent::Unreachable) => (
                Lifecycle::Failed(InitError::ServiceUnreachable),
                None,
            ),
            (Lifecycle::Greeting, LifecycleEvent::Greeted(None)) => (
                Lifecycle::Failed(InitError::UnknownUser),
                None,
            ),
            (Lifecycle::Greeting, LifecycleEvent::Greeted(Some(user))) => (
                Lifecycle::Installing { user: Some(user) },
                Some(LifecycleRequest::Install),
            ),
            (Lifecycle::Installing { user }, LifecycleEvent::Installed(true)) => (
                Lifecycle::Active { user },
                None,
            ),
            (Lifecycle::Installing { user }, LifecycleEvent::Installed(false)) => (
                Lifecycle::Failed(InitError::InstallFailed),
                None,
            ),
            (Lifecycle::Removing { user }, LifecycleEvent::Removed(true)) => (
                Lifecycle::Removed,
                None,
            ),
            (Lifecycle::Removing { user }, LifecycleEvent::Removed(false)) => (
                Lifecycle::Active { user },
                None,
            ),
            _ => (self, None),
        }
    }

    /// The failure that keeps the module from running, if there is one.
    pub fn failure(&self) -> (error: Option<InitError>)
        ensures
            error == match *self {
                Lifecycle::Failed(error) => Some(error),
                _ => None,
            },
    {
        match self {
            Lifecycle::Failed(error) => Some(*error),
            _ => None,
        }
    }
}

/// Loads the module: the first step of bringing the hook up.
pub fn hook_init(lifecycle: Lifecycle, enabled: bool, local: bool) -> (next: (
    Lifecycle,
    Option<LifecycleRequest>,
))
    ensures
        next == lifecycle.loaded(enabled, local),
{
    match lifecycle {
        Lifecycle::Active { .. } | Lifecycle::Removing { .. } | Lifecycle::Identifying { .. }
        | Lifecycle::Greeting | Lifecycle::Installing { .. } => (lifecycle, None),
        _ => if !enabled {
            (Lifecycle::Dormant(Dormancy::Disabled), None)
        } else {
            (Lifecycle::Identifying { local }, Some(LifecycleRequest::Identify))
        },
    }
}

/// Unloads the module: the first step of taking the hook down.
pub fn hook_release(lifecycle: Lifecycle) -> (next: (Lifecycle, Option<LifecycleRequest>))
    ensures
        next == lifecycle.unloaded(),
{
    match lifecycle {
        Lifecycle::Active { user } => (Lifecycle::Removing { user }, Some(LifecycleRequest::Remove)),
        _ => (lifecycle, None),
    }
}

/// The redirection gets enabled only by a request to install that was
/// answered with success, and stays enabled until a request to remove it
/// is answered with success.
pub proof fn law_installed_only_by_install(state: Lifecycle, event: LifecycleEvent)
    ensures
        state.transition(event).0.is_installed() && !state.is_installed() ==> state is Installing
            && event == LifecycleEvent::Installed(true),
        state.is_installed() && !state.transition(event).0.is_installed() ==> state is Removing
            && event == LifecycleEvent::Removed(true),
{
}

/// The redirection is asked for only when the module is switched on, the
/// host was not found unsupported, and the scoring service has named the
/// user or the module runs without it.
pub proof fn law_install_is_asked_after_the_gate(state: Lifecycle, event: LifecycleEvent)
    requires
        state.transition(event).1 == Some(LifecycleRequest::Install),
    ensures
        match state {
            Lifecycle::Identifying { local } => local && event is Identified && event
                != LifecycleEvent::Identified(Compatibility::Unsupported),
            Lifecycle::Greeting => event is Greeted && event != LifecycleEvent::Greeted(
                None::<u64>,
            ),
            _ => false,
        },
        state.transition(event).0 is Installing,
{
}

/// A host that could not be identified is treated as one that the hook runs
/// on: loading goes on just as for a supported host.
pub proof fn law_unknown_host_is_let_through(local: bool)
    ensures
        (Lifecycle::Identifying { local }).transition(
            LifecycleEvent::Identified(Compatibility::Unknown),
        ) == (Lifecycle::Identifying { local }).transition(
            LifecycleEvent::Identified(Compatibility::Supported),
        ),
        (Lifecycle::Identifying { local }).transition(
            LifecycleEvent::Identified(Compatibility::Unknown),
        ).1 is Some,
{
}

/// Loading a module whose redirection is enabled changes nothing and asks
/// for nothing.
pub proof fn law_install_is_idempotent(state: Lifecycle, enabled: bool, local: bool)
    requires
        state.is_installed(),
    ensures
        state.transition(LifecycleEvent::Load { enabled, local }) == (state, None::<LifecycleRequest>),
{
}

/// Removal is asked for exactly when the module is unloaded while the
/// redirection is enabled and not yet being removed.
pub proof fn law_remove_only_if_installed(state: Lifecycle, event: LifecycleEvent)
    ensures
        state.transition(event).1 == Some(LifecycleRequest::Remove) <==> state is Active && event
            is Unload,
{
}

/// A module that is switched off asks for nothing, neither when it is loaded
/// nor when it is unloaded afterwards.
pub proof fn law_disabled_module_does_nothing(local: bool)
    ensures
        Lifecycle::Unloaded.transition(LifecycleEvent::Load { enabled: false, local }) == (
            Lifecycle::Dormant(Dormancy::Disabled),
            None::<LifecycleRequest>,
        ),
        Lifecycle::Dormant(Dormancy::Disabled).transition(LifecycleEvent::Unload) == (
            Lifecycle::Dormant(Dormancy::Disabled),
            None::<LifecycleRequest>,
        ),
{
}

} // verus!
