//! The lobby's rules: the seats a game is configured with, what each button
//! does to that configuration, what a network game asks its host for instead,
//! and how the typed fields take keys and parse.
//!
//! For a local game the [`LobbyConfig`] is the source of truth, edited
//! directly. For a network game the host coordinates: its authoritative state
//! is mirrored into the config for display, and edits become requests sent
//! through the lobby link.
use vstd::prelude::*;

use crate::text::{str_eq, contains_char, joined, joined3, owned, without_last, decimal, is_digit, is_alphanumeric, decimal_text, digit_char};

verus! {

broadcast use vstd::string::group_string_axioms;

/// The TCP port the host binds and clients dial.
pub const TCP_PORT: u16 = 4000;

/// How many watchers the demo's host admits.
pub const OBSERVER_LIMIT: u8 = 2;

/// Retries connecting at most this often (in frames) while a client is not
/// yet connected, and waits this long after a typed port settles before the
/// host reopens on it.
pub const CONNECT_RETRY_FRAMES: u32 = 60;

/// The longest a typed port may grow, in characters.
pub const PORT_DIGITS: usize = 5;

/// How this node entered the lobby.
#[derive(Clone, Copy, Debug, PartialEq, Eq, Structural)]
pub enum LobbyMode {
    /// A game on this machine only.
    Local,
    /// Hosting a network game.
    Host,
    /// Joining a network game.
    Client,
}

/// A race a slot can play.
#[derive(Clone, Copy, Debug, PartialEq, Eq, Structural)]
pub enum Race {
    Human,
    Orc,
}

/// The content id a race is declared under.
pub open spec fn race_id(race: Race) -> Seq<char> {
    match race {
        Race::Human => "human"@,
        Race::Orc => "orc"@,
    }
}

/// How a race reads in the lobby.
pub open spec fn race_label(race: Race) -> Seq<char> {
    match race {
        Race::Human => "Humans"@,
        Race::Orc => "Orcs"@,
    }
}

impl Race {
    /// The content id the race is declared under.
    pub fn id(self) -> (id: &'static str)
        ensures
            id@ == race_id(self),
    {
        match self {
            Race::Human => "human",
            Race::Orc => "orc",
        }
    }

    /// How the race reads in the lobby.
    pub fn label(self) -> (label: &'static str)
        ensures
            label@ == race_label(self),
    {
        match self {
            Race::Human => "Humans",
            Race::Orc => "Orcs",
        }
    }

    /// The other race.
    pub fn toggled(self) -> (other: Race)
        ensures
            other == race_toggled(self),
    {
        match self {
            Race::Human => Race::Orc,
            Race::Orc => Race::Human,
        }
    }

    /// The race a content id names: orcs for `"orc"`, humans for anything else
    /// or nothing at all.
    pub fn from_id(id: Option<&str>) -> (race: Race)
        ensures
            race == (if id matches Some(id) && id@ == "orc"@ {
                Race::Orc
            } else {
                Race::Human
            }),
    {
        match id {
            Some(id) => {
                if str_eq(id, "orc") {
                    Race::Orc
                } else {
                    Race::Human
                }
            },
            None => Race::Human,
        }
    }
}

/// What occupies a slot, from this node's point of view.
#[derive(Clone, Copy, Debug, PartialEq, Eq, Structural)]
pub enum SlotKind {
    /// Empty, waiting for a human (network only).
    Open,
    /// A human: the local player, or a connected remote one.
    Human,
    /// A local AI.
    Ai,
    /// Disabled.
    Closed,
}

/// How a slot kind reads in the lobby.
pub open spec fn kind_label(kind: SlotKind) -> Seq<char> {
    match kind {
        SlotKind::Open => "Open"@,
        SlotKind::Human => "Human"@,
        SlotKind::Ai => "AI"@,
        SlotKind::Closed => "Closed"@,
    }
}

impl SlotKind {
    /// How the kind reads in the lobby.
    pub fn label(self) -> (label: &'static str)
        ensures
            label@ == kind_label(self),
    {
        match self {
            SlotKind::Open => "Open",
            SlotKind::Human => "Human",
            SlotKind::Ai => "AI",
            SlotKind::Closed => "Closed",
        }
    }
}

/// An editable text field of the lobby.
#[derive(Clone, Copy, Debug, PartialEq, Eq, Structural)]
pub enum LobbyField {
    /// The host address a client dials.
    Addr,
    /// The TCP port the host's lobby listens on.
    TcpPort,
    /// This node's gameplay (UDP) port for a mesh game.
    UdpPort,
}

/// One slot's configuration as shown in the lobby.
#[derive(Clone, Copy, Debug)]
pub struct SlotView {
    pub kind: SlotKind,
    pub race: Race,
    /// The team the slot plays on, or `None` for no team: a free-for-all
    /// player, hostile to everyone.
    pub team: Option<u8>,
}

/// Who computes the AI players of a network game.
#[derive(Clone, Copy, Debug, PartialEq, Eq, Structural)]
pub enum AiHosting {
    /// The host alone.
    Host,
    /// Every peer, each its own copy.
    Replicated,
}

/// How the nodes of a network game are connected.
#[derive(Clone, Copy, Debug, PartialEq, Eq, Structural)]
pub enum SessionMode {
    /// Every client talks to the host only.
    HostStar { ai_hosting: AiHosting },
    /// Every peer talks to every other, and the host still coordinates.
    MeshHosted { ai_hosting: AiHosting },
    /// Every peer talks to every other, and nobody coordinates.
    MeshDecentralized,
}

impl SessionMode {
    /// Who computes the AI players: a decentralized session has no host to
    /// compute them, so every peer does.
    pub fn ai_hosting(self) -> (hosting: AiHosting)
        ensures
            hosting == match self {
                SessionMode::HostStar { ai_hosting } => ai_hosting,
                SessionMode::MeshHosted { ai_hosting } => ai_hosting,
                SessionMode::MeshDecentralized => AiHosting::Replicated,
            },
    {
        match self {
            SessionMode::HostStar { ai_hosting } => ai_hosting,
            SessionMode::MeshHosted { ai_hosting } => ai_hosting,
            SessionMode::MeshDecentralized => AiHosting::Replicated,
        }
    }
}

/// Whose buildings keep a player in the game.
#[derive(Clone, Copy, Debug, PartialEq, Eq, Structural)]
pub enum EliminationScope {
    /// The player's own.
    Player,
    /// Anyone's on the player's side.
    Side,
}

/// What this node does when its player is defeated.
#[derive(Clone, Copy, Debug, PartialEq, Eq, Structural)]
pub enum DefeatConduct {
    /// Ends the game for this node.
    Conclude,
    /// Keeps watching.
    Spectate,
}

/// The seat the local human sits in.
#[derive(Clone, Copy, Debug, PartialEq, Eq, Structural)]
pub enum LocalRole {
    /// A player slot, by id.
    Player(u8),
    /// The watching place.
    Observer,
}

/// What fills a slot in the host's authoritative lobby state.
#[derive(Clone, Copy, Debug, PartialEq, Eq, Structural)]
pub enum Occupant {
    Open,
    Human,
    Ai,
    Closed,
}

/// How a game ends.
#[derive(Clone, Copy, Debug, PartialEq, Eq, Structural)]
pub enum FinishPolicy {
    /// When one side stands alone, counting buildings by the scope.
    LastStanding { elimination: EliminationScope },
    /// Never on its own.
    Endless,
    /// When a scenario script says so.
    Scripted,
}

/// One slot of the host's authoritative lobby state.
pub struct SlotInfo {
    pub occupant: Occupant,
    /// The race id the slot has chosen, if any.
    pub race: Option<String>,
    pub team: Option<u8>,
}

/// The host's authoritative lobby state, as every node receives it.
pub struct LobbyState {
    pub slots: Vec<SlotInfo>,
    /// How many humans watch.
    pub observers: usize,
    /// How many watchers the host admits.
    pub observer_limit: u8,
    pub mode: SessionMode,
    pub finish_policy: FinishPolicy,
}

/// The lobby's working configuration.
pub struct LobbyConfig {
    /// The map the game is played on, by name.
    pub map: String,
    pub slots: Vec<SlotView>,
    /// How many humans watch the game (network modes mirror the host's count;
    /// a local game has at most its one human watching).
    pub observers: usize,
    /// How many watchers the host admits (mirrored like the rest).
    pub observer_limit: u8,
    pub mode: SessionMode,
    /// The seat the local human sits in (network modes mirror it from the
    /// lobby link; a local game claims it through the rows).
    pub local_seat: LocalRole,
    /// The host address a client dials: `ip` or `ip:port` (the port defaults
    /// to [`TCP_PORT`] when omitted).
    pub host_addr: String,
    /// The TCP port the host's lobby listens on, as typed. Empty means the
    /// default; anything else must parse as a port and is used exactly.
    pub tcp_port: String,
    /// This node's gameplay (UDP) port for a mesh game, as typed. Empty means an
    /// ephemeral port; anything else must parse as a port and is used exactly.
    pub udp_port: String,
    /// The field keyboard input currently edits.
    pub focused: LobbyField,
    /// Whose buildings keep a player in the game.
    pub elimination: EliminationScope,
    /// What this node does when its player is defeated: a per-node choice,
    /// never synchronized.
    pub conduct: DefeatConduct,
    /// A line of status or help shown under the title.
    pub status: String,
}

/// A lobby configuration as plain values.
pub struct LobbyConfigView {
    pub map: Seq<char>,
    pub slots: Seq<SlotView>,
    pub observers: int,
    pub observer_limit: u8,
    pub mode: SessionMode,
    pub local_seat: LocalRole,
    pub host_addr: Seq<char>,
    pub tcp_port: Seq<char>,
    pub udp_port: Seq<char>,
    pub focused: LobbyField,
    pub elimination: EliminationScope,
    pub conduct: DefeatConduct,
    pub status: Seq<char>,
}

impl View for LobbyConfig {
    type V = LobbyConfigView;

    open spec fn view(&self) -> LobbyConfigView {
        LobbyConfigView {
            map: self.map@,
            slots: self.slots@,
            observers: self.observers as int,
            observer_limit: self.observer_limit,
            mode: self.mode,
            local_seat: self.local_seat,
            host_addr: self.host_addr@,
            tcp_port: self.tcp_port@,
            udp_port: self.udp_port@,
            focused: self.focused,
            elimination: self.elimination,
            conduct: self.conduct,
            status: self.status@,
        }
    }
}

/// Whether a seat names a slot of the configuration (the watching place
/// always does).
pub open spec fn seat_valid(slots: Seq<SlotView>, seat: LocalRole) -> bool {
    match seat {
        LocalRole::Player(slot) => slot < slots.len(),
        LocalRole::Observer => true,
    }
}

impl LobbyConfigView {
    /// A configuration the lobby's rules can work on: at most 255 slots, so
    /// every slot id and every team number fits in a byte, and the local seat
    /// names one of the slots (or the watching place).
    pub open spec fn wf(self) -> bool {
        &&& self.slots.len() <= 255
        &&& seat_valid(self.slots, self.local_seat)
    }
}

/// The team a slot cycles to after `team`: no team, then 1, 2, … up to
/// `seats`, then no team again. Enough distinct teams for every slot to pick
/// its own.
pub open spec fn spec_next_team(team: Option<u8>, seats: int) -> Option<u8> {
    match team {
        None => Some(1),
        Some(current) => if (current as int) < seats {
            Some((current + 1) as u8)
        } else {
            None
        },
    }
}

/// The team a slot cycles to after `team` in a lobby of `seats` slots.
pub fn next_team(team: Option<u8>, seats: usize) -> (next: Option<u8>)
    requires
        !(team == Some(255u8) && seats > 255),
    ensures
        next == spec_next_team(team, seats as int),
{
    match team {
        None => Some(1),
        Some(current) => {
            if (current as usize) < seats {
                Some(current + 1)
            } else {
                None
            }
        },
    }
}

/// The kind a local game's slot toggles to: an AI becomes closed, anything
/// else becomes an AI.
pub open spec fn local_kind_toggle(kind: SlotKind) -> SlotKind {
    match kind {
        SlotKind::Ai => SlotKind::Closed,
        _ => SlotKind::Ai,
    }
}

/// The occupant the host puts in a slot it cycles: an empty slot becomes an
/// AI, an AI closes, a closed slot opens again, and a slot a human occupies is
/// left alone.
pub open spec fn host_occupant_toggle(kind: SlotKind) -> Option<Occupant> {
    match kind {
        SlotKind::Open => Some(Occupant::Ai),
        SlotKind::Ai => Some(Occupant::Closed),
        SlotKind::Closed => Some(Occupant::Open),
        SlotKind::Human => None,
    }
}

/// The slots after the local human moves from its seat to `seat`: the player
/// slot left behind becomes an AI opponent, and the one taken becomes human.
pub open spec fn claimed_slots(slots: Seq<SlotView>, from: LocalRole, seat: LocalRole) -> Seq<
    SlotView,
> {
    let left = match from {
        LocalRole::Player(previous) => slots.update(
            previous as int,
            SlotView { kind: SlotKind::Ai, ..slots[previous as int] },
        ),
        LocalRole::Observer => slots,
    };
    match seat {
        LocalRole::Player(slot) => left.update(
            slot as int,
            SlotView { kind: SlotKind::Human, ..left[slot as int] },
        ),
        LocalRole::Observer => left,
    }
}

/// The configuration after the local human of a local game claims `seat`.
/// Claiming the seat already held changes nothing.
pub open spec fn claimed(config: LobbyConfigView, seat: LocalRole) -> LobbyConfigView {
    if config.local_seat == seat {
        config
    } else {
        let observers_left = match config.local_seat {
            LocalRole::Player(_) => config.observers,
            LocalRole::Observer => 0,
        };
        LobbyConfigView {
            slots: claimed_slots(config.slots, config.local_seat, seat),
            observers: match seat {
                LocalRole::Player(_) => observers_left,
                LocalRole::Observer => 1,
            },
            local_seat: seat,
            ..config
        }
    }
}

/// Moves the local human of a local game into `seat`: the player slot it
/// leaves becomes an AI opponent, and leaving the watching place empties it.
pub fn claim_local(config: &mut LobbyConfig, seat: LocalRole)
    requires
        old(config)@.wf(),
        seat_valid(old(config)@.slots, seat),
    ensures
        final(config)@ == claimed(old(config)@, seat),
        final(config)@.wf(),
{
    if config.local_seat == seat {
        return;
    }
    match config.local_seat {
        LocalRole::Player(previous) => {
            let mut view = config.slots[previous as usize];
            view.kind = SlotKind::Ai;
            config.slots.set(previous as usize, view);
        },
        LocalRole::Observer => config.observers = 0,
    }
    match seat {
        LocalRole::Player(slot) => {
            let mut view = config.slots[slot as usize];
            view.kind = SlotKind::Human;
            config.slots.set(slot as usize, view);
        },
        LocalRole::Observer => config.observers = 1,
    }
    config.local_seat = seat;
}

/// The first slot of `kind`, if any.
pub open spec fn first_of_kind(slots: Seq<SlotView>, kind: SlotKind) -> Option<int>
    decreases slots.len(),
{
    if slots.len() == 0 {
        None
    } else {
        match first_of_kind(slots.drop_last(), kind) {
            Some(k) => Some(k),
            None => if slots.last().kind == kind {
                Some(slots.len() - 1)
            } else {
                None
            },
        }
    }
}

/// The slot a local game's watcher returns to: an open seat first, then an
/// AI's, and a closed seat only as the last resort.
pub open spec fn return_seat(slots: Seq<SlotView>) -> Option<int> {
    match first_of_kind(slots, SlotKind::Open) {
        Some(k) => Some(k),
        None => match first_of_kind(slots, SlotKind::Ai) {
            Some(k) => Some(k),
            None => first_of_kind(slots, SlotKind::Closed),
        },
    }
}

proof fn lemma_first_of_kind_step(slots: Seq<SlotView>, kind: SlotKind, n: int)
    requires
        0 <= n < slots.len(),
    ensures
        first_of_kind(slots.take(n + 1), kind) == match first_of_kind(slots.take(n), kind) {
            Some(k) => Some(k),
            None => if slots[n].kind == kind {
                Some(n)
            } else {
                None
            },
        },
{
    assert(slots.take(n + 1).drop_last() =~= slots.take(n));
}

proof fn lemma_first_of_kind_bound(slots: Seq<SlotView>, kind: SlotKind)
    ensures
        first_of_kind(slots, kind) matches Some(k) ==> 0 <= k < slots.len() && slots[k].kind
            == kind,
    decreases slots.len(),
{
    if slots.len() > 0 {
        lemma_first_of_kind_bound(slots.drop_last(), kind);
    }
}

/// The first slot of `kind`, if any.
fn position_of(slots: &Vec<SlotView>, kind: SlotKind) -> (at: Option<usize>)
    ensures
        at matches Some(k) ==> first_of_kind(slots@, kind) == Some(k as int),
        at is None ==> first_of_kind(slots@, kind) is None,
{
    let mut n: usize = 0;
    while n < slots.len()
        invariant
            n <= slots@.len(),
            first_of_kind(slots@.take(n as int), kind) is None,
        decreases slots@.len() - n,
    {
        proof {
            lemma_first_of_kind_step(slots@, kind, n as int);
        }
        if slots[n].kind == kind {
            proof {
                assert(slots@.take(slots@.len() as int) =~= slots@);
                lemma_first_prefix_stays(slots@, kind, n as int + 1);
            }
            return Some(n);
        }
        n = n + 1;
    }
    assert(slots@.take(slots@.len() as int) =~= slots@);
    None
}

/// Once some prefix holds a slot of `kind`, every longer prefix finds the same
/// first one.
proof fn lemma_first_prefix_stays(slots: Seq<SlotView>, kind: SlotKind, n: int)
    requires
        0 <= n <= slots.len(),
        first_of_kind(slots.take(n), kind) is Some,
    ensures
        first_of_kind(slots, kind) == first_of_kind(slots.take(n), kind),
    decreases slots.len() - n,
{
    if n < slots.len() {
        lemma_first_of_kind_step(slots, kind, n);
        lemma_first_prefix_stays(slots, kind, n + 1);
    } else {
        assert(slots.take(n) =~= slots);
    }
}

/// The session mode the host cycles to: host-star, then hosted mesh, then
/// decentralized mesh, then host-star again — keeping the AI hosting choice
/// where the next mode has one.
pub open spec fn next_mode(mode: SessionMode) -> SessionMode {
    match mode {
        SessionMode::HostStar { ai_hosting } => SessionMode::MeshHosted { ai_hosting },
        SessionMode::MeshHosted { .. } => SessionMode::MeshDecentralized,
        SessionMode::MeshDecentralized => SessionMode::HostStar { ai_hosting: AiHosting::Host },
    }
}

/// The other AI hosting choice.
pub open spec fn other_hosting(hosting: AiHosting) -> AiHosting {
    match hosting {
        AiHosting::Host => AiHosting::Replicated,
        AiHosting::Replicated => AiHosting::Host,
    }
}

/// The session mode with its AI hosting flipped, where it has one to flip.
pub open spec fn flipped_hosting(mode: SessionMode) -> Option<SessionMode> {
    match mode {
        SessionMode::HostStar { ai_hosting } => Some(
            SessionMode::HostStar { ai_hosting: other_hosting(ai_hosting) },
        ),
        SessionMode::MeshHosted { ai_hosting } => Some(
            SessionMode::MeshHosted { ai_hosting: other_hosting(ai_hosting) },
        ),
        SessionMode::MeshDecentralized => None,
    }
}

/// The other elimination scope.
pub open spec fn other_scope(scope: EliminationScope) -> EliminationScope {
    match scope {
        EliminationScope::Player => EliminationScope::Side,
        EliminationScope::Side => EliminationScope::Player,
    }
}

/// The other defeat conduct.
pub open spec fn other_conduct(conduct: DefeatConduct) -> DefeatConduct {
    match conduct {
        DefeatConduct::Conclude => DefeatConduct::Spectate,
        DefeatConduct::Spectate => DefeatConduct::Conclude,
    }
}

/// The lobby link this node holds, as far as the lobby's rules care.
#[derive(Clone, Copy, Debug, PartialEq, Eq, Structural)]
pub enum LinkState {
    /// No link: a local game, or a client not yet connected.
    Absent,
    /// This node hosts the lobby.
    Host,
    /// This node is a connected client, seated in `local_player` if anywhere.
    Client { local_player: Option<u8> },
}

/// A button of the lobby screen.
#[derive(Clone, Copy, Debug, PartialEq, Eq, Structural)]
pub enum LobbyButton {
    /// Cycles what occupies a slot.
    Kind(u8),
    /// Toggles a slot's race.
    Race(u8),
    /// Cycles a slot's team.
    Team(u8),
    /// Claims a slot for the local human (local games).
    Claim(u8),
    /// Cycles the session mode (the host).
    Mode,
    /// Flips who computes the AI (the host).
    AiHosting,
    /// Toggles the elimination scope (host and local games).
    Elimination,
    /// Toggles this node's own defeat conduct (every mode; never synced).
    Conduct,
    /// Moves this node between a player seat and the watching place.
    Observe,
    /// Moves keyboard focus to a field.
    Focus(LobbyField),
    /// Returns to the menu.
    Back,
    /// Starts the game.
    Start,
}

/// What a network game asks of its lobby link instead of editing the
/// configuration itself.
#[derive(Clone, Copy, Debug, PartialEq, Eq, Structural)]
pub enum LobbyRequest {
    /// The host fills a slot.
    SetOccupant { slot: u8, occupant: Occupant },
    /// The host sets a slot's race.
    SetRace { slot: u8, race: Race },
    /// A client asks for its own slot's race.
    RequestRace { race: Race },
    /// The host sets a slot's team.
    SetTeam { slot: u8, team: Option<u8> },
    /// A client asks for its own slot's team.
    RequestTeam { team: Option<u8> },
    /// The host broadcasts a new finish rule.
    SetFinishPolicy { elimination: EliminationScope },
    /// The host moves its own peer to a player seat.
    HostPlay,
    /// The host moves its own peer to the watching place.
    HostObserve,
    /// A client asks for a player seat.
    RequestPlay,
    /// A client asks to watch.
    RequestObserve,
    /// The host broadcasts a new session mode.
    SetMode { mode: SessionMode },
}

/// What pressing a lobby button leads to beyond the configuration itself.
#[derive(Clone, Copy, Debug, PartialEq, Eq, Structural)]
pub enum ButtonOutcome {
    /// Nothing more.
    Nothing,
    /// A request for the lobby link to carry.
    Send(LobbyRequest),
    /// Back to the main menu.
    BackToMenu,
    /// The game is to start.
    StartRequested,
}

/// Whether this node may start the game: a local game always may, a host once
/// its lobby is open, a client never (it starts on the host's signal).
pub open spec fn spec_can_start(mode: LobbyMode, link: LinkState) -> bool {
    match mode {
        LobbyMode::Local => true,
        LobbyMode::Host => link == LinkState::Host,
        LobbyMode::Client => false,
    }
}

/// Whether this node may start the game.
pub fn can_start(mode: LobbyMode, link: LinkState) -> (may: bool)
    ensures
        may == spec_can_start(mode, link),
{
    match mode {
        LobbyMode::Local => true,
        LobbyMode::Host => match link {
            LinkState::Host => true,
            _ => false,
        },
        LobbyMode::Client => false,
    }
}

/// Whether a button names a slot of the configuration.
pub open spec fn button_valid(config: LobbyConfigView, button: LobbyButton) -> bool {
    match button {
        LobbyButton::Kind(slot) => slot < config.slots.len(),
        LobbyButton::Race(slot) => slot < config.slots.len(),
        LobbyButton::Team(slot) => slot < config.slots.len(),
        LobbyButton::Claim(slot) => slot < config.slots.len(),
        _ => true,
    }
}

/// What pressing `button` does: the configuration afterwards, and what the
/// press leads to beyond it.
pub open spec fn pressed(
    config: LobbyConfigView,
    mode: LobbyMode,
    link: LinkState,
    button: LobbyButton,
) -> (LobbyConfigView, ButtonOutcome) {
    match button {
        LobbyButton::Kind(slot) => match mode {
            // The local human's slot is fixed; the others toggle AI and closed.
            LobbyMode::Local => if config.local_seat == LocalRole::Player(slot) {
                (config, ButtonOutcome::Nothing)
            } else {
                let view = config.slots[slot as int];
                (
                    LobbyConfigView {
                        slots: config.slots.update(
                            slot as int,
                            SlotView { kind: local_kind_toggle(view.kind), ..view },
                        ),
                        ..config
                    },
                    ButtonOutcome::Nothing,
                )
            },
            // The host cycles an empty slot; a slot a client occupies is left
            // alone.
            LobbyMode::Host => match (link, host_occupant_toggle(config.slots[slot as int].kind)) {
                (LinkState::Host, Some(occupant)) => (
                    config,
                    ButtonOutcome::Send(LobbyRequest::SetOccupant { slot, occupant }),
                ),
                _ => (config, ButtonOutcome::Nothing),
            },
            // Clients do not edit slots.
            LobbyMode::Client => (config, ButtonOutcome::Nothing),
        },
        LobbyButton::Race(slot) => {
            let race = match config.slots[slot as int].race {
                Race::Human => Race::Orc,
                Race::Orc => Race::Human,
            };
            match (mode, link) {
                (LobbyMode::Host, LinkState::Host) => (
                    config,
                    ButtonOutcome::Send(LobbyRequest::SetRace { slot, race }),
                ),
                (LobbyMode::Client, LinkState::Client { local_player }) => if local_player == Some(
                    slot,
                ) {
                    (config, ButtonOutcome::Send(LobbyRequest::RequestRace { race }))
                } else {
                    (config, ButtonOutcome::Nothing)
                },
                (LobbyMode::Local, _) => (
                    LobbyConfigView {
                        slots: config.slots.update(
                            slot as int,
                            SlotView { race, ..config.slots[slot as int] },
                        ),
                        ..config
                    },
                    ButtonOutcome::Nothing,
                ),
                _ => (config, ButtonOutcome::Nothing),
            }
        },
        LobbyButton::Team(slot) => {
            let team = spec_next_team(config.slots[slot as int].team, config.slots.len() as int);
            match (mode, link) {
                // The host arranges every slot's team; a client may only set
                // its own.
                (LobbyMode::Host, LinkState::Host) => (
                    config,
                    ButtonOutcome::Send(LobbyRequest::SetTeam { slot, team }),
                ),
                (LobbyMode::Client, LinkState::Client { local_player }) => if local_player == Some(
                    slot,
                ) {
                    (config, ButtonOutcome::Send(LobbyRequest::RequestTeam { team }))
                } else {
                    (config, ButtonOutcome::Nothing)
                },
                (LobbyMode::Local, _) => (
                    LobbyConfigView {
                        slots: config.slots.update(
                            slot as int,
                            SlotView { team, ..config.slots[slot as int] },
                        ),
                        ..config
                    },
                    ButtonOutcome::Nothing,
                ),
                _ => (config, ButtonOutcome::Nothing),
            }
        },
        LobbyButton::Claim(slot) => if mode == LobbyMode::Local {
            (claimed(config, LocalRole::Player(slot)), ButtonOutcome::Nothing)
        } else {
            (config, ButtonOutcome::Nothing)
        },
        // Only the host chooses the session mode; a client just mirrors it.
        LobbyButton::Mode => if link == LinkState::Host {
            (
                LobbyConfigView { mode: next_mode(config.mode), ..config },
                ButtonOutcome::Send(LobbyRequest::SetMode { mode: next_mode(config.mode) }),
            )
        } else {
            (config, ButtonOutcome::Nothing)
        },
        // Only the host chooses the AI hosting; a decentralized session has no
        // host to compute AI, so there is nothing to flip.
        LobbyButton::AiHosting => match (link, flipped_hosting(config.mode)) {
            (LinkState::Host, Some(next)) => (
                LobbyConfigView { mode: next, ..config },
                ButtonOutcome::Send(LobbyRequest::SetMode { mode: next }),
            ),
            _ => (config, ButtonOutcome::Nothing),
        },
        // The host's choice travels with the finish rule it broadcasts; a local
        // game applies it directly; a client only mirrors it.
        LobbyButton::Elimination => {
            let next = other_scope(config.elimination);
            match (mode, link) {
                (LobbyMode::Host, LinkState::Host) => (
                    LobbyConfigView { elimination: next, ..config },
                    ButtonOutcome::Send(LobbyRequest::SetFinishPolicy { elimination: next }),
                ),
                (LobbyMode::Local, _) => (
                    LobbyConfigView { elimination: next, ..config },
                    ButtonOutcome::Nothing,
                ),
                _ => (config, ButtonOutcome::Nothing),
            }
        },
        LobbyButton::Conduct => (
            LobbyConfigView { conduct: other_conduct(config.conduct), ..config },
            ButtonOutcome::Nothing,
        ),
        LobbyButton::Observe => {
            let observing = config.local_seat == LocalRole::Observer;
            match (mode, link) {
                (LobbyMode::Host, LinkState::Host) => (
                    config,
                    ButtonOutcome::Send(
                        if observing {
                            LobbyRequest::HostPlay
                        } else {
                            LobbyRequest::HostObserve
                        },
                    ),
                ),
                (LobbyMode::Client, LinkState::Client { .. }) => (
                    config,
                    ButtonOutcome::Send(
                        if observing {
                            LobbyRequest::RequestPlay
                        } else {
                            LobbyRequest::RequestObserve
                        },
                    ),
                ),
                // A local game moves its one human directly: back to a player
                // slot, or out to watching.
                (LobbyMode::Local, _) => if observing {
                    match return_seat(config.slots) {
                        Some(slot) => (
                            claimed(config, LocalRole::Player(slot as u8)),
                            ButtonOutcome::Nothing,
                        ),
                        None => (config, ButtonOutcome::Nothing),
                    }
                } else {
                    (claimed(config, LocalRole::Observer), ButtonOutcome::Nothing)
                },
                _ => (config, ButtonOutcome::Nothing),
            }
        },
        LobbyButton::Focus(field) => (
            LobbyConfigView { focused: field, ..config },
            ButtonOutcome::Nothing,
        ),
        LobbyButton::Back => (config, ButtonOutcome::BackToMenu),
        LobbyButton::Start => if spec_can_start(mode, link) {
            (config, ButtonOutcome::StartRequested)
        } else {
            (config, ButtonOutcome::Nothing)
        },
    }
}

/// Applies a press of `button` to the configuration, and says what else it
/// leads to: a request for the lobby link, a return to the menu, or the start.
pub fn press(config: &mut LobbyConfig, mode: LobbyMode, link: LinkState, button: LobbyButton) -> (outcome: ButtonOutcome)
    requires
        old(config)@.wf(),
        button_valid(old(config)@, button),
    ensures
        (final(config)@, outcome) == pressed(old(config)@, mode, link, button),
        final(config)@.wf(),
{
    match button {
        LobbyButton::Kind(slot) => {
            match mode {
                LobbyMode::Local => {
                    if config.local_seat == LocalRole::Player(slot) {
                        return ButtonOutcome::Nothing;
                    }
                    let mut view = config.slots[slot as usize];
                    view.kind = match view.kind {
                        SlotKind::Ai => SlotKind::Closed,
                        _ => SlotKind::Ai,
                    };
                    config.slots.set(slot as usize, view);
                    ButtonOutcome::Nothing
                },
                LobbyMode::Host => {
                    let occupant = match config.slots[slot as usize].kind {
                        SlotKind::Open => Occupant::Ai,
                        SlotKind::Ai => Occupant::Closed,
                        SlotKind::Closed => Occupant::Open,
                        SlotKind::Human => return ButtonOutcome::Nothing,
                    };
                    match link {
                        LinkState::Host => ButtonOutcome::Send(
                            LobbyRequest::SetOccupant { slot, occupant },
                        ),
                        _ => ButtonOutcome::Nothing,
                    }
                },
                LobbyMode::Client => ButtonOutcome::Nothing,
            }
        },
        LobbyButton::Race(slot) => {
            let race = config.slots[slot as usize].race.toggled();
            match (mode, link) {
                (LobbyMode::Host, LinkState::Host) => ButtonOutcome::Send(
                    LobbyRequest::SetRace { slot, race },
                ),
                (LobbyMode::Client, LinkState::Client { local_player }) => {
                    if local_player == Some(slot) {
                        ButtonOutcome::Send(LobbyRequest::RequestRace { race })
                    } else {
                        ButtonOutcome::Nothing
                    }
                },
                (LobbyMode::Local, _) => {
                    let mut view = config.slots[slot as usize];
                    view.race = race;
                    config.slots.set(slot as usize, view);
                    ButtonOutcome::Nothing
                },
                _ => ButtonOutcome::Nothing,
            }
        },
        LobbyButton::Team(slot) => {
            let team = next_team(config.slots[slot as usize].team, config.slots.len());
            match (mode, link) {
                (LobbyMode::Host, LinkState::Host) => ButtonOutcome::Send(
                    LobbyRequest::SetTeam { slot, team },
                ),
                (LobbyMode::Client, LinkState::Client { local_player }) => {
                    if local_player == Some(slot) {
                        ButtonOutcome::Send(LobbyRequest::RequestTeam { team })
                    } else {
                        ButtonOutcome::Nothing
                    }
                },
                (LobbyMode::Local, _) => {
                    let mut view = config.slots[slot as usize];
                    view.team = team;
                    config.slots.set(slot as usize, view);
                    ButtonOutcome::Nothing
                },
                _ => ButtonOutcome::Nothing,
            }
        },
        LobbyButton::Claim(slot) => {
            if mode == LobbyMode::Local {
                claim_local(config, LocalRole::Player(slot));
            }
            ButtonOutcome::Nothing
        },
        LobbyButton::Mode => {
            match link {
                LinkState::Host => {
                    let next = match config.mode {
                        SessionMode::HostStar { ai_hosting } => SessionMode::MeshHosted {
                            ai_hosting,
                        },
                        SessionMode::MeshHosted { .. } => SessionMode::MeshDecentralized,
                        SessionMode::MeshDecentralized => SessionMode::HostStar {
                            ai_hosting: AiHosting::Host,
                        },
                    };
                    config.mode = next;
                    ButtonOutcome::Send(LobbyRequest::SetMode { mode: next })
                },
                _ => ButtonOutcome::Nothing,
            }
        },
        LobbyButton::AiHosting => {
            match link {
                LinkState::Host => {
                    let next = match config.mode {
                        SessionMode::HostStar { ai_hosting } => SessionMode::HostStar {
                            ai_hosting: flip_hosting(ai_hosting),
                        },
                        SessionMode::MeshHosted { ai_hosting } => SessionMode::MeshHosted {
                            ai_hosting: flip_hosting(ai_hosting),
                        },
                        SessionMode::MeshDecentralized => return ButtonOutcome::Nothing,
                    };
                    config.mode = next;
                    ButtonOutcome::Send(LobbyRequest::SetMode { mode: next })
                },
                _ => ButtonOutcome::Nothing,
            }
        },
        LobbyButton::Elimination => {
            let next = match config.elimination {
                EliminationScope::Player => EliminationScope::Side,
                EliminationScope::Side => EliminationScope::Player,
            };
            match (mode, link) {
                (LobbyMode::Host, LinkState::Host) => {
                    config.elimination = next;
                    ButtonOutcome::Send(LobbyRequest::SetFinishPolicy { elimination: next })
                },
                (LobbyMode::Local, _) => {
                    config.elimination = next;
                    ButtonOutcome::Nothing
                },
                _ => ButtonOutcome::Nothing,
            }
        },
        LobbyButton::Conduct => {
            config.conduct = match config.conduct {
                DefeatConduct::Conclude => DefeatConduct::Spectate,
                DefeatConduct::Spectate => DefeatConduct::Conclude,
            };
            ButtonOutcome::Nothing
        },
        LobbyButton::Observe => {
            let observing = config.local_seat == LocalRole::Observer;
            match (mode, link) {
                (LobbyMode::Host, LinkState::Host) => ButtonOutcome::Send(
                    if observing {
                        LobbyRequest::HostPlay
                    } else {
                        LobbyRequest::HostObserve
                    },
                ),
                (LobbyMode::Client, LinkState::Client { .. }) => ButtonOutcome::Send(
                    if observing {
                        LobbyRequest::RequestPlay
                    } else {
                        LobbyRequest::RequestObserve
                    },
                ),
                (LobbyMode::Local, _) => {
                    if observing {
                        let target = match position_of(&config.slots, SlotKind::Open) {
                            Some(k) => Some(k),
                            None => match position_of(&config.slots, SlotKind::Ai) {
                                Some(k) => Some(k),
                                None => position_of(&config.slots, SlotKind::Closed),
                            },
                        };
                        proof {
                            lemma_first_of_kind_bound(config.slots@, SlotKind::Open);
                            lemma_first_of_kind_bound(config.slots@, SlotKind::Ai);
                            lemma_first_of_kind_bound(config.slots@, SlotKind::Closed);
                        }
                        if let Some(slot) = target {
                            claim_local(config, LocalRole::Player(slot as u8));
                        }
                    } else {
                        claim_local(config, LocalRole::Observer);
                    }
                    ButtonOutcome::Nothing
                },
                _ => ButtonOutcome::Nothing,
            }
        },
        LobbyButton::Focus(field) => {
            config.focused = field;
            ButtonOutcome::Nothing
        },
        LobbyButton::Back => ButtonOutcome::BackToMenu,
        LobbyButton::Start => {
            if can_start(mode, link) {
                ButtonOutcome::StartRequested
            } else {
                ButtonOutcome::Nothing
            }
        },
    }
}

/// The other AI hosting choice.
fn flip_hosting(hosting: AiHosting) -> (other: AiHosting)
    ensures
        other == other_hosting(hosting),
{
    match hosting {
        AiHosting::Host => AiHosting::Replicated,
        AiHosting::Replicated => AiHosting::Host,
    }
}


/// The value of a run of decimal digits.
pub open spec fn digits_value(digits: Seq<char>) -> nat
    decreases digits.len(),
{
    if digits.len() == 0 {
        0
    } else {
        digits_value(digits.drop_last()) * 10 + ((digits.last() as int - '0' as int) as nat)
    }
}

/// The digits of a port field: everything after an optional leading `+`.
pub open spec fn port_digits(text: Seq<char>) -> Seq<char> {
    if text.len() > 0 && text[0] == '+' {
        text.drop_first()
    } else {
        text
    }
}

/// What a port field parses to: an optional `+`, then one or more decimal
/// digits whose value fits in sixteen bits; `None` for anything else.
pub open spec fn spec_parse_port(text: Seq<char>) -> Option<u16> {
    let digits = port_digits(text);
    if digits.len() > 0 && (forall|k: int| 0 <= k < digits.len() ==> is_digit(#[trigger] digits[k]))
        && digits_value(digits) <= u16::MAX {
        Some(digits_value(digits) as u16)
    } else {
        None
    }
}

proof fn lemma_digits_value_grows(digits: Seq<char>, n: int)
    requires
        0 <= n <= digits.len(),
        forall|k: int| 0 <= k < digits.len() ==> is_digit(#[trigger] digits[k]),
    ensures
        digits_value(digits.take(n)) <= digits_value(digits),
    decreases digits.len() - n,
{
    if n < digits.len() {
        lemma_digits_value_grows(digits, n + 1);
        assert(digits.take(n + 1).drop_last() =~= digits.take(n));
        assert(is_digit(digits[n]));
    } else {
        assert(digits.take(n) =~= digits);
    }
}

/// Parses a port as typed: an optional `+`, then decimal digits whose value
/// fits in sixteen bits.
pub fn parse_port(text: &str) -> (port: Option<u16>)
    ensures
        port == spec_parse_port(text@),
{
    let n = text.unicode_len();
    let start: usize = if n > 0 && text.get_char(0) == '+' {
        1
    } else {
        0
    };
    let ghost digits = port_digits(text@);
    assert(digits =~= text@.subrange(start as int, n as int));
    if start >= n {
        return None;
    }
    let mut value: u32 = 0;
    let mut i: usize = start;
    while i < n
        invariant
            start <= i <= n,
            n == text@.len(),
            start < n,
            digits =~= text@.subrange(start as int, n as int),
            digits == port_digits(text@),
            value <= u16::MAX,
            value == digits_value(digits.take(i - start)),
            forall|k: int| 0 <= k < i - start ==> is_digit(#[trigger] digits[k]),
        decreases n - i,
    {
        let c = text.get_char(i);
        if !('0' <= c && c <= '9') {
            assert(digits[i - start] == c);
            assert(!is_digit(digits[i - start]));
            assert(!(forall|k: int| 0 <= k < digits.len() ==> is_digit(#[trigger] digits[k])));
            assert(spec_parse_port(text@) is None);
            return None;
        }
        proof {
            assert(digits.take(i - start + 1).drop_last() =~= digits.take(i - start));
            assert(digits[i - start] == c);
        }
        let digit = (c as u32) - ('0' as u32);
        let next = value * 10 + digit;
        assert(next == digits_value(digits.take(i - start + 1))) by {
            assert(digits.take(i - start + 1).last() == c);
        }
        if next > 65535 {
            proof {
                if forall|k: int| 0 <= k < digits.len() ==> is_digit(#[trigger] digits[k]) {
                    lemma_digits_value_grows(digits, i - start + 1);
                    assert(digits_value(digits) > u16::MAX);
                }
                assert(spec_parse_port(text@) is None);
            }
            return None;
        }
        value = next;
        i = i + 1;
    }
    assert(digits.take(n - start) =~= digits);
    Some(value as u16)
}

/// The message a port field that does not parse is reported with.
pub open spec fn invalid_port_message(which: Seq<char>, input: Seq<char>) -> Seq<char> {
    "invalid "@ + which + " port '"@ + input + "'"@
}

/// Parses the TCP-port field: empty means the default, [`TCP_PORT`];
/// anything else must be a valid non-zero port, used exactly as given.
pub fn parse_tcp_port(input: &str) -> (port: Result<u16, String>)
    ensures
        input@.len() == 0 ==> port == Ok::<u16, String>(TCP_PORT),
        input@.len() != 0 ==> match spec_parse_port(input@) {
            Some(p) if p != 0 => port == Ok::<u16, String>(p),
            _ => port matches Err(message) && message@ == invalid_port_message("tcp"@, input@),
        },
{
    if input.is_empty() {
        return Ok(TCP_PORT);
    }
    match parse_port(input) {
        Some(port) if port != 0 => Ok(port),
        _ => {
            let mut message = String::from_str("invalid ");
            message.append("tcp");
            message.append(" port '");
            message.append(input);
            message.append("'");
            Err(message)
        },
    }
}

/// Parses the UDP-port field: empty means "pick an ephemeral port" (`None`);
/// anything else must be a valid port number, used exactly as given.
pub fn parse_udp_port(input: &str) -> (port: Result<Option<u16>, String>)
    ensures
        input@.len() == 0 ==> port == Ok::<Option<u16>, String>(None),
        input@.len() != 0 ==> match spec_parse_port(input@) {
            Some(p) => port == Ok::<Option<u16>, String>(Some(p)),
            None => port matches Err(message) && message@ == invalid_port_message("udp"@, input@),
        },
{
    if input.is_empty() {
        return Ok(None);
    }
    match parse_port(input) {
        Some(port) => Ok(Some(port)),
        None => {
            let mut message = String::from_str("invalid ");
            message.append("udp");
            message.append(" port '");
            message.append(input);
            message.append("'");
            Err(message)
        },
    }
}

/// The socket address `input` dials: as typed when it carries a port, with
/// [`TCP_PORT`] appended when it does not.
pub fn dial_addr(input: &str) -> (addr: String)
    ensures
        addr@ == if input@.contains(':') {
            input@
        } else {
            input@ + ":4000"@
        },
{
    if contains_char(input, ':') {
        owned(input)
    } else {
        joined(input, ":4000")
    }
}

/// A field's display text, with a cursor on the focused one.
pub fn field_view(value: &str, focused: bool) -> (text: String)
    ensures
        text@ == if focused {
            value@ + "_"@
        } else {
            value@
        },
{
    if focused {
        joined(value, "_")
    } else {
        owned(value)
    }
}

/// A team's short label for a slot row: its number, or `-` for no team.
pub fn team_label(team: Option<u8>) -> (label: String)
    ensures
        label@ == match team {
            Some(team) => decimal_text(team as nat),
            None => "-"@,
        },
{
    match team {
        Some(team) => decimal(team as u64),
        None => owned("-"),
    }
}

/// The seat a lobby link reports for this node: its player slot, the watching
/// place, or — momentarily unseated mid-move — the last known seat.
pub fn mirrored_seat(player: Option<u8>, observes: bool, current: LocalRole) -> (seat: LocalRole)
    ensures
        seat == match (player, observes) {
            (Some(slot), _) => LocalRole::Player(slot),
            (None, true) => LocalRole::Observer,
            (None, false) => current,
        },
{
    match (player, observes) {
        (Some(slot), _) => LocalRole::Player(slot),
        (None, true) => LocalRole::Observer,
        (None, false) => current,
    }
}

/// The kind of slot an occupant of the host's state shows as.
pub open spec fn occupant_kind(occupant: Occupant) -> SlotKind {
    match occupant {
        Occupant::Open => SlotKind::Open,
        Occupant::Human => SlotKind::Human,
        Occupant::Ai => SlotKind::Ai,
        Occupant::Closed => SlotKind::Closed,
    }
}

/// How a slot of the host's state shows in this node's lobby.
pub open spec fn mirrored_slot(info: SlotInfo) -> SlotView {
    SlotView {
        kind: occupant_kind(info.occupant),
        race: if info.race matches Some(race) && race@ == "orc"@ {
            Race::Orc
        } else {
            Race::Human
        },
        team: info.team,
    }
}

/// The configuration once the host's authoritative state is mirrored into
/// it: the slots, the observer counts, the mode, and — for a last-standing
/// finish — the elimination scope. Any other finish leaves the toggle where
/// it was, since the demo lobby never chooses one.
pub open spec fn mirrored(config: LobbyConfigView, state: LobbyState) -> LobbyConfigView {
    LobbyConfigView {
        slots: state.slots@.map_values(|info: SlotInfo| mirrored_slot(info)),
        observers: state.observers as int,
        observer_limit: state.observer_limit,
        mode: state.mode,
        elimination: match state.finish_policy {
            FinishPolicy::LastStanding { elimination } => elimination,
            _ => config.elimination,
        },
        ..config
    }
}

/// Mirrors the host's authoritative lobby state into the configuration, so
/// the view reflects connections and host edits live.
pub fn mirror(config: &mut LobbyConfig, state: &LobbyState)
    ensures
        final(config)@ == mirrored(old(config)@, *state),
{
    let mut slots: Vec<SlotView> = Vec::new();
    let mut k: usize = 0;
    while k < state.slots.len()
        invariant
            k <= state.slots@.len(),
            slots@.len() == k,
            forall|n: int|
                0 <= n < k ==> #[trigger] slots@[n] == mirrored_slot(state.slots@[n]),
        decreases state.slots@.len() - k,
    {
        let info = &state.slots[k];
        let kind = match info.occupant {
            Occupant::Open => SlotKind::Open,
            Occupant::Human => SlotKind::Human,
            Occupant::Ai => SlotKind::Ai,
            Occupant::Closed => SlotKind::Closed,
        };
        let race = match &info.race {
            Some(race) => Race::from_id(Some(race.as_str())),
            None => Race::from_id(None),
        };
        slots.push(SlotView { kind, race, team: info.team });
        k = k + 1;
    }
    assert(slots@ =~= state.slots@.map_values(|info: SlotInfo| mirrored_slot(info)));
    config.slots = slots;
    config.observers = state.observers;
    config.observer_limit = state.observer_limit;
    config.mode = state.mode;
    match state.finish_policy {
        FinishPolicy::LastStanding { elimination } => config.elimination = elimination,
        FinishPolicy::Endless | FinishPolicy::Scripted => {},
    }
}

/// A key pressed while a lobby field has focus.
pub enum TypedKey {
    /// Deletes the last character.
    Backspace,
    /// Types the text.
    Text(String),
    /// Anything else: ignored.
    Other,
}

/// Whether a character may be typed into the address field: addresses, host
/// names, and an optional `:port`.
pub open spec fn addr_char(c: char) -> bool {
    is_alphanumeric(c) || c == '.' || c == ':' || c == '-'
}

/// The characters of `text` the address field keeps, in order.
pub open spec fn keep_addr(text: Seq<char>) -> Seq<char>
    decreases text.len(),
{
    if text.len() == 0 {
        text
    } else {
        keep_addr(text.drop_last()) + if addr_char(text.last()) {
            seq![text.last()]
        } else {
            Seq::empty()
        }
    }
}

/// The digits of `text`, in order.
pub open spec fn keep_digits(text: Seq<char>) -> Seq<char>
    decreases text.len(),
{
    if text.len() == 0 {
        text
    } else {
        keep_digits(text.drop_last()) + if is_digit(text.last()) {
            seq![text.last()]
        } else {
            Seq::empty()
        }
    }
}

/// How many more characters a port field takes: five bytes in all.
pub open spec fn port_room(field: Seq<char>) -> int {
    let used = (vstd::utf8::encode_utf8(field).len() as usize) as int;
    if used >= 5 {
        0
    } else {
        5 - used
    }
}

/// A port field after `typed` is typed into it: its digits, as many as fit.
pub open spec fn typed_port(field: Seq<char>, typed: Seq<char>) -> Seq<char> {
    field + keep_digits(typed).take(
        if keep_digits(typed).len() < port_room(field) {
            keep_digits(typed).len() as int
        } else {
            port_room(field)
        },
    )
}

/// A field's text after a backspace.
pub open spec fn backspaced(field: Seq<char>) -> Seq<char> {
    if field.len() == 0 {
        field
    } else {
        field.drop_last()
    }
}

/// Whether this node's lobby takes typing: a local game has no fields, and a
/// connected client's fields are spent.
pub open spec fn fields_editable(mode: LobbyMode, link: LinkState) -> bool {
    match mode {
        LobbyMode::Local => false,
        LobbyMode::Client => link == LinkState::Absent,
        LobbyMode::Host => true,
    }
}

/// The configuration after a key is typed into its focused field.
pub open spec fn typed_into(
    config: LobbyConfigView,
    mode: LobbyMode,
    link: LinkState,
    key: TypedKey,
) -> LobbyConfigView {
    if !fields_editable(mode, link) {
        config
    } else {
        match key {
            TypedKey::Backspace => match config.focused {
                LobbyField::Addr => LobbyConfigView {
                    host_addr: backspaced(config.host_addr),
                    ..config
                },
                LobbyField::TcpPort => LobbyConfigView {
                    tcp_port: backspaced(config.tcp_port),
                    ..config
                },
                LobbyField::UdpPort => LobbyConfigView {
                    udp_port: backspaced(config.udp_port),
                    ..config
                },
            },
            TypedKey::Text(typed) => match config.focused {
                LobbyField::Addr => LobbyConfigView {
                    host_addr: config.host_addr + keep_addr(typed@),
                    ..config
                },
                LobbyField::TcpPort => LobbyConfigView {
                    tcp_port: typed_port(config.tcp_port, typed@),
                    ..config
                },
                LobbyField::UdpPort => LobbyConfigView {
                    udp_port: typed_port(config.udp_port, typed@),
                    ..config
                },
            },
            TypedKey::Other => config,
        }
    }
}

/// Appends the characters of `typed` the address field keeps.
fn append_addr(field: &mut String, typed: &str)
    ensures
        final(field)@ == old(field)@ + keep_addr(typed@),
{
    let n = typed.unicode_len();
    let ghost start = field@;
    let mut i: usize = 0;
    while i < n
        invariant
            n == typed@.len(),
            i <= n,
            field@ == start + keep_addr(typed@.take(i as int)),
        decreases n - i,
    {
        let c = typed.get_char(i);
        proof {
            assert(typed@.take(i + 1).drop_last() =~= typed@.take(i as int));
            assert(typed@.take(i + 1).last() == c);
        }
        if ('0' <= c && c <= '9') || ('a' <= c && c <= 'z') || ('A' <= c && c <= 'Z') || c == '.'
            || c == ':' || c == '-' {
            field.append(typed.substring_char(i, i + 1));
            proof {
                assert(typed@.subrange(i as int, i + 1) =~= seq![c]);
                assert(field@ =~= start + keep_addr(typed@.take(i + 1)));
            }
        } else {
            proof {
                assert(field@ =~= start + keep_addr(typed@.take(i + 1)));
            }
        }
        i = i + 1;
    }
    assert(typed@.take(n as int) =~= typed@);
}

/// Appends the digits of `typed`, as many as the port field has room for.
fn append_port_digits(field: &mut String, typed: &str)
    ensures
        final(field)@ == typed_port(old(field)@, typed@),
{
    let used = field.as_str().len();
    let room: usize = if used >= 5 {
        0
    } else {
        5 - used
    };
    assert(room == port_room(field@));
    let n = typed.unicode_len();
    let ghost start = field@;
    let mut taken: usize = 0;
    let mut i: usize = 0;
    while i < n
        invariant
            n == typed@.len(),
            i <= n,
            room == port_room(start),
            taken <= room,
            taken == (if keep_digits(typed@.take(i as int)).len() < room {
                keep_digits(typed@.take(i as int)).len() as int
            } else {
                room as int
            }),
            field@ == start + keep_digits(typed@.take(i as int)).take(taken as int),
        decreases n - i,
    {
        let c = typed.get_char(i);
        let ghost before = keep_digits(typed@.take(i as int));
        proof {
            assert(typed@.take(i + 1).drop_last() =~= typed@.take(i as int));
            assert(typed@.take(i + 1).last() == c);
        }
        if '0' <= c && c <= '9' {
            assert(keep_digits(typed@.take(i + 1)) =~= before.push(c));
            if taken < room {
                field.append(typed.substring_char(i, i + 1));
                proof {
                    assert(typed@.subrange(i as int, i + 1) =~= seq![c]);
                    assert(before.push(c).take(taken + 1) =~= before.take(taken as int).push(c));
                }
                taken = taken + 1;
            } else {
                proof {
                    assert(before.push(c).take(taken as int) =~= before.take(taken as int));
                }
            }
        } else {
            assert(keep_digits(typed@.take(i + 1)) =~= before);
        }
        i = i + 1;
    }
    assert(typed@.take(n as int) =~= typed@);
}

/// Types a key into the focused field: the host address takes addresses,
/// host names and an optional `:port`; the port fields take digits, at most
/// five bytes in all. A local game has no fields, and a connected client's
/// are spent.
pub fn type_key(config: &mut LobbyConfig, mode: LobbyMode, link: LinkState, key: &TypedKey)
    ensures
        final(config)@ == typed_into(old(config)@, mode, link, *key),
{
    match mode {
        LobbyMode::Local => return,
        LobbyMode::Client => {
            if link != LinkState::Absent {
                return;
            }
        },
        LobbyMode::Host => {},
    }
    match key {
        TypedKey::Backspace => match config.focused {
            LobbyField::Addr => config.host_addr = without_last(config.host_addr.as_str()),
            LobbyField::TcpPort => config.tcp_port = without_last(config.tcp_port.as_str()),
            LobbyField::UdpPort => config.udp_port = without_last(config.udp_port.as_str()),
        },
        TypedKey::Text(typed) => match config.focused {
            LobbyField::Addr => append_addr(&mut config.host_addr, typed.as_str()),
            LobbyField::TcpPort => append_port_digits(&mut config.tcp_port, typed.as_str()),
            LobbyField::UdpPort => append_port_digits(&mut config.udp_port, typed.as_str()),
        },
        TypedKey::Other => {},
    }
}


/// How many player seats a map declares.
pub open spec fn player_seats(seats: Seq<crate::map::Seat>) -> nat
    decreases seats.len(),
{
    if seats.len() == 0 {
        0
    } else {
        player_seats(seats.drop_last()) + match seats.last() {
            crate::map::Seat::Player { .. } => 1nat,
            crate::map::Seat::Environment => 0nat,
        }
    }
}

/// How many player seats a map declares.
fn count_player_seats(seats: &Vec<crate::map::Seat>) -> (count: usize)
    ensures
        count == player_seats(seats@),
{
    let mut count: usize = 0;
    let mut k: usize = 0;
    while k < seats.len()
        invariant
            k <= seats@.len(),
            count <= k,
            count == player_seats(seats@.take(k as int)),
        decreases seats@.len() - k,
    {
        proof {
            assert(seats@.take(k + 1).drop_last() =~= seats@.take(k as int));
        }
        match seats[k] {
            crate::map::Seat::Player { .. } => count = count + 1,
            crate::map::Seat::Environment => {},
        }
        k = k + 1;
    }
    assert(seats@.take(seats@.len() as int) =~= seats@);
    count
}

/// The row a fresh lobby shows for slot `i`: the first slot is the local
/// human's in a local or hosted game; the rest are AIs in a local game and
/// open seats in a network one; races alternate, humans first; nobody is on a
/// team.
pub open spec fn initial_slot(mode: LobbyMode, i: int) -> SlotView {
    SlotView {
        kind: match mode {
            LobbyMode::Local => if i == 0 {
                SlotKind::Human
            } else {
                SlotKind::Ai
            },
            LobbyMode::Host => if i == 0 {
                SlotKind::Human
            } else {
                SlotKind::Open
            },
            LobbyMode::Client => SlotKind::Open,
        },
        race: if i % 2 == 0 {
            Race::Human
        } else {
            Race::Orc
        },
        team: None,
    }
}

impl LobbyConfig {
    /// A fresh configuration for the lobby `mode`: one row per player seat the
    /// demo map declares, a host-star session with the host computing AI, the
    /// first seat the local human's, focus on the field the mode types into
    /// first, elimination by side, and spectating on defeat.
    pub fn for_mode(mode: LobbyMode) -> (config: LobbyConfig)
        ensures
            config@.wf(),
            config@.map == crate::map::NAME@,
            config@.slots.len() == 4,
            forall|i: int| 0 <= i < 4 ==> #[trigger] config@.slots[i] == initial_slot(mode, i),
            config@.observers == 0,
            config@.observer_limit == OBSERVER_LIMIT,
            config@.mode == (SessionMode::HostStar { ai_hosting: AiHosting::Host }),
            config@.local_seat == LocalRole::Player(0),
            config@.host_addr == "127.0.0.1"@,
            config@.tcp_port.len() == 0,
            config@.udp_port.len() == 0,
            config@.focused == if mode == LobbyMode::Host {
                LobbyField::TcpPort
            } else {
                LobbyField::Addr
            },
            config@.elimination == EliminationScope::Side,
            config@.conduct == DefeatConduct::Spectate,
            config@.status.len() == 0,
    {
        let map = String::from_str(crate::map::NAME);
        let data = match crate::map::by_name(map.as_str()) {
            Some(data) => data,
            None => {
                assert(false);
                crate::map::data()
            },
        };
        let seats = count_player_seats(&data.seats);
        proof {
            let s = data.seats@;
            assert(s.drop_last().drop_last().drop_last().drop_last().drop_last() =~= Seq::<
                crate::map::Seat,
            >::empty());
            reveal_with_fuel(player_seats, 6);
            assert(player_seats(s) == 4);
        }
        let mut slots: Vec<SlotView> = Vec::new();
        let mut i: usize = 0;
        while i < seats
            invariant
                seats == 4,
                i <= seats,
                slots@.len() == i,
                forall|n: int| 0 <= n < i ==> #[trigger] slots@[n] == initial_slot(mode, n),
            decreases seats - i,
        {
            let kind = match (mode, i) {
                (LobbyMode::Local, 0) | (LobbyMode::Host, 0) => SlotKind::Human,
                (LobbyMode::Local, _) => SlotKind::Ai,
                (LobbyMode::Host, _) => SlotKind::Open,
                (LobbyMode::Client, _) => SlotKind::Open,
            };
            let race = if i % 2 == 0 {
                Race::Human
            } else {
                Race::Orc
            };
            slots.push(SlotView { kind, race, team: None });
            i = i + 1;
        }
        LobbyConfig {
            map,
            slots,
            observers: 0,
            observer_limit: OBSERVER_LIMIT,
            mode: SessionMode::HostStar { ai_hosting: AiHosting::Host },
            local_seat: LocalRole::Player(0),
            host_addr: String::from_str("127.0.0.1"),
            tcp_port: String::new(),
            udp_port: String::new(),
            focused: match mode {
                LobbyMode::Host => LobbyField::TcpPort,
                _ => LobbyField::Addr,
            },
            elimination: EliminationScope::Side,
            conduct: DefeatConduct::Spectate,
            status: String::new(),
        }
    }
}

/// Who sits in a player seat once the game starts, as the lobby's rows
/// configure it. Watching seats configure no slot at all: their humans enter
/// the game as observers, outside its roster.
#[derive(Clone, Copy, Debug)]
pub enum SeatPlan {
    /// A human, playing the race on the team.
    Human { race: Race, team: Option<u8> },
    /// A local AI, playing the race on the team.
    Ai { race: Race, team: Option<u8> },
    /// Nobody.
    Free,
}

/// The seat a lobby row configures.
pub open spec fn plan_of(view: SlotView) -> SeatPlan {
    match view.kind {
        SlotKind::Human => SeatPlan::Human { race: view.race, team: view.team },
        SlotKind::Ai => SeatPlan::Ai { race: view.race, team: view.team },
        SlotKind::Open | SlotKind::Closed => SeatPlan::Free,
    }
}

/// The seats the lobby's rows configure, in slot order: a slot's id is its
/// row.
pub fn seat_plans(config: &LobbyConfig) -> (plans: Vec<SeatPlan>)
    ensures
        plans@.len() == config@.slots.len(),
        forall|i: int| 0 <= i < plans@.len() ==> #[trigger] plans@[i] == plan_of(config@.slots[i]),
{
    let mut plans: Vec<SeatPlan> = Vec::new();
    let mut i: usize = 0;
    while i < config.slots.len()
        invariant
            i <= config.slots@.len(),
            plans@.len() == i,
            forall|n: int| 0 <= n < i ==> #[trigger] plans@[n] == plan_of(config.slots@[n]),
        decreases config.slots@.len() - i,
    {
        let view = config.slots[i];
        let plan = match view.kind {
            SlotKind::Human => SeatPlan::Human { race: view.race, team: view.team },
            SlotKind::Ai => SeatPlan::Ai { race: view.race, team: view.team },
            SlotKind::Open | SlotKind::Closed => SeatPlan::Free,
        };
        plans.push(plan);
        i = i + 1;
    }
    plans
}

/// A seat of the skirmish a lobby starts.
#[derive(Clone, Copy, Debug)]
pub enum LineupSeat {
    /// A player seat of the map, filled (or left free) by its lobby row.
    Player(SeatPlan),
    /// A seat the environment holds.
    Environment,
}

/// The lineup a started skirmish seats: each map seat in order, a player seat
/// taking the plan of the lobby row with its index, and free where no row
/// reaches it.
pub open spec fn lineup_seat(seats: Seq<crate::map::Seat>, plans: Seq<SeatPlan>, k: int) -> LineupSeat {
    match seats[k] {
        crate::map::Seat::Player { .. } => LineupSeat::Player(
            if k < plans.len() {
                plans[k]
            } else {
                SeatPlan::Free
            },
        ),
        crate::map::Seat::Environment => LineupSeat::Environment,
    }
}

/// Seats the lobby's rows into the map's seats: the vacant skirmish — player
/// seats free, environment seats held — with each row's plan landing on the
/// player seat of the same index.
pub fn lineup(seats: &Vec<crate::map::Seat>, plans: &Vec<SeatPlan>) -> (lineup: Vec<LineupSeat>)
    requires
        plans@.len() <= seats@.len(),
        forall|k: int|
            0 <= k < plans@.len() ==> #[trigger] seats@[k] matches crate::map::Seat::Player { .. },
    ensures
        lineup@.len() == seats@.len(),
        forall|k: int| 0 <= k < lineup@.len() ==> #[trigger] lineup@[k] == lineup_seat(seats@, plans@, k),
{
    let mut lineup: Vec<LineupSeat> = Vec::new();
    let mut k: usize = 0;
    while k < seats.len()
        invariant
            k <= seats@.len(),
            lineup@.len() == k,
            forall|n: int| 0 <= n < k ==> #[trigger] lineup@[n] == lineup_seat(seats@, plans@, n),
        decreases seats@.len() - k,
    {
        let seat = match seats[k] {
            crate::map::Seat::Player { .. } => LineupSeat::Player(
                if k < plans.len() {
                    plans[k]
                } else {
                    SeatPlan::Free
                },
            ),
            crate::map::Seat::Environment => LineupSeat::Environment,
        };
        lineup.push(seat);
        k = k + 1;
    }
    lineup
}

/// What the host's lobby listener does this frame.
pub enum RebindAction {
    /// Nothing.
    Idle,
    /// The typed port does not parse; the message says why.
    Report(String),
    /// Reopen the lobby on this port.
    Reopen(u16),
}

/// One frame of the host's rebinding: reopening resets the lobby (connected
/// clients drop and redial the new port), so a new port waits until its value
/// has stood unchanged for [`CONNECT_RETRY_FRAMES`] frames, not each keystroke.
/// `last` is the value seen last frame, `cooldown` the frames still to wait.
pub fn rebind_step(
    mode: LobbyMode,
    bound: Option<u16>,
    typed: &str,
    last: &mut Option<u16>,
    cooldown: &mut u32,
) -> (action: RebindAction)
    ensures
        mode != LobbyMode::Host ==> action is Idle && *final(last) == *old(last) && *final(cooldown) == *old(cooldown),
        mode == LobbyMode::Host ==> {
            let desired = if typed@.len() == 0 {
                Some(TCP_PORT)
            } else {
                match spec_parse_port(typed@) {
                    Some(p) if p != 0 => Some(p),
                    _ => None,
                }
            };
            match desired {
                None => action matches RebindAction::Report(message) && message@
                    == invalid_port_message("tcp"@, typed@) && *final(last) == *old(last)
                    && *final(cooldown) == *old(cooldown),
                Some(port) => if bound == Some(port) {
                    action is Idle && *final(last) == Some(port) && *final(cooldown) == *old(cooldown)
                } else if *old(last) != Some(port) {
                    action is Idle && *final(last) == Some(port) && *final(cooldown)
                        == CONNECT_RETRY_FRAMES
                } else if *old(cooldown) > 0 {
                    action is Idle && *final(last) == *old(last) && *final(cooldown) == *old(cooldown) - 1
                } else {
                    action == RebindAction::Reopen(port) && *final(last) == *old(last) && *final(cooldown) == CONNECT_RETRY_FRAMES
                },
            }
        },
{
    if mode != LobbyMode::Host {
        return RebindAction::Idle;
    }
    let desired = match parse_tcp_port(typed) {
        Ok(port) => port,
        Err(message) => return RebindAction::Report(message),
    };
    if bound == Some(desired) {
        *last = Some(desired);
        return RebindAction::Idle;
    }
    if *last != Some(desired) {
        *last = Some(desired);
        *cooldown = CONNECT_RETRY_FRAMES;
        return RebindAction::Idle;
    }
    if *cooldown > 0 {
        *cooldown = *cooldown - 1;
        return RebindAction::Idle;
    }
    *cooldown = CONNECT_RETRY_FRAMES;
    RebindAction::Reopen(desired)
}

/// What a client not yet linked does about connecting this frame.
pub enum ConnectAction {
    /// Nothing: not a client, already linked, or waiting out the cooldown.
    Idle,
    /// The address was edited past the attempt in flight: drop it.
    Abandon,
    /// An attempt is in flight for the current address: see if it finished.
    Poll,
    /// Start an attempt dialing `addr`, made for the field's text `field`.
    Dial { addr: String, field: String },
}

/// One frame of a client's automatic connecting: it dials on a cooldown while
/// it is not linked, abandons an attempt as soon as the typed address changes
/// (redialing on the next frame), and otherwise polls the attempt in flight.
pub fn connect_step(
    mode: LobbyMode,
    link: LinkState,
    pending: Option<&str>,
    host_addr: &str,
    cooldown: &mut u32,
) -> (action: ConnectAction)
    ensures
        mode != LobbyMode::Client || link != LinkState::Absent ==> action is Idle && *final(cooldown) == *old(cooldown),
        mode == LobbyMode::Client && link == LinkState::Absent ==> match pending {
            Some(attempt) => if attempt@ != host_addr@ {
                action is Abandon && *final(cooldown) == 0
            } else {
                action is Poll && *final(cooldown) == *old(cooldown)
            },
            None => if *old(cooldown) > 0 {
                action is Idle && *final(cooldown) == *old(cooldown) - 1
            } else {
                *final(cooldown) == CONNECT_RETRY_FRAMES && (action matches ConnectAction::Dial {
                    addr,
                    field,
                } && field@ == host_addr@ && addr@ == if host_addr@.contains(':') {
                    host_addr@
                } else {
                    host_addr@ + ":4000"@
                })
            },
        },
{
    if mode != LobbyMode::Client || link != LinkState::Absent {
        return ConnectAction::Idle;
    }
    if let Some(attempt) = pending {
        if !str_eq(attempt, host_addr) {
            *cooldown = 0;
            return ConnectAction::Abandon;
        }
        return ConnectAction::Poll;
    }
    if *cooldown > 0 {
        *cooldown = *cooldown - 1;
        return ConnectAction::Idle;
    }
    *cooldown = CONNECT_RETRY_FRAMES;
    ConnectAction::Dial { addr: dial_addr(host_addr), field: owned(host_addr) }
}

proof fn lemma_decimal_digits(n: nat)
    ensures
        decimal_text(n).len() > 0,
        forall|k: int| 0 <= k < decimal_text(n).len() ==> is_digit(#[trigger] decimal_text(n)[k]),
        digits_value(decimal_text(n)) == n,
        decimal_text(n)[0] != '+',
    decreases n,
{
    if n < 10 {
        assert(digits_value(decimal_text(n).drop_last()) == 0) by {
            assert(decimal_text(n).drop_last() =~= Seq::<char>::empty());
        }
    } else {
        let head = decimal_text(n / 10);
        let d = n % 10;
        lemma_decimal_digits(n / 10);
        let text = decimal_text(n);
        assert(text == head + seq![digit_char(d as int)]);
        assert(text.drop_last() =~= head);
        assert(text.last() == digit_char(d as int));
        assert((digit_char(d as int) as int) - ('0' as int) == d);
        assert forall|k: int| 0 <= k < text.len() implies is_digit(#[trigger] text[k]) by {
            if k < head.len() {
                assert(text[k] == head[k]);
            }
        }
        assert(text[0] == head[0]);
        assert(n == 10 * (n / 10) + n % 10) by {
            vstd::arithmetic::div_mod::lemma_fundamental_div_mod(n as int, 10);
        }
    }
}

/// A port written out in decimal parses back to itself: what the lobby shows
/// of a port is what it would read from the field.
pub proof fn law_port_round_trip(port: u16)
    ensures
        spec_parse_port(decimal_text(port as nat)) == Some(port),
{
    lemma_decimal_digits(port as nat);
    let text = decimal_text(port as nat);
    assert(port_digits(text) == text);
}

/// Toggling a slot's race twice gives the race it had.
pub proof fn law_race_toggle_twice(race: Race)
    ensures
        race_toggled(race_toggled(race)) == race,
        race_toggled(race) != race,
{
}

/// Cycling a slot's team from no team passes through every team of the lobby
/// in turn and comes back to no team after one more press.
pub proof fn law_team_cycle(seats: u8, k: int)
    requires
        1 <= k <= seats,
    ensures
        team_after(seats as int, k) == Some(k as u8),
        team_after(seats as int, seats as int + 1) == None::<u8>,
{
    lemma_team_after_reaches(seats, k);
    lemma_team_after_reaches(seats, seats as int);
    assert(team_after(seats as int, seats as int + 1) == spec_next_team(
        team_after(seats as int, seats as int),
        seats as int,
    ));
}

proof fn lemma_team_after_reaches(seats: u8, k: int)
    requires
        1 <= k <= seats,
    ensures
        team_after(seats as int, k) == Some(k as u8),
    decreases k,
{
    reveal_with_fuel(team_after, 2);
    if k > 1 {
        lemma_team_after_reaches(seats, k - 1);
        assert(team_after(seats as int, k) == spec_next_team(team_after(seats as int, k - 1), seats as int));
    }
}

/// The team a slot shows after `presses` presses of its team button from no
/// team, in a lobby of `seats` slots.
pub open spec fn team_after(seats: int, presses: int) -> Option<u8>
    decreases presses,
{
    if presses <= 0 {
        None
    } else {
        spec_next_team(team_after(seats, presses - 1), seats)
    }
}

/// The other race.
pub open spec fn race_toggled(race: Race) -> Race {
    match race {
        Race::Human => Race::Orc,
        Race::Orc => Race::Human,
    }
}

/// What each slot holds, in slot order.
pub open spec fn slot_kinds(slots: Seq<SlotView>) -> Seq<SlotKind> {
    slots.map_values(|view: SlotView| view.kind)
}

proof fn lemma_first_of_kind_exact(slots: Seq<SlotView>, kind: SlotKind)
    ensures
        first_of_kind(slots, kind) matches Some(k) ==> 0 <= k < slots.len() && slots[k].kind
            == kind && forall|j: int| 0 <= j < k ==> #[trigger] slots[j].kind != kind,
        first_of_kind(slots, kind) is None ==> forall|i: int|
            0 <= i < slots.len() ==> #[trigger] slots[i].kind != kind,
    decreases slots.len(),
{
    if slots.len() > 0 {
        let rest = slots.drop_last();
        lemma_first_of_kind_exact(rest, kind);
        match first_of_kind(rest, kind) {
            Some(k) => {
                assert forall|j: int| 0 <= j < k implies #[trigger] slots[j].kind != kind by {
                    assert(rest[j] == slots[j]);
                }
                assert(slots[k] == rest[k]);
            },
            None => {
                if slots.last().kind == kind {
                    assert forall|j: int| 0 <= j < slots.len() - 1 implies #[trigger] slots[j].kind
                        != kind by {
                        assert(rest[j] == slots[j]);
                    }
                } else {
                    assert forall|i: int| 0 <= i < slots.len() implies #[trigger] slots[i].kind != kind by {
                        if i < slots.len() - 1 {
                            assert(rest[i] == slots[i]);
                        }
                    }
                }
            },
        }
    }
}

/// In a local game, moving out to watch and back again returns the human to a
/// player seat no later than the one it left, with nobody watching, every
/// closed seat still closed, and the same slot kinds as before: the seat left
/// became an AI's, and the seat come back to is the first AI's.
pub proof fn law_observe_twice(config: LobbyConfigView, link: LinkState, p: u8)
    requires
        config.wf(),
        config.local_seat == LocalRole::Player(p),
        config.slots[p as int].kind == SlotKind::Human,
        forall|i: int| 0 <= i < config.slots.len() ==> #[trigger] config.slots[i].kind != SlotKind::Open,
    ensures
        ({
            let once = pressed(config, LobbyMode::Local, link, LobbyButton::Observe).0;
            let twice = pressed(once, LobbyMode::Local, link, LobbyButton::Observe).0;
            &&& once.local_seat == LocalRole::Observer
            &&& twice.local_seat matches LocalRole::Player(q) && q <= p
            &&& twice.observers == 0
            &&& twice.slots.len() == config.slots.len()
            &&& forall|i: int|
                0 <= i < config.slots.len() && config.slots[i].kind == SlotKind::Closed
                    ==> #[trigger] twice.slots[i].kind == SlotKind::Closed
            &&& slot_kinds(twice.slots).to_multiset() == slot_kinds(config.slots).to_multiset()
        }),
{
    broadcast use vstd::seq_lib::to_multiset_update;
    broadcast use vstd::multiset::group_multiset_axioms;

    let once = pressed(config, LobbyMode::Local, link, LobbyButton::Observe).0;
    let left = config.slots.update(p as int, SlotView { kind: SlotKind::Ai, ..config.slots[p as int] });
    assert(once == claimed(config, LocalRole::Observer));
    assert(once.slots == left);
    assert(once.local_seat == LocalRole::Observer);
    lemma_first_of_kind_exact(left, SlotKind::Open);
    lemma_first_of_kind_exact(left, SlotKind::Ai);
    assert(left[p as int].kind == SlotKind::Ai);
    if first_of_kind(left, SlotKind::Open) is Some {
        let k = first_of_kind(left, SlotKind::Open)->0;
        assert(left[k].kind == SlotKind::Open);
        assert(config.slots[k].kind != SlotKind::Open);
    }
    assert(first_of_kind(left, SlotKind::Open) is None);
    let q = first_of_kind(left, SlotKind::Ai)->0;
    assert(q <= p);
    assert(return_seat(left) == Some(q));
    let twice = pressed(once, LobbyMode::Local, link, LobbyButton::Observe).0;
    let back = left.update(q, SlotView { kind: SlotKind::Human, ..left[q] });
    assert(twice == claimed(once, LocalRole::Player(q as u8)));
    assert(twice.slots == back);
    let kinds = slot_kinds(config.slots);
    assert(slot_kinds(left) =~= kinds.update(p as int, SlotKind::Ai));
    assert(slot_kinds(back) =~= slot_kinds(left).update(q, SlotKind::Human));
    assert(kinds[p as int] == SlotKind::Human);
    assert(slot_kinds(left)[q] == SlotKind::Ai);
    let m = kinds.to_multiset();
    assert(slot_kinds(left).to_multiset() == m.insert(SlotKind::Ai).remove(SlotKind::Human));
    assert(slot_kinds(back).to_multiset() == m.insert(SlotKind::Ai).remove(SlotKind::Human).insert(
        SlotKind::Human,
    ).remove(SlotKind::Ai));
    assert(m.count(SlotKind::Human) > 0) by {
        vstd::seq_lib::to_multiset_contains(kinds, SlotKind::Human);
        assert(kinds.contains(SlotKind::Human)) by {
            assert(kinds[p as int] == SlotKind::Human);
        }
    }
    assert(slot_kinds(back).to_multiset() =~= m);
}

/// Pressing a slot's Kind button. In a local game the local human's own slot
/// stays as it is; any other slot always changes, and nothing else does: an
/// AI's slot closes, and any other slot becomes an AI's, so a second press
/// brings a closed AI back. A host instead asks its link for the next
/// occupant: an empty slot an AI, an AI's slot closed, a closed slot open
/// again, and nothing for a slot a human holds; a client edits no slot.
pub proof fn law_kind_press(config: LobbyConfigView, link: LinkState, slot: u8)
    requires
        config.wf(),
        slot < config.slots.len(),
    ensures
        ({
            let (after, outcome) = pressed(config, LobbyMode::Local, link, LobbyButton::Kind(slot));
            let before = config.slots[slot as int];
            let now = after.slots[slot as int];
            &&& outcome == ButtonOutcome::Nothing
            &&& config.local_seat == LocalRole::Player(slot) ==> after == config
            &&& config.local_seat != LocalRole::Player(slot) ==> {
                &&& after.slots.len() == config.slots.len()
                &&& now.kind != before.kind
                &&& (now.kind == SlotKind::Closed <==> before.kind == SlotKind::Ai)
                &&& (now.kind == SlotKind::Ai <==> before.kind != SlotKind::Ai)
                &&& now.race == before.race && now.team == before.team
                &&& forall|i: int|
                    0 <= i < config.slots.len() && i != slot ==> #[trigger] after.slots[i]
                        == config.slots[i]
                &&& after.local_seat == config.local_seat && after.observers == config.observers
            }
        }),
        ({
            let (after, outcome) = pressed(config, LobbyMode::Host, LinkState::Host, LobbyButton::Kind(slot));
            &&& after == config
            &&& outcome == match config.slots[slot as int].kind {
                SlotKind::Open => ButtonOutcome::Send(LobbyRequest::SetOccupant { slot, occupant: Occupant::Ai }),
                SlotKind::Ai => ButtonOutcome::Send(
                    LobbyRequest::SetOccupant { slot, occupant: Occupant::Closed },
                ),
                SlotKind::Closed => ButtonOutcome::Send(
                    LobbyRequest::SetOccupant { slot, occupant: Occupant::Open },
                ),
                SlotKind::Human => ButtonOutcome::Nothing,
            }
        }),
        pressed(config, LobbyMode::Client, link, LobbyButton::Kind(slot)) == (config, ButtonOutcome::Nothing),
{
}

} // verus!
