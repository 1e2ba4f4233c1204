//! The lobby's texts: the title, a line per slot, the observer count, the
//! session choices, the typed fields, and the status lines — refreshed each
//! frame so joins and edits show live.
use vstd::prelude::*;
use crate::lobby::{
    LobbyMode, SlotView, LocalRole, SessionMode, AiHosting, EliminationScope, DefeatConduct,
    LobbyButton, LobbyField, LobbyConfig, kind_label, race_label, field_view, team_label,
};
use crate::text::{decimal, decimal_text, owned};

verus! {

broadcast use vstd::string::group_string_axioms;

/// The lobby screen's title for the mode it was entered in.
pub open spec fn title_text(mode: LobbyMode) -> Seq<char> {
    match mode {
        LobbyMode::Local => "Local Game"@,
        LobbyMode::Host => "Create Network Game"@,
        LobbyMode::Client => "Connect To Network Game"@,
    }
}

/// The lobby screen's title.
pub fn title(mode: LobbyMode) -> (text: &'static str)
    ensures
        text@ == title_text(mode),
{
    match mode {
        LobbyMode::Local => "Local Game",
        LobbyMode::Host => "Create Network Game",
        LobbyMode::Client => "Connect To Network Game",
    }
}

/// The marker a row of this node's own seat carries.
pub open spec fn you_marker(yours: bool) -> Seq<char> {
    if yours {
        " (you)"@
    } else {
        ""@
    }
}

/// A slot's row: its number, what occupies it, its race, its team, and
/// whether it is this node's own seat.
pub open spec fn slot_line_text(slot: u8, view: SlotView, local_seat: LocalRole) -> Seq<char> {
    "Slot "@ + decimal_text(slot as nat) + ": "@ + kind_label(view.kind) + " - "@ + race_label(
        view.race,
    ) + " - Team "@ + match view.team {
        Some(team) => decimal_text(team as nat),
        None => "-"@,
    } + you_marker(local_seat == LocalRole::Player(slot))
}

/// A slot's row of the lobby.
pub fn slot_line(slot: u8, view: SlotView, local_seat: LocalRole) -> (line: String)
    ensures
        line@ == slot_line_text(slot, view, local_seat),
{
    let mut line = String::from_str("Slot ");
    let number = decimal(slot as u64);
    line.append(number.as_str());
    line.append(": ");
    line.append(view.kind.label());
    line.append(" - ");
    line.append(view.race.label());
    line.append(" - Team ");
    let team = team_label(view.team);
    line.append(team.as_str());
    if local_seat == LocalRole::Player(slot) {
        line.append(" (you)");
    } else {
        line.append("");
    }
    line
}

/// The observer line: in a local game, whether the one human plays or watches;
/// in a network game, how many watch out of how many the host admits.
pub open spec fn observer_line_text(
    mode: LobbyMode,
    local_seat: LocalRole,
    observers: nat,
    limit: u8,
) -> Seq<char> {
    let you = you_marker(local_seat == LocalRole::Observer);
    match mode {
        LobbyMode::Local => (if local_seat == LocalRole::Observer {
            "Watching"@
        } else {
            "Playing"@
        }) + you,
        LobbyMode::Host | LobbyMode::Client => "Observers: "@ + decimal_text(observers) + "/"@
            + decimal_text(limit as nat) + you,
    }
}

/// The observer line of the lobby.
pub fn observer_line(mode: LobbyMode, local_seat: LocalRole, observers: usize, limit: u8) -> (line:
    String)
    ensures
        line@ == observer_line_text(mode, local_seat, observers as nat, limit),
{
    let watching = local_seat == LocalRole::Observer;
    let you = if watching {
        " (you)"
    } else {
        ""
    };
    match mode {
        LobbyMode::Local => {
            let mut line = String::from_str(
                if watching {
                    "Watching"
                } else {
                    "Playing"
                },
            );
            line.append(you);
            line
        },
        LobbyMode::Host | LobbyMode::Client => {
            let mut line = String::from_str("Observers: ");
            let count = decimal(observers as u64);
            line.append(count.as_str());
            line.append("/");
            let admitted = decimal(limit as u64);
            line.append(admitted.as_str());
            line.append(you);
            line
        },
    }
}

/// How a session mode reads.
pub open spec fn mode_text(mode: SessionMode) -> Seq<char> {
    match mode {
        SessionMode::HostStar { .. } => "Host-star"@,
        SessionMode::MeshHosted { .. } => "Mesh (hosted)"@,
        SessionMode::MeshDecentralized => "Mesh (decentralized)"@,
    }
}

/// How a session mode reads.
pub fn mode_label(mode: SessionMode) -> (text: &'static str)
    ensures
        text@ == mode_text(mode),
{
    match mode {
        SessionMode::HostStar { .. } => "Host-star",
        SessionMode::MeshHosted { .. } => "Mesh (hosted)",
        SessionMode::MeshDecentralized => "Mesh (decentralized)",
    }
}

/// How the AI hosting of a session mode reads.
pub fn hosting_label(mode: SessionMode) -> (text: &'static str)
    ensures
        text@ == match mode.ai_hosting_spec() {
            AiHosting::Host => "Host"@,
            AiHosting::Replicated => "All peers"@,
        },
{
    match mode.ai_hosting() {
        AiHosting::Host => "Host",
        AiHosting::Replicated => "All peers",
    }
}

impl SessionMode {
    /// Who computes the AI players of a session in this mode.
    pub open spec fn ai_hosting_spec(self) -> AiHosting {
        match self {
            SessionMode::HostStar { ai_hosting } => ai_hosting,
            SessionMode::MeshHosted { ai_hosting } => ai_hosting,
            SessionMode::MeshDecentralized => AiHosting::Replicated,
        }
    }
}

/// How an elimination scope reads.
pub fn elimination_label(scope: EliminationScope) -> (text: &'static str)
    ensures
        text@ == match scope {
            EliminationScope::Player => "Own buildings gone"@,
            EliminationScope::Side => "Whole side's buildings gone"@,
        },
{
    match scope {
        EliminationScope::Player => "Own buildings gone",
        EliminationScope::Side => "Whole side's buildings gone",
    }
}

/// How a defeat conduct reads.
pub fn conduct_label(conduct: DefeatConduct) -> (text: &'static str)
    ensures
        text@ == match conduct {
            DefeatConduct::Conclude => "Game over"@,
            DefeatConduct::Spectate => "Keep watching"@,
        },
{
    match conduct {
        DefeatConduct::Conclude => "Game over",
        DefeatConduct::Spectate => "Keep watching",
    }
}

/// The address field as shown, with a cursor when focused.
pub fn addr_text(config: &LobbyConfig) -> (text: String)
    ensures
        text@ == config@.host_addr + if config@.focused == LobbyField::Addr {
            "_"@
        } else {
            Seq::<char>::empty()
        },
{
    let text = field_view(config.host_addr.as_str(), config.focused == LobbyField::Addr);
    proof {
        if config.focused != LobbyField::Addr {
            assert(config@.host_addr + Seq::<char>::empty() =~= config@.host_addr);
        }
    }
    text
}

/// The TCP-port field as shown: the default port while empty, with a cursor
/// when focused.
pub fn tcp_port_text(config: &LobbyConfig) -> (text: String)
    ensures
        text@ == (if config@.tcp_port.len() == 0 {
            "4000"@
        } else {
            config@.tcp_port
        }) + if config@.focused == LobbyField::TcpPort {
            "_"@
        } else {
            Seq::<char>::empty()
        },
{
    let default = decimal(4000);
    proof {
        reveal_with_fuel(decimal_text, 5);
        assert(decimal_text(4000) =~= seq!['4', '0', '0', '0']);
        reveal_strlit("4000");
    }
    let focused = config.focused == LobbyField::TcpPort;
    let text = if config.tcp_port.as_str().is_empty() {
        field_view(default.as_str(), focused)
    } else {
        field_view(config.tcp_port.as_str(), focused)
    };
    proof {
        if !focused {
            assert(config@.tcp_port + Seq::<char>::empty() =~= config@.tcp_port);
            assert("4000"@ + Seq::<char>::empty() =~= "4000"@);
        }
    }
    text
}

/// The UDP-port field as shown: `auto` while empty, with a cursor when
/// focused.
pub fn udp_port_text(config: &LobbyConfig) -> (text: String)
    ensures
        text@ == (if config@.udp_port.len() == 0 {
            "auto"@
        } else {
            config@.udp_port
        }) + if config@.focused == LobbyField::UdpPort {
            "_"@
        } else {
            Seq::<char>::empty()
        },
{
    let focused = config.focused == LobbyField::UdpPort;
    let text = if config.udp_port.as_str().is_empty() {
        field_view("auto", focused)
    } else {
        field_view(config.udp_port.as_str(), focused)
    };
    proof {
        if !focused {
            assert(config@.udp_port + Seq::<char>::empty() =~= config@.udp_port);
            assert("auto"@ + Seq::<char>::empty() =~= "auto"@);
        }
    }
    text
}

/// Whether a button shows: a client may only edit its own slot, so every
/// other slot's race and team buttons hide from it.
pub fn button_shown(mode: LobbyMode, local_seat: LocalRole, button: LobbyButton) -> (shown: bool)
    ensures
        shown == match button {
            LobbyButton::Race(slot) | LobbyButton::Team(slot) => mode != LobbyMode::Client
                || local_seat == LocalRole::Player(slot),
            _ => true,
        },
{
    match button {
        LobbyButton::Race(slot) | LobbyButton::Team(slot) => mode != LobbyMode::Client
            || local_seat == LocalRole::Player(slot),
        _ => true,
    }
}

/// The status line of a host listening on `port`.
pub fn hosting_status(port: u16) -> (status: String)
    ensures
        status@ == "hosting on port "@ + decimal_text(port as nat)
            + " - clients dial this machine's ip"@,
{
    let mut status = String::from_str("hosting on port ");
    let number = decimal(port as u64);
    status.append(number.as_str());
    status.append(" - clients dial this machine's ip");
    status
}

/// The status line of a client dialing `addr`.
pub fn connecting_status(addr: &str) -> (status: String)
    ensures
        status@ == "connecting to "@ + addr@ + "..."@,
{
    let mut status = String::from_str("connecting to ");
    status.append(addr);
    status.append("...");
    status
}

} // verus!
