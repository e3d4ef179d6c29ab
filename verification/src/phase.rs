//! The turn cycle of the gameplay screen: the phase the player is in, what the
//! "next" button asks of the server, and how each server message moves the phase.
use vstd::prelude::*;
use vstd::string::*;

use crate::data::{AttributeKind, AuthLevel, ErgArray, MachineKind, MissionNodeIntent, TickType, TokenKind};

verus! {

/// Whom the client waits for.
#[derive(Clone, Copy, PartialEq, Eq, Structural, Debug)]
pub enum WaitKind {
    /// The client's own request is on its way.
    One,
    /// The server acknowledged; the other players are still to act.
    All,
}

/// Phase of a turn, as the client sees it.
#[derive(Clone, Copy, PartialEq, Eq, Structural, Debug)]
pub enum VagabondGamePhase {
    Start,
    Pick,
    Play,
    Draw,
    Wait(WaitKind),
}

/// What a press of the "next" button sends to the server.
#[derive(Clone, Copy, PartialEq, Eq, Structural, Debug)]
pub enum NextRequest {
    /// Announce the node action chosen at the start of the turn.
    ChooseIntent(Option<MissionNodeIntent>),
    /// Announce the chosen attribute.
    ChooseAttr(Option<AttributeKind>),
    /// Send the cards picked this turn.
    PlayCards,
    /// End the turn.
    EndTurn,
    /// Nothing to send while waiting.
    Nothing,
}

/// The request that the "next" button sends in `phase`.
pub open spec fn next_request_spec(
    phase: VagabondGamePhase,
    intent: Option<MissionNodeIntent>,
    attr_pick: Option<AttributeKind>,
) -> NextRequest {
    match phase {
        VagabondGamePhase::Start => NextRequest::ChooseIntent(intent),
        VagabondGamePhase::Pick => NextRequest::ChooseAttr(attr_pick),
        VagabondGamePhase::Play => NextRequest::PlayCards,
        VagabondGamePhase::Draw => NextRequest::EndTurn,
        VagabondGamePhase::Wait(_) => NextRequest::Nothing,
    }
}

/// The request that the "next" button sends in `phase`, carrying the node
/// intent or the attribute the player picked.
pub fn next_request(
    phase: VagabondGamePhase,
    intent: Option<MissionNodeIntent>,
    attr_pick: Option<AttributeKind>,
) -> (request: NextRequest)
    ensures
        request == next_request_spec(phase, intent, attr_pick),
{
    match phase {
        VagabondGamePhase::Start => NextRequest::ChooseIntent(intent),
        VagabondGamePhase::Pick => NextRequest::ChooseAttr(attr_pick),
        VagabondGamePhase::Play => NextRequest::PlayCards,
        VagabondGamePhase::Draw => NextRequest::EndTurn,
        VagabondGamePhase::Wait(_) => NextRequest::Nothing,
    }
}

/// The phase after the "next" button was pressed in `phase`: waiting for the
/// server when the request went out, unchanged otherwise.
pub open spec fn phase_after_next_spec(phase: VagabondGamePhase, sent: bool) -> VagabondGamePhase {
    if sent {
        VagabondGamePhase::Wait(WaitKind::One)
    } else {
        phase
    }
}

/// The phase after the "next" button was pressed; `sent` tells whether the
/// request went out.
pub fn phase_after_next(phase: VagabondGamePhase, sent: bool) -> (next: VagabondGamePhase)
    ensures
        next == phase_after_next_spec(phase, sent),
{
    if sent {
        VagabondGamePhase::Wait(WaitKind::One)
    } else {
        phase
    }
}

/// While the client waits, the "next" button sends nothing and so leaves the
/// phase as it is.
pub proof fn law_waiting_ignores_next(
    kind: WaitKind,
    intent: Option<MissionNodeIntent>,
    attr_pick: Option<AttributeKind>,
)
    ensures
        next_request_spec(VagabondGamePhase::Wait(kind), intent, attr_pick) == NextRequest::Nothing,
        phase_after_next_spec(VagabondGamePhase::Wait(kind), false) == VagabondGamePhase::Wait(kind),
{
}

/// A message from the game server, reduced to what the gameplay screen decides on.
pub enum GateEvent {
    ChooseIntent { success: bool },
    Roll { roll: ErgArray },
    ChooseAttr { success: bool },
    Resources,
    PlayCard { results: Vec<bool> },
    ResolveCards,
    EndTurn { success: bool },
    Tick { tick: TickType },
    EndGame,
    UpdateMission { new: bool },
    UpdateTokens { token: TokenKind },
    UpdateState,
    /// A message that the gameplay screen does not handle.
    Other,
}

/// Every entry of `flags` is true.
pub open spec fn all_true(flags: Seq<bool>) -> bool {
    forall|i: int| 0 <= i < flags.len() ==> #[trigger] flags[i]
}

/// The phase that a server message moves the screen to, if any.
pub open spec fn phase_after_event(event: GateEvent) -> Option<VagabondGamePhase> {
    match event {
        GateEvent::ChooseIntent { success } => if success {
            Some(VagabondGamePhase::Wait(WaitKind::All))
        } else {
            None
        },
        GateEvent::Roll { .. } => Some(VagabondGamePhase::Pick),
        GateEvent::ChooseAttr { success } => if success {
            Some(VagabondGamePhase::Wait(WaitKind::All))
        } else {
            None
        },
        GateEvent::Resources => Some(VagabondGamePhase::Play),
        GateEvent::PlayCard { results } => if all_true(results@) {
            Some(VagabondGamePhase::Wait(WaitKind::All))
        } else {
            None
        },
        GateEvent::ResolveCards => Some(VagabondGamePhase::Draw),
        GateEvent::EndTurn { success } => if success {
            Some(VagabondGamePhase::Wait(WaitKind::All))
        } else {
            None
        },
        GateEvent::Tick { .. } => Some(VagabondGamePhase::Start),
        _ => None,
    }
}

/// The phase that a server message moves the screen to, if any: an
/// acknowledged request makes the client wait for the others, a roll opens the
/// pick, resources open the play, resolved cards open the draw, a tick starts
/// the next turn.
#[verifier::loop_isolation(false)]
pub fn event_phase(event: &GateEvent) -> (phase: Option<VagabondGamePhase>)
    ensures
        phase == phase_after_event(*event),
        match *event {
            GateEvent::PlayCard { results } => {
                &&& (forall|i: int| 0 <= i < results@.len() ==> results@[i]) ==> phase == Some(
                    VagabondGamePhase::Wait(WaitKind::All),
                )
                &&& (exists|i: int| 0 <= i < results@.len() && !results@[i]) ==> phase is None
            },
            _ => true,
        },
{
    proof {
        law_play_card_phase(*event);
    }
    match event {
        GateEvent::ChooseIntent { success } => if *success {
            Some(VagabondGamePhase::Wait(WaitKind::All))
        } else {
            None
        },
        GateEvent::Roll { .. } => Some(VagabondGamePhase::Pick),
        GateEvent::ChooseAttr { success } => if *success {
            Some(VagabondGamePhase::Wait(WaitKind::All))
        } else {
            None
        },
        GateEvent::Resources => Some(VagabondGamePhase::Play),
        GateEvent::PlayCard { results } => {
            let n = results.len();
            let mut i: usize = 0;
            while i < n
                invariant
                    n == results@.len(),
                    i <= n,
                    forall|j: int| 0 <= j < i ==> #[trigger] results@[j],
                decreases n - i,
            {
                if !results[i] {
                    assert(!results@[i as int]);
                    return None;
                }
                i = i + 1;
            }
            Some(VagabondGamePhase::Wait(WaitKind::All))
        },
        GateEvent::ResolveCards => Some(VagabondGamePhase::Draw),
        GateEvent::EndTurn { success } => if *success {
            Some(VagabondGamePhase::Wait(WaitKind::All))
        } else {
            None
        },
        GateEvent::Tick { .. } => Some(VagabondGamePhase::Start),
        _ => None,
    }
}

/// Played cards move the client to waiting for the others only when the server
/// accepted every one of them; a single refused card, wherever it stands among
/// the results, leaves the phase as it is.
pub proof fn law_play_card_phase(event: GateEvent)
    ensures
        match event {
            GateEvent::PlayCard { results } => {
                &&& (forall|i: int| 0 <= i < results@.len() ==> results@[i]) ==> phase_after_event(event)
                    == Some(VagabondGamePhase::Wait(WaitKind::All))
                &&& (exists|i: int| 0 <= i < results@.len() && !results@[i]) ==> phase_after_event(
                    event,
                ) is None
                &&& phase_after_event(event) == Some(VagabondGamePhase::Wait(WaitKind::All))
                    || phase_after_event(event) is None
            },
            _ => true,
        },
{
    match event {
        GateEvent::PlayCard { results } => {
            if exists|i: int| 0 <= i < results@.len() && !results@[i] {
                let i = choose|i: int| 0 <= i < results@.len() && !results@[i];
                assert(!results@[i]);
                assert(!all_true(results@));
            }
        },
        _ => {},
    }
}

/// One line for a machine's terminal.
pub struct TtyLine {
    pub kind: MachineKind,
    pub message: String,
}

/// The label of an access level, as a character sequence.
pub open spec fn auth_label(level: AuthLevel) -> Seq<char> {
    match level {
        AuthLevel::Guest => "Guest"@,
        AuthLevel::User => "User"@,
        AuthLevel::Admin => "Admin"@,
        AuthLevel::Root => "Root"@,
    }
}

/// The terminal lines that a server message prints, in order.
pub open spec fn event_lines(event: GateEvent) -> Seq<(MachineKind, Seq<char>)> {
    match event {
        GateEvent::ChooseIntent { .. } => seq![(MachineKind::Remote, "TURN STARTED"@)],
        GateEvent::Roll { .. } => seq![(MachineKind::Local, "CHOOSE ATTR"@)],
        GateEvent::ChooseAttr { .. } => seq![(MachineKind::Remote, "ATTR CHOSEN"@)],
        GateEvent::Resources => seq![(MachineKind::Local, "PLAY CARDS"@)],
        GateEvent::PlayCard { .. } => seq![(MachineKind::Remote, "CARDS PLAYED"@)],
        GateEvent::ResolveCards => seq![(MachineKind::Local, "DRAW CARDS"@)],
        GateEvent::EndTurn { .. } => seq![(MachineKind::Remote, "END TURN"@)],
        GateEvent::Tick { .. } => seq![(MachineKind::Local, "START TURN"@)],
        GateEvent::EndGame => seq![(MachineKind::Local, "END GAME"@)],
        GateEvent::UpdateTokens { token } => match token {
            TokenKind::Invalid => seq![],
            TokenKind::Authorization(level) => seq![
                (MachineKind::Local, auth_label(level) + " Authorization"@),
                (MachineKind::Remote, "Authorized "@ + auth_label(level)),
            ],
            TokenKind::Credentials(level) => seq![
                (MachineKind::Local, auth_label(level) + " Credentials"@),
            ],
        },
        _ => seq![],
    }
}

/// `lines` holds exactly the terminal lines `expected`, in order.
pub open spec fn lines_match(lines: Seq<TtyLine>, expected: Seq<(MachineKind, Seq<char>)>) -> bool {
    &&& lines.len() == expected.len()
    &&& forall|i: int|
        0 <= i < lines.len() ==> (#[trigger] lines[i]).kind == expected[i].0 && lines[i].message@
            == expected[i].1
}

fn line(kind: MachineKind, message: &str) -> (l: TtyLine)
    ensures
        l.kind == kind,
        l.message@ == message@,
{
    TtyLine { kind, message: String::from_str(message) }
}

fn level_str(level: AuthLevel) -> (s: &'static str)
    ensures
        s@ == auth_label(level),
{
    level.as_str()
}

/// The terminal lines that a server message prints.
pub fn event_messages(event: &GateEvent) -> (lines: Vec<TtyLine>)
    ensures
        lines_match(lines@, event_lines(*event)),
{
    let mut lines: Vec<TtyLine> = Vec::new();
    match event {
        GateEvent::ChooseIntent { .. } => lines.push(line(MachineKind::Remote, "TURN STARTED")),
        GateEvent::Roll { .. } => lines.push(line(MachineKind::Local, "CHOOSE ATTR")),
        GateEvent::ChooseAttr { .. } => lines.push(line(MachineKind::Remote, "ATTR CHOSEN")),
        GateEvent::Resources => lines.push(line(MachineKind::Local, "PLAY CARDS")),
        GateEvent::PlayCard { .. } => lines.push(line(MachineKind::Remote, "CARDS PLAYED")),
        GateEvent::ResolveCards => lines.push(line(MachineKind::Local, "DRAW CARDS")),
        GateEvent::EndTurn { .. } => lines.push(line(MachineKind::Remote, "END TURN")),
        GateEvent::Tick { .. } => lines.push(line(MachineKind::Local, "START TURN")),
        GateEvent::EndGame => lines.push(line(MachineKind::Local, "END GAME")),
        GateEvent::UpdateTokens { token } => match token {
            TokenKind::Invalid => {},
            TokenKind::Authorization(level) => {
                let mut first = String::from_str(level_str(*level));
                first.append(" Authorization");
                lines.push(TtyLine { kind: MachineKind::Local, message: first });
                let mut second = String::from_str("Authorized ");
                second.append(level_str(*level));
                lines.push(TtyLine { kind: MachineKind::Remote, message: second });
            },
            TokenKind::Credentials(level) => {
                let mut first = String::from_str(level_str(*level));
                first.append(" Credentials");
                lines.push(TtyLine { kind: MachineKind::Local, message: first });
            },
        },
        _ => {},
    }
    lines
}

/// The terminal lines printed when the screen connects to a node: the local
/// terminal names the remote node, the remote one names the player.
pub fn mission_info_messages(remote_id: &str, player_id: &str) -> (lines: Vec<TtyLine>)
    ensures
        lines_match(
            lines@,
            seq![
                (MachineKind::Local, "Connected to "@ + remote_id@),
                (MachineKind::Remote, "Connection from "@ + player_id@),
            ],
        ),
{
    let mut lines: Vec<TtyLine> = Vec::new();
    let mut first = String::from_str("Connected to ");
    first.append(remote_id);
    lines.push(TtyLine { kind: MachineKind::Local, message: first });
    let mut second = String::from_str("Connection from ");
    second.append(player_id);
    lines.push(TtyLine { kind: MachineKind::Remote, message: second });
    lines
}

} // verus!
