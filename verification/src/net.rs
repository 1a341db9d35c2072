//! LAN co-op, host-authoritative: the host runs the game and streams
//! snapshots; a client rebuilds the world from them and sends its drummer's
//! input back. This module holds what those two sides decide: who owns the
//! simulation, the byte codes on the wire, which datagram wins, how edge
//! presses are kept until the simulation consumes them, how replication ids
//! are handed out, and how the command line picks a mode.

use vstd::prelude::*;

use crate::{GameState, Hero};
use crate::wave::WavePhase;
use crate::text::{has_char, parse_u16, same_text, u16_of};

verus! {

/// The port a host listens on unless told otherwise.
pub const DEFAULT_PORT: u16 = 47474;

// ---------------------------------------------------------------------------
// Role
// ---------------------------------------------------------------------------

/// Which side of the connection this process is.
#[derive(Clone, Copy, PartialEq, Eq, Debug, Structural)]
pub enum NetRole {
    Local,
    Host,
    Client,
}

impl NetRole {
    /// No networking unless asked for.
    pub fn default_role() -> (r: NetRole)
        ensures
            r == NetRole::Local,
    {
        NetRole::Local
    }
}

/// This process owns the simulation (everything except a connected client).
pub fn authoritative(role: NetRole) -> (r: bool)
    ensures
        r == (role != NetRole::Client),
{
    role != NetRole::Client
}

/// This process is the host of a net game.
pub fn is_host(role: NetRole) -> (r: bool)
    ensures
        r == (role == NetRole::Host),
{
    role == NetRole::Host
}

/// This process is a client rendering a remote game.
pub fn is_client(role: NetRole) -> (r: bool)
    ensures
        r == (role == NetRole::Client),
{
    role == NetRole::Client
}

/// Whether this process's own keyboard and pad drive `hero`. Nobody's hands
/// drive a scripted run; on a client the guitarist is the host's, and on a
/// host the drummer is the client's.
pub fn local_control(role: NetRole, scripted: bool, hero: Hero) -> (r: bool)
    ensures
        r == (!scripted && match hero {
            Hero::Guitarist => role != NetRole::Client,
            Hero::Drummer => role != NetRole::Host,
        }),
{
    if scripted {
        return false;
    }
    match hero {
        Hero::Guitarist => role != NetRole::Client,
        Hero::Drummer => role != NetRole::Host,
    }
}

// ---------------------------------------------------------------------------
// Byte codes
// ---------------------------------------------------------------------------

/// The wire byte of a game state. A client never sits on the select screen,
/// so `Select` travels as `Playing`.
pub open spec fn state_code(s: GameState) -> u8 {
    match s {
        GameState::Playing => 0,
        GameState::GameOver => 1,
        GameState::Victory => 2,
        GameState::Select => 0,
    }
}

/// The game state a wire byte decodes to; unknown bytes are `Playing`.
pub open spec fn state_of(v: u8) -> GameState {
    if v == 1 {
        GameState::GameOver
    } else if v == 2 {
        GameState::Victory
    } else {
        GameState::Playing
    }
}

/// Encode the host's game state.
pub fn state_to_u8(s: GameState) -> (v: u8)
    ensures
        v == state_code(s),
{
    match s {
        GameState::Playing => 0,
        GameState::GameOver => 1,
        GameState::Victory => 2,
        GameState::Select => 0,
    }
}

/// Decode the host's game state.
pub fn u8_to_state(v: u8) -> (s: GameState)
    ensures
        s == state_of(v),
{
    if v == 1 {
        GameState::GameOver
    } else if v == 2 {
        GameState::Victory
    } else {
        GameState::Playing
    }
}

/// The wire byte of a wave phase.
pub open spec fn phase_code(p: WavePhase) -> u8 {
    match p {
        WavePhase::Prep => 0,
        WavePhase::Spawning => 1,
        WavePhase::Clearing => 2,
    }
}

/// The wave phase a wire byte decodes to; unknown bytes are `Prep`.
pub open spec fn phase_of(v: u8) -> WavePhase {
    if v == 1 {
        WavePhase::Spawning
    } else if v == 2 {
        WavePhase::Clearing
    } else {
        WavePhase::Prep
    }
}

/// Encode a wave phase.
pub fn phase_to_u8(p: WavePhase) -> (v: u8)
    ensures
        v == phase_code(p),
{
    match p {
        WavePhase::Prep => 0,
        WavePhase::Spawning => 1,
        WavePhase::Clearing => 2,
    }
}

/// Decode a wave phase.
pub fn u8_to_phase(v: u8) -> (p: WavePhase)
    ensures
        p == phase_of(v),
{
    if v == 1 {
        WavePhase::Spawning
    } else if v == 2 {
        WavePhase::Clearing
    } else {
        WavePhase::Prep
    }
}

/// The byte the size of the largest speaker network travels as: the low
/// eight bits of the count.
pub fn speakers_to_u8(largest: usize) -> (v: u8)
    ensures
        v as int == largest as int % 256,
{
    (largest % 256) as u8
}

/// Every state a client can be in survives the trip; `Select` arrives as
/// `Playing`. Every wave phase survives the trip, and a decoded byte
/// re-encodes to itself whenever it was a known code.
pub proof fn lemma_codes_round_trip(s: GameState, p: WavePhase, v: u8)
    ensures
        s != GameState::Select ==> state_of(state_code(s)) == s,
        state_of(state_code(GameState::Select)) == GameState::Playing,
        phase_of(phase_code(p)) == p,
        v <= 2 ==> state_code(state_of(v)) == v && phase_code(phase_of(v)) == v,
{
}

/// The state a client moves to on a snapshot carrying the byte `code`: the
/// host's state, when it differs from the client's own.
pub fn snapshot_state(current: GameState, code: u8) -> (r: Option<GameState>)
    ensures
        r == if state_of(code) != current {
            Some(state_of(code))
        } else {
            None
        },
{
    let want = u8_to_state(code);
    if want != current {
        Some(want)
    } else {
        None
    }
}

/// What a snapshot does to a client's copy of a hero's downed marker.
#[derive(Clone, Copy, PartialEq, Eq, Debug, Structural)]
pub enum DownedChange {
    Keep,
    /// Mark the hero down.
    GoDown,
    /// Clear the marker: the hero was revived.
    GetUp,
}

/// Bring a client's downed marker in line with the host's.
pub fn downed_change(host_downed: bool, local_downed: bool) -> (r: DownedChange)
    ensures
        r == if host_downed && !local_downed {
            DownedChange::GoDown
        } else if !host_downed && local_downed {
            DownedChange::GetUp
        } else {
            DownedChange::Keep
        },
{
    if host_downed && !local_downed {
        DownedChange::GoDown
    } else if !host_downed && local_downed {
        DownedChange::GetUp
    } else {
        DownedChange::Keep
    }
}

// ---------------------------------------------------------------------------
// Datagrams
// ---------------------------------------------------------------------------

/// A datagram of at most one byte is a hello or keep-alive, not an input frame.
pub fn is_hello(len: usize) -> (r: bool)
    ensures
        r == (len <= 1),
{
    len <= 1
}

/// Of the snapshots decoded in one frame, in arrival order, the one to keep:
/// the last of those with the highest tick. `None` when nothing decoded.
pub fn newest_snapshot(ticks: &Vec<u32>) -> (r: Option<usize>)
    ensures
        r is None <==> ticks@.len() == 0,
        r matches Some(i) ==> {
            &&& i < ticks@.len()
            &&& forall|j: int| 0 <= j < ticks@.len() ==> ticks@[j] <= ticks@[i as int]
            &&& forall|j: int| i < j < ticks@.len() ==> ticks@[j] < ticks@[i as int]
        },
{
    let mut best: Option<usize> = None;
    let mut k: usize = 0;
    while k < ticks.len()
        invariant
            0 <= k <= ticks@.len(),
            best is None <==> k == 0,
            best matches Some(i) ==> {
                &&& i < k
                &&& forall|j: int| 0 <= j < k ==> ticks@[j] <= ticks@[i as int]
                &&& forall|j: int| i < j < k ==> ticks@[j] < ticks@[i as int]
            },
        decreases ticks@.len() - k,
    {
        match best {
            Some(i) if ticks[i] > ticks[k] => {},
            _ => {
                best = Some(k);
            },
        }
        k = k + 1;
    }
    best
}

// ---------------------------------------------------------------------------
// Remote input
// ---------------------------------------------------------------------------

/// The buttons of one client → host input frame.
#[derive(Clone, Copy, PartialEq, Eq, Debug, Structural)]
pub struct Buttons {
    /// Ranged fire held.
    pub fire: bool,
    /// Melee swing pressed this frame.
    pub attack: bool,
    /// Special pressed this frame.
    pub special: bool,
    /// Dodge pressed this frame.
    pub dodge: bool,
    /// Build pressed this frame.
    pub build: bool,
}

/// Nothing held, nothing pressed.
pub open spec fn no_buttons() -> Buttons {
    Buttons { fire: false, attack: false, special: false, dodge: false, build: false }
}

impl Buttons {
    /// Nothing held, nothing pressed.
    pub fn none() -> (b: Buttons)
        ensures
            b == no_buttons(),
    {
        Buttons { fire: false, attack: false, special: false, dodge: false, build: false }
    }
}

/// The input held for the next tick after frame `f` arrives on top of `acc`:
/// the held button follows the newest frame, presses are OR-ed in.
pub open spec fn accumulated(acc: Buttons, f: Buttons) -> Buttons {
    Buttons {
        fire: f.fire,
        attack: acc.attack || f.attack,
        special: acc.special || f.special,
        dodge: acc.dodge || f.dodge,
        build: acc.build || f.build,
    }
}

/// A press is never lost to a frame-rate mismatch: a press in the newest frame
/// is held for the next tick, and once it has arrived every later frame leaves
/// it pressed until a tick takes it; nothing is pressed that no frame pressed;
/// the held button follows the newest frame; and a frame that presses nothing
/// changes nothing but the held button.
pub proof fn lemma_presses_never_lost(acc: Buttons, f: Buttons)
    ensures
        acc.attack ==> accumulated(acc, f).attack,
        acc.special ==> accumulated(acc, f).special,
        acc.dodge ==> accumulated(acc, f).dodge,
        acc.build ==> accumulated(acc, f).build,
        f.attack ==> accumulated(acc, f).attack,
        f.special ==> accumulated(acc, f).special,
        f.dodge ==> accumulated(acc, f).dodge,
        f.build ==> accumulated(acc, f).build,
        accumulated(acc, f).fire == f.fire,
        accumulated(acc, f).attack ==> acc.attack || f.attack,
        accumulated(acc, f).special ==> acc.special || f.special,
        accumulated(acc, f).dodge ==> acc.dodge || f.dodge,
        accumulated(acc, f).build ==> acc.build || f.build,
        !f.attack && !f.special && !f.dodge && !f.build ==> accumulated(acc, f) == (Buttons {
            fire: f.fire,
            ..acc
        }),
{
}

/// Host side: the latest drummer input from the client. `fire` is a held
/// button and follows the newest frame; the others are edges and are
/// OR-accumulated until a simulation tick consumes them, so a press is never
/// lost to a frame-rate mismatch.
pub struct RemoteInput {
    pub frame: Buttons,
    pub connected: bool,
}

impl RemoteInput {
    /// Before any client has spoken.
    pub fn new() -> (r: RemoteInput)
        ensures
            !r.connected,
            r.frame == no_buttons(),
    {
        RemoteInput { frame: Buttons::none(), connected: false }
    }

    /// A datagram of `len` bytes arrived; `decoded` is the input frame it held,
    /// if it held one. Any datagram marks the client connected.
    pub fn receive(&mut self, len: usize, decoded: Option<Buttons>)
        ensures
            final(self).connected,
            (len <= 1 || decoded is None) ==> final(self).frame == old(self).frame,
            (len > 1 && decoded is Some) ==> final(self).frame == accumulated(
                old(self).frame,
                decoded->0,
            ),
    {
        self.connected = true;
        if len <= 1 {
            return ;
        }
        if let Some(f) = decoded {
            self.frame = Buttons {
                fire: f.fire,
                attack: self.frame.attack || f.attack,
                special: self.frame.special || f.special,
                dodge: self.frame.dodge || f.dodge,
                build: self.frame.build || f.build,
            };
        }
    }

    /// A simulation tick takes the accumulated input for the drummer: `None`
    /// until a client has connected. Taking it clears the edges; the held
    /// `fire` stays.
    pub fn consume(&mut self) -> (r: Option<Buttons>)
        ensures
            final(self).connected == old(self).connected,
            !old(self).connected ==> r is None && final(self).frame == old(self).frame,
            old(self).connected ==> r == Some(old(self).frame) && final(self).frame == (Buttons {
                fire: old(self).frame.fire,
                attack: false,
                special: false,
                dodge: false,
                build: false,
            }),
    {
        if !self.connected {
            return None;
        }
        let taken = self.frame;
        self.frame = Buttons {
            fire: taken.fire,
            attack: false,
            special: false,
            dodge: false,
            build: false,
        };
        Some(taken)
    }
}

// ---------------------------------------------------------------------------
// Replication ids
// ---------------------------------------------------------------------------

/// Host side: the source of replication ids for enemies.
pub struct NetIds {
    pub last: u32,
}

impl NetIds {
    /// No id handed out yet.
    pub fn new() -> (ids: NetIds)
        ensures
            ids.last == 0,
    {
        NetIds { last: 0 }
    }

    /// The next id: one more than the last, so ids start at 1 and never repeat.
    pub fn next(&mut self) -> (id: u32)
        requires
            old(self).last < u32::MAX,
        ensures
            id == old(self).last + 1,
            final(self).last == id,
    {
        self.last = self.last + 1;
        self.last
    }
}


// ---------------------------------------------------------------------------
// Launch
// ---------------------------------------------------------------------------

/// How the process was launched.
pub enum Launch {
    /// No argument: a single hero, no networking.
    Solo,
    /// `coop`: two heroes on one shared screen.
    Coop,
    /// `host [port]`: run the game and accept one LAN client.
    Host(u16),
    /// `join <addr>`: join a host; the address to resolve, always with a port.
    Client(String),
}

/// Why the command line could not be used.
#[derive(Clone, Copy, PartialEq, Eq, Debug, Structural)]
pub enum LaunchError {
    /// `join` without an address.
    MissingAddress,
}

/// The host address to resolve for `join raw`: `raw` as given when it names
/// a port, otherwise `raw` on the default port.
pub open spec fn address_with_port(raw: Seq<char>) -> Seq<char> {
    if raw.contains(':') {
        raw
    } else {
        raw + ":47474"@
    }
}

/// The port `host` listens on: the one given, if it reads as a port number,
/// otherwise the default.
pub open spec fn host_port(args: Seq<String>) -> u16 {
    if args.len() > 1 && u16_of(args[1]@) is Some {
        u16_of(args[1]@)->0
    } else {
        DEFAULT_PORT
    }
}

/// Pick the launch mode from the arguments after the program name:
/// `[coop | host [port] | join <addr>]`. Anything else, or nothing, is solo.
pub fn launch_from_args(args: &Vec<String>) -> (r: Result<Launch, LaunchError>)
    ensures
        args@.len() == 0 ==> r matches Ok(Launch::Solo),
        args@.len() > 0 && args@[0]@ == "coop"@ ==> r matches Ok(Launch::Coop),
        args@.len() > 0 && args@[0]@ == "host"@ ==> (r matches Ok(Launch::Host(p)) && p
            == host_port(args@)),
        args@.len() > 0 && args@[0]@ == "join"@ ==> if args@.len() > 1 {
            (r matches Ok(Launch::Client(a)) && a@ == address_with_port(args@[1]@))
        } else {
            r == Err::<Launch, LaunchError>(LaunchError::MissingAddress)
        },
        args@.len() > 0 && args@[0]@ != "coop"@ && args@[0]@ != "host"@ && args@[0]@
            != "join"@ ==> r matches Ok(Launch::Solo),
{
    if args.len() == 0 {
        return Ok(Launch::Solo);
    }
    let first = args[0].as_str();
    proof {
        reveal_strlit("coop");
        reveal_strlit("host");
        reveal_strlit("join");
        assert("host"@ != "coop"@) by { assert("host"@[0] != "coop"@[0]); }
        assert("join"@ != "coop"@) by { assert("join"@[0] != "coop"@[0]); }
        assert("join"@ != "host"@) by { assert("join"@[0] != "host"@[0]); }
        assert(first@ == args@[0]@);
    }
    if same_text(first, "coop") {
        Ok(Launch::Coop)
    } else if same_text(first, "host") {
        let mut port = DEFAULT_PORT;
        if args.len() > 1 {
            if let Some(p) = parse_u16(args[1].as_str()) {
                port = p;
            }
        }
        Ok(Launch::Host(port))
    } else if same_text(first, "join") {
        if args.len() < 2 {
            return Err(LaunchError::MissingAddress);
        }
        let raw = args[1].as_str();
        if has_char(raw, ':') {
            Ok(Launch::Client(String::from_str(raw)))
        } else {
            let mut with_port = String::from_str(raw);
            with_port.append(":47474");
            Ok(Launch::Client(with_port))
        }
    } else {
        Ok(Launch::Solo)
    }
}

} // verus!
