//! The connection scheduler, response reconciler and command router: one
//! value that owns all mutable session state and is advanced by ticks,
//! finished operations and intents.

use vstd::prelude::*;
use crate::api::{
    arena_of_move, create_move_command, ApiArenaResponse, ApiLogMessage, ApiMoveCommand, ApiMoveRequest,
    ApiMoveResponse, ApiRegistrationResponse,
};
use crate::clock::wall_clock_ms;
use crate::text::{extract_next_round_info, next_round_text};
use crate::transport::{classify_failure, failure_class, failure_text, FailureClass, SyncError};
use crate::world::world_of;
use crate::backoff::{escalated, Backoff, BASE_BACKOFF_MS};
use crate::keyed::{keys_unique, place};
use crate::pending::{successor, OpKind, TaskSupervisor};
use crate::rate_limiter::{permits, RateLimiter};
use crate::timer::{elapsed_after, RepeatingTimer};
use crate::transport::ServerConfig;
use crate::types::{api_path, ApiHex, HexCoord};
use crate::world::GameState;

verus! {

/// Period of the registration retries while the server has no game running.
pub const LOBBY_RETRY_MS: u64 = 30000;

/// Where the scheduler stands.
#[derive(Clone, Copy, Debug, PartialEq, Eq, Structural)]
pub enum Phase {
    /// No registration attempted yet.
    Idle,
    /// Attempting registration, spaced by the backoff interval.
    Registering,
    /// The server has no game running: retrying at a fixed coarse period.
    WaitingForLobby,
    /// Registered: polling snapshots and sending moves.
    Active,
}

/// The session settings and the registration, if one succeeded.
pub struct ServerClient {
    pub config: ServerConfig,
    pub registration: Option<ApiRegistrationResponse>,
}

impl ServerClient {
    pub fn new(config: ServerConfig) -> (c: ServerClient)
        ensures
            c.config == config,
            c.registration is None,
    {
        ServerClient { config, registration: None }
    }

    pub fn is_registered(&self) -> (r: bool)
        ensures
            r == (self.registration is Some),
    {
        self.registration.is_some()
    }

    pub fn get_registration_data(&self) -> (r: Option<&ApiRegistrationResponse>)
        ensures
            match r {
                Some(d) => self.registration == Some(*d),
                None => self.registration is None,
            },
    {
        match &self.registration {
            Some(d) => Some(d),
            None => None,
        }
    }
}

/// The scheduler's timers and retry policy.
pub struct ServerTicker {
    /// Snapshot polling, at the configured tick rate.
    pub timer: RepeatingTimer,
    /// Registration attempts, at the current backoff interval.
    pub registration_timer: RepeatingTimer,
    /// Registration attempts while waiting for a game.
    pub lobby_wait_timer: RepeatingTimer,
    pub backoff: Backoff,
    pub phase: Phase,
}

impl ServerTicker {
    pub open spec fn wf(&self) -> bool {
        &&& self.timer.wf()
        &&& self.registration_timer.wf()
        &&& self.lobby_wait_timer.wf()
        &&& self.backoff.wf()
        &&& self.registration_timer.duration_ms == self.backoff.interval_ms
        &&& self.lobby_wait_timer.duration_ms == LOBBY_RETRY_MS
    }
}

/// What collaborators are shown about the connection.
#[derive(Clone, Debug)]
pub struct ConnectionState {
    pub connected: bool,
    pub registered: bool,
    pub last_connection_attempt: Option<i64>,
    pub connection_message: String,
}

impl Default for ConnectionState {
    fn default() -> (c: ConnectionState)
        ensures
            !c.connected,
            !c.registered,
            c.last_connection_attempt is None,
            c.connection_message@ == "Waiting for server connection..."@,
    {
        ConnectionState {
            connected: false,
            registered: false,
            last_connection_attempt: None,
            connection_message: String::from_str("Waiting for server connection..."),
        }
    }
}

/// The operations one tick decided to start, each with its id.
pub struct TickPlan {
    pub register: Option<u64>,
    pub snapshot: Option<u64>,
    pub moves: Option<(u64, ApiMoveRequest)>,
}

/// The view of a queued move order: the unit and its path.
pub open spec fn command_view(c: ApiMoveCommand) -> (Seq<char>, Seq<ApiHex>) {
    (c.ant@, c.path@)
}

pub open spec fn commands_view(s: Seq<ApiMoveCommand>) -> Seq<(Seq<char>, Seq<ApiHex>)> {
    s.map_values(|c: ApiMoveCommand| command_view(c))
}

/// Move orders are keyed by the unit they move.
pub open spec fn unit_key() -> spec_fn((Seq<char>, Seq<ApiHex>)) -> Seq<char> {
    |m: (Seq<char>, Seq<ApiHex>)| m.0
}

/// `base` with each order of `xs` placed in turn: the last order per unit wins.
pub open spec fn place_all(
    base: Seq<(Seq<char>, Seq<ApiHex>)>,
    xs: Seq<(Seq<char>, Seq<ApiHex>)>,
) -> Seq<(Seq<char>, Seq<ApiHex>)>
    decreases xs.len(),
{
    if xs.len() == 0 {
        base
    } else {
        place(place_all(base, xs.drop_last()), xs.last(), unit_key())
    }
}

/// Places a move order in the queue: over the order for the same unit, or at the end.
fn upsert_command(v: &mut Vec<ApiMoveCommand>, c: ApiMoveCommand)
    requires
        keys_unique(commands_view(old(v)@), unit_key()),
    ensures
        commands_view(final(v)@) == place(commands_view(old(v)@), command_view(c), unit_key()),
        keys_unique(commands_view(final(v)@), unit_key()),
{
    proof {
        crate::keyed::lemma_place_unique(commands_view(v@), command_view(c), unit_key());
    }
    let n = v.len();
    let mut j: usize = 0;
    while j < n
        invariant
            n == v@.len(),
            *v == *old(v),
            keys_unique(commands_view(v@), unit_key()),
            j <= n,
            forall|i: int| 0 <= i < j ==> (#[trigger] v@[i]).ant@ != c.ant@,
        decreases n - j,
    {
        if v[j].ant == c.ant {
            proof {
                let key = unit_key();
                let s = commands_view(v@);
                assert(key(s[j as int]) == key(command_view(c)));
                let m = crate::keyed::key_index(s, key(command_view(c)), key);
                assert(m == j);
            }
            let ghost before = commands_view(v@);
            v[j] = c;
            proof {
                assert(commands_view(v@) =~= before.update(j as int, command_view(c)));
            }
            return;
        }
        j = j + 1;
    }
    proof {
        let key = unit_key();
        let s = commands_view(v@);
        assert(!crate::keyed::has_key(s, key(command_view(c)), key)) by {
            if crate::keyed::has_key(s, key(command_view(c)), key) {
                let i = choose|i: int| 0 <= i < s.len() && key(#[trigger] s[i]) == key(command_view(c));
                assert(v@[i].ant@ == c.ant@);
            }
        }
    }
    let ghost before = commands_view(v@);
    v.push(c);
    proof {
        assert(commands_view(v@) =~= before.push(command_view(c)));
    }
}

/// An operation of kind `k` can be started: none is in flight.
pub open spec fn can_spawn(t: TaskSupervisor, k: OpKind) -> bool {
    !t.tracks(k)
}

/// Whether `plan` started an operation of kind `k`.
pub open spec fn started(plan: TickPlan, k: OpKind) -> bool {
    ||| k == OpKind::Register && plan.register is Some
    ||| k == OpKind::Snapshot && plan.snapshot is Some
    ||| k == OpKind::Moves && plan.moves is Some
}

/// The whole synchronisation state of one session.
pub struct SyncEngine {
    pub client: ServerClient,
    pub ticker: ServerTicker,
    pub connection: ConnectionState,
    pub world: GameState,
    pub tasks: TaskSupervisor,
    pub pending_moves: Vec<ApiMoveCommand>,
    pub limiter: RateLimiter,
    /// Milliseconds of ticks seen so far.
    pub clock_ms: u64,
    /// The clock reading at which the last registration was started.
    pub registration_started_ms: Option<u64>,
}

impl SyncEngine {
    pub open spec fn wf(&self) -> bool {
        &&& self.ticker.wf()
        &&& self.world.wf()
        &&& self.tasks.wf()
        &&& keys_unique(commands_view(self.pending_moves@), unit_key())
        &&& (self.ticker.phase == Phase::Active) == (self.client.registration is Some)
        &&& self.ticker.phase == Phase::Active ==> !self.tasks.tracks(OpKind::Register)
    }

    /// A session that has attempted nothing yet.
    pub fn new(config: ServerConfig) -> (e: SyncEngine)
        ensures
            e.wf(),
            e.client.config == config,
            e.client.registration is None,
            e.ticker.phase == Phase::Idle,
            e.ticker.backoff == (Backoff { interval_ms: BASE_BACKOFF_MS, attempts: 0 }),
            e.ticker.timer == (RepeatingTimer { duration_ms: config.tick_rate_ms, elapsed_ms: 0 }),
            e.ticker.registration_timer == (RepeatingTimer { duration_ms: BASE_BACKOFF_MS, elapsed_ms: 0 }),
            e.ticker.lobby_wait_timer == (RepeatingTimer { duration_ms: LOBBY_RETRY_MS, elapsed_ms: 0 }),
            !e.connection.connected,
            e.world@ == crate::world::empty_world(),
            e.tasks.entries@.len() == 0,
            e.tasks.next_id == 0,
            e.pending_moves@.len() == 0,
            e.limiter.last_request_ms is None,
            e.clock_ms == 0,
            e.registration_started_ms is None,
    {
        let tick_rate = config.tick_rate_ms;
        let e = SyncEngine {
            client: ServerClient::new(config),
            ticker: ServerTicker {
                timer: RepeatingTimer::new(tick_rate),
                registration_timer: RepeatingTimer::new(BASE_BACKOFF_MS),
                lobby_wait_timer: RepeatingTimer::new(LOBBY_RETRY_MS),
                backoff: Backoff::new(),
                phase: Phase::Idle,
            },
            connection: ConnectionState::default(),
            world: GameState::empty(),
            tasks: TaskSupervisor::new(),
            pending_moves: Vec::new(),
            limiter: RateLimiter::new(),
            clock_ms: 0,
            registration_started_ms: None,
        };
        assert(commands_view(e.pending_moves@) =~= Seq::<(Seq<char>, Seq<ApiHex>)>::empty());
        e
    }

    /// Queues a move order for one unit; a later order for the same unit
    /// replaces it until the queue is sent.
    pub fn queue_move(&mut self, ant_id: String, path: Vec<HexCoord>)
        requires
            old(self).wf(),
        ensures
            final(self).wf(),
            commands_view(final(self).pending_moves@) == place(
                commands_view(old(self).pending_moves@),
                (ant_id@, api_path(path@)),
                unit_key(),
            ),
            final(self).client == old(self).client,
            final(self).ticker == old(self).ticker,
            final(self).tasks == old(self).tasks,
            final(self).world == old(self).world,
            final(self).limiter == old(self).limiter,
            final(self).clock_ms == old(self).clock_ms,
    {
        let c = create_move_command(ant_id, path);
        upsert_command(&mut self.pending_moves, c);
    }

    /// Queues every order of a batch, in order.
    pub fn queue_move_request(&mut self, request: ApiMoveRequest)
        requires
            old(self).wf(),
        ensures
            final(self).wf(),
            commands_view(final(self).pending_moves@) == place_all(
                commands_view(old(self).pending_moves@),
                commands_view(request.moves@),
            ),
            final(self).client == old(self).client,
            final(self).ticker == old(self).ticker,
            final(self).tasks == old(self).tasks,
            final(self).world == old(self).world,
            final(self).limiter == old(self).limiter,
            final(self).clock_ms == old(self).clock_ms,
    {
        let ghost base = commands_view(self.pending_moves@);
        let ghost all = commands_view(request.moves@);
        let mut moves = request.moves;
        let n = moves.len();
        let mut rest: Vec<ApiMoveCommand> = Vec::new();
        // reverse, so that popping yields the orders front to back
        while moves.len() > 0
            invariant
                all == commands_view(moves@) + commands_view(rest@).reverse(),
                all.len() == n,
            decreases moves@.len(),
        {
            let c = moves.pop().unwrap();
            let ghost before = rest@;
            rest.push(c);
            proof {
                assert(commands_view(moves@) + commands_view(rest@).reverse() =~= commands_view(
                    moves@.push(c),
                ) + commands_view(before).reverse());
            }
        }
        let mut i: usize = 0;
        proof {
            assert(commands_view(rest@).reverse() =~= all);
            assert(all.subrange(0, 0) =~= Seq::<(Seq<char>, Seq<ApiHex>)>::empty());
        }
        while rest.len() > 0
            invariant
                self.wf(),
                i <= all.len(),
                all.len() == n,
                i + rest@.len() == all.len(),
                commands_view(rest@).reverse() == all.subrange(i as int, all.len() as int),
                commands_view(self.pending_moves@) == place_all(base, all.subrange(0, i as int)),
                self.client == old(self).client,
                self.ticker == old(self).ticker,
                self.tasks == old(self).tasks,
                self.world == old(self).world,
                self.limiter == old(self).limiter,
                self.clock_ms == old(self).clock_ms,
            decreases rest@.len(),
        {
            let ghost before = rest@;
            let c = rest.pop().unwrap();
            proof {
                assert(commands_view(before).reverse()[0] == command_view(c));
                assert(all.subrange(i as int, all.len() as int)[0] == all[i as int]);
                assert(all[i as int] == command_view(c));
                assert(all.subrange(0, i + 1).drop_last() =~= all.subrange(0, i as int));
                assert(rest@ =~= before.drop_last());
                assert(commands_view(rest@).reverse() =~= commands_view(before).reverse().subrange(
                    1,
                    before.len() as int,
                ));
                assert(all.subrange(i as int, all.len() as int).subrange(1, all.len() - i)
                    =~= all.subrange(i + 1, all.len() as int));
            }
            upsert_command(&mut self.pending_moves, c);
            i = i + 1;
        }
        proof {
            assert(all.subrange(0, i as int) =~= all);
        }
    }

    /// Starts an operation of kind `k` where none is in flight.
    fn try_spawn(&mut self, k: OpKind) -> (r: Option<u64>)
        requires
            old(self).wf(),
            k == OpKind::Register ==> old(self).ticker.phase != Phase::Active,
        ensures
            final(self).wf(),
            r is Some == can_spawn(old(self).tasks, k),
            r is Some ==> final(self).tasks.entries@ == old(self).tasks.entries@.push(
                crate::pending::PendingOp { id: old(self).tasks.next_id, kind: k },
            ),
            r is Some ==> r == Some(old(self).tasks.next_id) && final(self).tasks.tracks_op(old(self).tasks.next_id, k)
                && final(self).tasks.next_id == successor(old(self).tasks.next_id)
                && forall|k2: OpKind| k2 != k ==> (#[trigger] final(self).tasks.tracks(k2) <==> old(self).tasks.tracks(k2)),
            r is None ==> final(self).tasks == old(self).tasks,
            final(self).tasks.tracks(k) == (old(self).tasks.tracks(k) || r is Some),
            final(self).client == old(self).client,
            final(self).ticker == old(self).ticker,
            final(self).connection == old(self).connection,
            final(self).world == old(self).world,
            final(self).pending_moves == old(self).pending_moves,
            final(self).limiter == old(self).limiter,
            final(self).clock_ms == old(self).clock_ms,
            final(self).registration_started_ms == old(self).registration_started_ms,
    {
        let ghost before = self.tasks.entries@;
        let r = self.tasks.spawn(k);
        proof {
            if r is Some {
                let s = self.tasks.entries@;
                let last = s.len() - 1;
                assert(s[last] == crate::pending::PendingOp { id: old(self).tasks.next_id, kind: k });
                assert forall|k2: OpKind| k2 != k implies (#[trigger] self.tasks.tracks(k2) <==> old(self).tasks.tracks(k2)) by {
                    let key = crate::pending::kind_key();
                    if self.tasks.tracks(k2) {
                        let i = choose|i: int| 0 <= i < s.len() && key(#[trigger] s[i]) == k2;
                        assert(i != last);
                        assert(s[i] == before[i]);
                    }
                    if old(self).tasks.tracks(k2) {
                        let i = choose|i: int| 0 <= i < before.len() && key(#[trigger] before[i]) == k2;
                        assert(s[i] == before[i]);
                    }
                }
                assert(crate::pending::kind_key()(s[last]) == k);
            }
        }
        r
    }

    /// Sends the queued move orders as one batch, where the session is
    /// active, no batch is in flight and the rate limiter permits.
    fn flush_moves(&mut self) -> (r: Option<(u64, ApiMoveRequest)>)
        requires
            old(self).wf(),
            old(self).ticker.phase == Phase::Active,
        ensures
            final(self).wf(),
            r is Some == (old(self).pending_moves@.len() > 0 && !old(self).tasks.tracks(OpKind::Moves)
                && permits(old(self).limiter.last_request_ms, old(self).limiter.min_interval_ms, old(self).clock_ms)),
            r is Some ==> final(self).tasks.entries@ == old(self).tasks.entries@.push(
                crate::pending::PendingOp { id: old(self).tasks.next_id, kind: OpKind::Moves },
            ),
            r matches Some((id, req)) ==> id == old(self).tasks.next_id
                && req.moves@ == old(self).pending_moves@
                && final(self).pending_moves@.len() == 0
                && final(self).tasks.tracks_op(id, OpKind::Moves)
                && final(self).tasks.next_id == successor(id),
            r is None ==> final(self).pending_moves == old(self).pending_moves && final(self).tasks == old(self).tasks,
            forall|k2: OpKind| k2 != OpKind::Moves ==> (#[trigger] final(self).tasks.tracks(k2) <==> old(self).tasks.tracks(k2)),
            final(self).client == old(self).client,
            final(self).ticker == old(self).ticker,
            final(self).connection == old(self).connection,
            final(self).world == old(self).world,
            final(self).clock_ms == old(self).clock_ms,
            final(self).limiter.min_interval_ms == old(self).limiter.min_interval_ms,
            final(self).registration_started_ms == old(self).registration_started_ms,
    {
        if self.pending_moves.len() == 0 || self.tasks.is_pending(OpKind::Moves) {
            return None;
        }
        if !self.limiter.can_make_request(self.clock_ms) {
            return None;
        }
        match self.try_spawn(OpKind::Moves) {
            Some(id) => {
                let mut moves: Vec<ApiMoveCommand> = Vec::new();
                std::mem::swap(&mut moves, &mut self.pending_moves);
                proof {
                    assert(commands_view(self.pending_moves@) =~= Seq::<(Seq<char>, Seq<ApiHex>)>::empty());
                }
                Some((id, ApiMoveRequest { moves }))
            },
            None => None,
        }
    }
}

/// Whether a timer fires when `delta` more milliseconds pass.
pub open spec fn fires(t: RepeatingTimer, delta: u64) -> bool {
    t.elapsed_ms + delta >= t.duration_ms
}

/// A timer after `delta` more milliseconds.
pub open spec fn advanced(t: RepeatingTimer, delta: u64) -> RepeatingTimer {
    RepeatingTimer {
        duration_ms: t.duration_ms,
        elapsed_ms: elapsed_after(t.duration_ms as nat, t.elapsed_ms as nat, delta as nat) as u64,
    }
}

/// What handling a finished operation came to.
pub enum Outcome {
    /// The operation is no longer tracked (a reconnect superseded it): its
    /// result was discarded.
    Stale,
    Registered,
    WaitingForLobby,
    RegistrationFailed,
    /// The snapshot was replaced; a move answer may carry complaints about
    /// single moves.
    SnapshotUpdated { move_errors: Vec<String> },
    SnapshotFailed { reason: String },
    MovesFailed { reason: String },
    Logs(Vec<ApiLogMessage>),
    LogsFailed { reason: String },
}

pub open spec fn registered_text(name: Seq<char>, realm: Seq<char>) -> Seq<char> {
    "Registered successfully: "@ + name + " ("@ + realm + ")"@
}

pub open spec fn failed_text(e: SyncError) -> Seq<char> {
    "Registration failed: "@ + failure_text(e)
}

pub open spec fn connected_text(realm: Seq<char>, name: Seq<char>) -> Seq<char> {
    "Connected to "@ + realm + " as "@ + name
}

impl SyncEngine {
    /// Advances the scheduler by `elapsed_ms` and starts what is due: while
    /// unregistered, a registration when the relevant timer fires; while
    /// active, a snapshot poll when the poll timer fires, and the queued moves
    /// as one batch when the rate limiter permits. At most one operation of
    /// each kind is ever in flight.
    pub fn server_tick(&mut self, elapsed_ms: u64) -> (plan: TickPlan)
        requires
            old(self).wf(),
        ensures
            final(self).wf(),
            final(self).clock_ms == (if old(self).clock_ms + elapsed_ms > u64::MAX {
                u64::MAX
            } else {
                (old(self).clock_ms + elapsed_ms) as u64
            }),
            final(self).client == old(self).client,
            final(self).connection == old(self).connection,
            final(self).world == old(self).world,
            final(self).ticker.backoff == old(self).ticker.backoff,
            plan.snapshot is Some ==> old(self).client.registration is Some,
            plan.moves is Some ==> old(self).client.registration is Some,
            plan.register is Some ==> old(self).client.registration is None,
            old(self).ticker.phase == Phase::WaitingForLobby ==> {
                &&& final(self).ticker.lobby_wait_timer == advanced(old(self).ticker.lobby_wait_timer, elapsed_ms)
                &&& final(self).ticker.registration_timer == old(self).ticker.registration_timer
                &&& final(self).ticker.timer == old(self).ticker.timer
                &&& final(self).ticker.phase == Phase::WaitingForLobby
                &&& plan.register is Some == (fires(old(self).ticker.lobby_wait_timer, elapsed_ms)
                    && can_spawn(old(self).tasks, OpKind::Register))
                &&& plan.snapshot is None && plan.moves is None
            },
            (old(self).ticker.phase == Phase::Idle || old(self).ticker.phase == Phase::Registering) ==> {
                &&& final(self).ticker.registration_timer == advanced(old(self).ticker.registration_timer, elapsed_ms)
                &&& final(self).ticker.lobby_wait_timer == old(self).ticker.lobby_wait_timer
                &&& final(self).ticker.timer == old(self).ticker.timer
                &&& plan.register is Some == (fires(old(self).ticker.registration_timer, elapsed_ms)
                    && can_spawn(old(self).tasks, OpKind::Register))
                &&& final(self).ticker.phase == (if plan.register is Some {
                    Phase::Registering
                } else {
                    old(self).ticker.phase
                })
                &&& plan.snapshot is None && plan.moves is None
            },
            old(self).ticker.phase == Phase::Active ==> {
                &&& final(self).ticker.timer == advanced(old(self).ticker.timer, elapsed_ms)
                &&& final(self).ticker.registration_timer == old(self).ticker.registration_timer
                &&& final(self).ticker.lobby_wait_timer == old(self).ticker.lobby_wait_timer
                &&& final(self).ticker.phase == Phase::Active
                &&& plan.register is None
                &&& plan.snapshot is Some == (fires(old(self).ticker.timer, elapsed_ms) && can_spawn(
                    old(self).tasks,
                    OpKind::Snapshot,
                ))
                &&& plan.moves is Some == (old(self).pending_moves@.len() > 0 && !old(self).tasks.tracks(
                    OpKind::Moves,
                ) && permits(
                    old(self).limiter.last_request_ms,
                    old(self).limiter.min_interval_ms,
                    final(self).clock_ms,
                ))
            },
            plan.register is None && plan.snapshot is None && plan.moves is None ==> final(self).tasks
                == old(self).tasks,
            forall|id: u64, k: OpKind| #[trigger] old(self).tasks.tracks_op(id, k) ==> final(self).tasks.tracks_op(id, k),
            forall|k: OpKind| #[trigger] final(self).tasks.tracks(k) <==> (old(self).tasks.tracks(k) || started(plan, k)),
            plan.register is Some ==> final(self).registration_started_ms == Some(final(self).clock_ms),
            plan.register is None ==> final(self).registration_started_ms == old(self).registration_started_ms,
            plan.snapshot matches Some(id) ==> id == old(self).tasks.next_id,
            old(self).ticker.phase != Phase::Active ==> final(self).limiter == old(self).limiter
                && final(self).pending_moves == old(self).pending_moves,
            plan.register matches Some(id) ==> id == old(self).tasks.next_id
                && final(self).tasks.entries@ == old(self).tasks.entries@.push(
                crate::pending::PendingOp { id, kind: OpKind::Register },
            ),
            plan.register matches Some(id) ==> final(self).tasks.tracks_op(id, OpKind::Register),
            plan.snapshot matches Some(id) ==> final(self).tasks.tracks_op(id, OpKind::Snapshot),
            plan.moves matches Some((id, req)) ==> final(self).tasks.tracks_op(id, OpKind::Moves)
                && req.moves@ == old(self).pending_moves@ && final(self).pending_moves@.len() == 0,
            plan.moves is None ==> final(self).pending_moves == old(self).pending_moves,
    {
        self.clock_ms = self.clock_ms.saturating_add(elapsed_ms);
        let mut plan = TickPlan { register: None, snapshot: None, moves: None };
        match self.ticker.phase {
            Phase::WaitingForLobby => {
                if self.ticker.lobby_wait_timer.tick(elapsed_ms) {
                    plan.register = self.try_spawn(OpKind::Register);
                    if plan.register.is_some() {
                        self.registration_started_ms = Some(self.clock_ms);
                    }
                }
            },
            Phase::Active => {
                if self.ticker.timer.tick(elapsed_ms) {
                    plan.snapshot = self.try_spawn(OpKind::Snapshot);
                }
                let ghost mid = self.tasks;
                plan.moves = self.flush_moves();
                proof {
                    crate::pending::lemma_push_keeps(
                        mid.entries@,
                        crate::pending::PendingOp { id: mid.next_id, kind: OpKind::Moves },
                    );
                    crate::pending::lemma_push_keeps(
                        old(self).tasks.entries@,
                        crate::pending::PendingOp { id: old(self).tasks.next_id, kind: OpKind::Snapshot },
                    );
                }
            },
            _ => {
                if self.ticker.registration_timer.tick(elapsed_ms) {
                    plan.register = self.try_spawn(OpKind::Register);
                    if plan.register.is_some() {
                        self.ticker.phase = Phase::Registering;
                        self.registration_started_ms = Some(self.clock_ms);
                    }
                }
            },
        }
        proof {
            crate::pending::lemma_push_keeps(
                old(self).tasks.entries@,
                crate::pending::PendingOp { id: old(self).tasks.next_id, kind: OpKind::Register },
            );
        }
        plan
    }

    /// Applies a finished registration. A success records the registration,
    /// resets the backoff and makes the session active. A failure that says
    /// no game is running yet switches to waiting for the lobby, with the
    /// interval reset and the attempt counter unchanged. Any other failure
    /// counts one more attempt and escalates the backoff. A result whose
    /// operation is not tracked is discarded.
    pub fn handle_registration_result(
        &mut self,
        id: u64,
        result: Result<ApiRegistrationResponse, SyncError>,
    ) -> (o: Outcome)
        requires
            old(self).wf(),
        ensures
            final(self).wf(),
            !old(self).tasks.tracks_op(id, OpKind::Register) ==> o is Stale && *final(self) == *old(self),
            old(self).tasks.tracks_op(id, OpKind::Register) ==> {
                &&& !final(self).tasks.tracks(OpKind::Register)
                &&& final(self).tasks.next_id == old(self).tasks.next_id
                &&& final(self).registration_started_ms == old(self).registration_started_ms
                &&& forall|k: OpKind| k != OpKind::Register ==> (#[trigger] final(self).tasks.tracks(k) <==> old(self).tasks.tracks(k))
                &&& final(self).world == old(self).world
                &&& final(self).pending_moves == old(self).pending_moves
                &&& final(self).limiter == old(self).limiter
                &&& final(self).clock_ms == old(self).clock_ms
                &&& final(self).client.config == old(self).client.config
                &&& final(self).ticker.timer == old(self).ticker.timer
            },
            old(self).tasks.tracks_op(id, OpKind::Register) && result is Ok ==> {
                &&& o is Registered
                &&& final(self).client.registration == Some(result->Ok_0)
                &&& final(self).ticker.phase == Phase::Active
                &&& final(self).ticker.backoff == (Backoff { interval_ms: BASE_BACKOFF_MS, attempts: 0 })
                &&& final(self).ticker.registration_timer == (RepeatingTimer { duration_ms: BASE_BACKOFF_MS, elapsed_ms: 0 })
                &&& final(self).ticker.lobby_wait_timer == old(self).ticker.lobby_wait_timer
                &&& final(self).connection.connected
                &&& final(self).connection.registered
                &&& final(self).connection.connection_message@ == registered_text(
                    result->Ok_0.name@,
                    result->Ok_0.realm@,
                )
                &&& final(self).connection.last_connection_attempt is Some
            },
            old(self).tasks.tracks_op(id, OpKind::Register) && result is Err && failure_class(result->Err_0)
                == FailureClass::Soft ==> {
                &&& o is WaitingForLobby
                &&& final(self).client.registration is None
                &&& final(self).ticker.phase == Phase::WaitingForLobby
                &&& final(self).ticker.backoff == (Backoff {
                    interval_ms: BASE_BACKOFF_MS,
                    attempts: old(self).ticker.backoff.attempts,
                })
                &&& final(self).ticker.registration_timer == (RepeatingTimer { duration_ms: BASE_BACKOFF_MS, elapsed_ms: 0 })
                &&& final(self).ticker.lobby_wait_timer == (RepeatingTimer { duration_ms: LOBBY_RETRY_MS, elapsed_ms: 0 })
                &&& !final(self).connection.connected
                &&& final(self).connection.connection_message@ == next_round_text(failure_text(result->Err_0))
                &&& final(self).connection.last_connection_attempt == old(self).connection.last_connection_attempt
            },
            old(self).tasks.tracks_op(id, OpKind::Register) && result is Err && failure_class(result->Err_0)
                == FailureClass::Hard ==> {
                &&& o is RegistrationFailed
                &&& final(self).client.registration is None
                &&& final(self).ticker.phase == Phase::Registering
                &&& final(self).ticker.backoff.interval_ms == escalated(old(self).ticker.backoff.interval_ms as nat)
                &&& final(self).ticker.backoff.attempts == (if old(self).ticker.backoff.attempts < u32::MAX {
                    old(self).ticker.backoff.attempts + 1
                } else {
                    old(self).ticker.backoff.attempts as int
                })
                &&& final(self).ticker.registration_timer == (RepeatingTimer {
                    duration_ms: final(self).ticker.backoff.interval_ms,
                    elapsed_ms: 0,
                })
                &&& final(self).ticker.lobby_wait_timer == old(self).ticker.lobby_wait_timer
                &&& !final(self).connection.connected
                &&& !final(self).connection.registered
                &&& final(self).connection.connection_message@ == failed_text(result->Err_0)
                &&& final(self).connection.last_connection_attempt is Some
            },
    {
        if !self.tasks.harvest(id, OpKind::Register) {
            return Outcome::Stale;
        }
        match result {
            Ok(reg) => {
                let now = wall_clock_ms();
                let mut msg = String::from_str("Registered successfully: ");
                msg.append(reg.name.as_str());
                msg.append(" (");
                msg.append(reg.realm.as_str());
                msg.append(")");
                self.client.registration = Some(reg);
                self.ticker.backoff.reset();
                self.ticker.registration_timer.restart_with(BASE_BACKOFF_MS);
                self.ticker.phase = Phase::Active;
                self.connection.connected = true;
                self.connection.registered = true;
                self.connection.connection_message = msg;
                self.connection.last_connection_attempt = Some(now);
                Outcome::Registered
            },
            Err(e) => {
                let text = e.describe();
                match classify_failure(&e) {
                    FailureClass::Soft => {
                        self.ticker.phase = Phase::WaitingForLobby;
                        self.ticker.lobby_wait_timer.reset();
                        self.ticker.backoff.reset_interval();
                        self.ticker.registration_timer.restart_with(BASE_BACKOFF_MS);
                        self.client.registration = None;
                        self.connection.connected = false;
                        self.connection.registered = false;
                        self.connection.connection_message = extract_next_round_info(text.as_str());
                        Outcome::WaitingForLobby
                    },
                    FailureClass::Hard => {
                        let now = wall_clock_ms();
                        self.ticker.backoff.escalate();
                        let interval = self.ticker.backoff.interval_ms;
                        self.ticker.registration_timer.restart_with(interval);
                        self.ticker.phase = Phase::Registering;
                        self.client.registration = None;
                        let mut msg = String::from_str("Registration failed: ");
                        msg.append(text.as_str());
                        self.connection.connected = false;
                        self.connection.registered = false;
                        self.connection.connection_message = msg;
                        self.connection.last_connection_attempt = Some(now);
                        Outcome::RegistrationFailed
                    },
                }
            },
        }
    }

    /// Applies a finished snapshot poll: a success replaces the world whole;
    /// a failure marks it disconnected and keeps the last snapshot.
    pub fn handle_arena_state_result(&mut self, id: u64, result: Result<ApiArenaResponse, SyncError>) -> (o:
        Outcome)
        requires
            old(self).wf(),
        ensures
            final(self).wf(),
            !old(self).tasks.tracks_op(id, OpKind::Snapshot) ==> o is Stale && *final(self) == *old(self),
            old(self).tasks.tracks_op(id, OpKind::Snapshot) ==> {
                &&& !final(self).tasks.tracks(OpKind::Snapshot)
                &&& final(self).tasks.next_id == old(self).tasks.next_id
                &&& final(self).registration_started_ms == old(self).registration_started_ms
                &&& forall|k: OpKind| k != OpKind::Snapshot ==> (#[trigger] final(self).tasks.tracks(k) <==> old(self).tasks.tracks(k))
                &&& final(self).client == old(self).client
                &&& final(self).ticker == old(self).ticker
                &&& final(self).connection == old(self).connection
                &&& final(self).pending_moves == old(self).pending_moves
                &&& final(self).limiter == old(self).limiter
                &&& final(self).clock_ms == old(self).clock_ms
            },
            old(self).tasks.tracks_op(id, OpKind::Snapshot) && result is Ok ==> {
                &&& o matches Outcome::SnapshotUpdated { move_errors } && move_errors@.len() == 0
                &&& final(self).world@ == world_of(result->Ok_0@, final(self).world.last_update_ms)
            },
            old(self).tasks.tracks_op(id, OpKind::Snapshot) && result is Err ==> {
                &&& o matches Outcome::SnapshotFailed { reason } && reason@ == failure_text(result->Err_0)
                &&& final(self).world@ == (crate::world::GameStateView { connected: false, ..old(self).world@ })
            },
    {
        if !self.tasks.harvest(id, OpKind::Snapshot) {
            return Outcome::Stale;
        }
        match result {
            Ok(arena) => {
                let now = wall_clock_ms();
                self.world = GameState::from_api_response(&arena, now);
                Outcome::SnapshotUpdated { move_errors: Vec::new() }
            },
            Err(e) => {
                self.world.connected = false;
                Outcome::SnapshotFailed { reason: e.describe() }
            },
        }
    }

    /// Applies a finished move batch: a success replaces the world whole with
    /// the one the answer describes and hands back the server's complaints
    /// about single moves; a failure changes no state.
    pub fn handle_move_response(&mut self, id: u64, result: Result<ApiMoveResponse, SyncError>) -> (o:
        Outcome)
        requires
            old(self).wf(),
        ensures
            final(self).wf(),
            !old(self).tasks.tracks_op(id, OpKind::Moves) ==> o is Stale && *final(self) == *old(self),
            old(self).tasks.tracks_op(id, OpKind::Moves) ==> {
                &&& !final(self).tasks.tracks(OpKind::Moves)
                &&& final(self).tasks.next_id == old(self).tasks.next_id
                &&& final(self).registration_started_ms == old(self).registration_started_ms
                &&& forall|k: OpKind| k != OpKind::Moves ==> (#[trigger] final(self).tasks.tracks(k) <==> old(self).tasks.tracks(k))
                &&& final(self).client == old(self).client
                &&& final(self).ticker == old(self).ticker
                &&& final(self).connection == old(self).connection
                &&& final(self).pending_moves == old(self).pending_moves
                &&& final(self).limiter == old(self).limiter
                &&& final(self).clock_ms == old(self).clock_ms
            },
            old(self).tasks.tracks_op(id, OpKind::Moves) && result is Ok ==> {
                &&& o matches Outcome::SnapshotUpdated { move_errors } && move_errors@ == result->Ok_0.errors@
                &&& final(self).world@ == world_of(arena_of_move(result->Ok_0), final(self).world.last_update_ms)
            },
            old(self).tasks.tracks_op(id, OpKind::Moves) && result is Err ==> {
                &&& o matches Outcome::MovesFailed { reason } && reason@ == failure_text(result->Err_0)
                &&& final(self).world == old(self).world
            },
    {
        if !self.tasks.harvest(id, OpKind::Moves) {
            return Outcome::Stale;
        }
        match result {
            Ok(answer) => {
                let (arena, errors) = answer.into_arena();
                let now = wall_clock_ms();
                self.world = GameState::from_api_response(&arena, now);
                Outcome::SnapshotUpdated { move_errors: errors }
            },
            Err(e) => Outcome::MovesFailed { reason: e.describe() },
        }
    }

    /// Hands over a finished log fetch; no state but the tracking changes.
    pub fn handle_logs_response(&mut self, id: u64, result: Result<Vec<ApiLogMessage>, SyncError>) -> (o:
        Outcome)
        requires
            old(self).wf(),
        ensures
            final(self).wf(),
            !old(self).tasks.tracks_op(id, OpKind::Logs) ==> o is Stale && *final(self) == *old(self),
            old(self).tasks.tracks_op(id, OpKind::Logs) ==> {
                &&& !final(self).tasks.tracks(OpKind::Logs)
                &&& final(self).tasks.next_id == old(self).tasks.next_id
                &&& final(self).registration_started_ms == old(self).registration_started_ms
                &&& forall|k: OpKind| k != OpKind::Logs ==> (#[trigger] final(self).tasks.tracks(k) <==> old(self).tasks.tracks(k))
                &&& final(self).client == old(self).client
                &&& final(self).ticker == old(self).ticker
                &&& final(self).connection == old(self).connection
                &&& final(self).world == old(self).world
                &&& final(self).pending_moves == old(self).pending_moves
                &&& final(self).limiter == old(self).limiter
                &&& final(self).clock_ms == old(self).clock_ms
            },
            old(self).tasks.tracks_op(id, OpKind::Logs) && result is Ok ==> (o matches Outcome::Logs(logs)
                && logs@ == result->Ok_0@),
            old(self).tasks.tracks_op(id, OpKind::Logs) && result is Err ==> (o matches Outcome::LogsFailed {
                reason,
            } && reason@ == failure_text(result->Err_0)),
    {
        if !self.tasks.harvest(id, OpKind::Logs) {
            return Outcome::Stale;
        }
        match result {
            Ok(logs) => Outcome::Logs(logs),
            Err(e) => Outcome::LogsFailed { reason: e.describe() },
        }
    }

    /// Starts a log fetch where the session is registered and none is in flight.
    pub fn request_logs(&mut self) -> (r: Option<u64>)
        requires
            old(self).wf(),
        ensures
            final(self).wf(),
            r is Some == (old(self).client.registration is Some && can_spawn(old(self).tasks, OpKind::Logs)),
            r matches Some(id) ==> final(self).tasks.tracks_op(id, OpKind::Logs),
            r is None ==> *final(self) == *old(self),
            final(self).client == old(self).client,
            final(self).ticker == old(self).ticker,
            final(self).world == old(self).world,
    {
        if !self.client.is_registered() {
            return None;
        }
        self.try_spawn(OpKind::Logs)
    }

    /// Drops the registration at once, from any state, and returns the id of
    /// the registration that replaces it. Every operation in flight stops
    /// being tracked (its result will be discarded as stale) and the backoff
    /// returns to the base. A registration already started at the current
    /// clock reading is kept and serves; otherwise a fresh one is started, so
    /// that one tick never starts two.
    pub fn request_reconnect(&mut self) -> (id: u64)
        requires
            old(self).wf(),
        ensures
            final(self).wf(),
            final(self).client.registration is None,
            final(self).client.config == old(self).client.config,
            final(self).ticker.phase == Phase::Registering,
            final(self).ticker.backoff == (Backoff { interval_ms: BASE_BACKOFF_MS, attempts: 0 }),
            final(self).ticker.registration_timer == (RepeatingTimer { duration_ms: BASE_BACKOFF_MS, elapsed_ms: 0 }),
            final(self).ticker.timer == old(self).ticker.timer,
            final(self).ticker.lobby_wait_timer == old(self).ticker.lobby_wait_timer,
            !final(self).connection.connected,
            !final(self).connection.registered,
            final(self).connection.connection_message@ == "Reconnecting..."@,
            final(self).tasks.entries@ == seq![crate::pending::PendingOp { id, kind: OpKind::Register }],
            (old(self).tasks.tracks(OpKind::Register) && old(self).registration_started_ms == Some(
                old(self).clock_ms,
            )) ==> old(self).tasks.tracks_op(id, OpKind::Register) && final(self).tasks.next_id == old(
                self,
            ).tasks.next_id,
            !(old(self).tasks.tracks(OpKind::Register) && old(self).registration_started_ms == Some(
                old(self).clock_ms,
            )) ==> id == old(self).tasks.next_id && final(self).tasks.next_id == successor(old(self).tasks.next_id),
            final(self).registration_started_ms == Some(old(self).clock_ms),
            final(self).world == old(self).world,
            final(self).pending_moves == old(self).pending_moves,
            final(self).limiter == old(self).limiter,
            final(self).clock_ms == old(self).clock_ms,
    {
        let started_now = match self.registration_started_ms {
            Some(t) => t == self.clock_ms,
            None => false,
        };
        let current = self.tasks.pending_id(OpKind::Register);
        self.client.registration = None;
        self.ticker.backoff.reset();
        self.ticker.registration_timer.restart_with(BASE_BACKOFF_MS);
        self.ticker.phase = Phase::Registering;
        self.connection.connected = false;
        self.connection.registered = false;
        self.connection.connection_message = String::from_str("Reconnecting...");
        self.registration_started_ms = Some(self.clock_ms);
        if started_now {
            if let Some(id) = current {
                self.tasks.keep_only(OpKind::Register);
                return id;
            }
        }
        self.tasks.forget_all();
        proof {
            assert(!self.tasks.tracks(OpKind::Register));
        }
        match self.try_spawn(OpKind::Register) {
            Some(id) => {
                assert(self.tasks.entries@ =~= seq![crate::pending::PendingOp { id, kind: OpKind::Register }]);
                id
            },
            None => {
                assert(false);
                0
            },
        }
    }

    /// Brings the shown connection flag in line with the registration, with a
    /// message naming the realm and player where registered.
    pub fn monitor_connection(&mut self)
        requires
            old(self).wf(),
        ensures
            final(self).wf(),
            final(self).connection.connected == (old(self).client.registration is Some),
            old(self).connection.connected == (old(self).client.registration is Some) ==> final(self).connection
                == old(self).connection,
            old(self).connection.connected != (old(self).client.registration is Some) ==> {
                &&& final(self).connection.connection_message@ == (match old(self).client.registration {
                    Some(d) => connected_text(d.realm@, d.name@),
                    None => "Disconnected"@,
                })
                &&& final(self).connection.registered == old(self).connection.registered
                &&& final(self).connection.last_connection_attempt == old(self).connection.last_connection_attempt
            },
            final(self).client == old(self).client,
            final(self).ticker == old(self).ticker,
            final(self).tasks == old(self).tasks,
            final(self).world == old(self).world,
            final(self).pending_moves == old(self).pending_moves,
            final(self).limiter == old(self).limiter,
            final(self).clock_ms == old(self).clock_ms,
    {
        let registered = self.client.is_registered();
        if registered != self.connection.connected {
            self.connection.connected = registered;
            let msg = match self.client.get_registration_data() {
                Some(d) => {
                    let mut m = String::from_str("Connected to ");
                    m.append(d.realm.as_str());
                    m.append(" as ");
                    m.append(d.name.as_str());
                    m
                },
                None => String::from_str("Disconnected"),
            };
            self.connection.connection_message = msg;
        }
    }
}

} // verus!
