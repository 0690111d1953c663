//! Behavior state machine: once per tick it derives the pet's mode (chasing,
//! alerted, idling, tired, sleeping, scratching) from its distance to the
//! pointer and the idle counters, picks a sprite, hands it to the playback
//! engine, and decides whether the pet moves this tick.
//!
//! The whole tick is pinned by the spec function [`tick_spec`]: the state
//! after [`ManzarState::render`] and its outputs equal a pure function of
//! the state before.

use vstd::prelude::*;
use crate::arith::{inc32, lemma_round_div_sqrt_le, round_div_sqrt, round_div_sqrt_spec};
use crate::engine::{adopt_cell, adopt_frame, definite_budget, engine_apply, engine_step,
    AnimationState, AnimationStateView, EngineOut};
use crate::geometry::{compass_direction, compass_spec, dist_sq, lemma_compass_total,
    nearest_scratch_edge, scratch_edge_spec, Direction, Edge};
use crate::sprite::{lemma_frame_index_in_range, AnimationDuration, ManzarSprites,
    ManzarSpritesView, Point, Sprite, SpriteView};

verus! {

/// Positions and window sizes are viewport pixels and stay well inside this
/// bound, so every distance and movement computation fits in 64 bits.
pub const COORD_LIMIT: i32 = 1_000_000;

/// The chase speed is pixels per tick and stays small against the
/// coordinate bound, so a move step never leaves it.
pub const SPEED_LIMIT: i32 = 1_000;

/// Immutable per-pet tuning: chase speed, the idle ramp's timing, and the
/// scratch rule's interval and edge margin.
#[derive(Clone, Copy, PartialEq, Eq, Structural, Debug)]
pub struct BehaviorConfig {
    /// Pixels moved per tick while chasing; also the closeness threshold.
    pub speed: i32,
    /// Ticks spent close to the pointer before the idle ramp begins.
    pub idle_timeout: u32,
    /// Offset past `idle_timeout` at which the tired pose begins.
    pub tired_window_start: u32,
    /// Offset past `idle_timeout` at which the tired pose ends.
    pub tired_window_end: u32,
    /// Offset past `idle_timeout` beyond which the pet sleeps.
    pub sleep_threshold: u32,
    /// A scratch is considered on ticks whose counter is a multiple of this.
    pub scratch_interval: u32,
    /// How close (pixels) an edge must be to scratch it.
    pub scratch_margin: i32,
    /// Ticks the alert pose holds once the pointer moves away.
    pub alert_buffer_len: u32,
}

impl BehaviorConfig {
    /// A valid configuration: a positive speed (the far branch divides by
    /// the distance, which is at least `speed`), a positive scratch
    /// interval (the scratch rule takes the tick counter modulo it), and
    /// margin and speed inside the coordinate bound.
    pub open spec fn wf(self) -> bool {
        &&& 1 <= self.speed <= SPEED_LIMIT
        &&& self.scratch_interval >= 1
        &&& 0 <= self.scratch_margin <= COORD_LIMIT
    }

    /// Runtime check of [`BehaviorConfig::wf`], for hosts that assemble a
    /// configuration from unverified input.
    pub fn is_valid(&self) -> (b: bool)
        ensures
            b == self.wf(),
    {
        1 <= self.speed && self.speed <= SPEED_LIMIT && self.scratch_interval >= 1
            && 0 <= self.scratch_margin && self.scratch_margin <= COORD_LIMIT
    }

    /// The default tuning: 10 px per 100 ms tick, a 50-tick idle ramp,
    /// tiredness over offsets 20 to 40, sleep past 40, a scratch considered
    /// every 101 ticks within 10 px of an edge, and a 5-tick alert hold.
    pub fn standard() -> (c: BehaviorConfig)
        ensures
            c == (BehaviorConfig {
                speed: 10,
                idle_timeout: 50,
                tired_window_start: 20,
                tired_window_end: 40,
                sleep_threshold: 40,
                scratch_interval: 101,
                scratch_margin: 10,
                alert_buffer_len: 5,
            }),
            c.wf(),
    {
        BehaviorConfig {
            speed: 10,
            idle_timeout: 50,
            tired_window_start: 20,
            tired_window_end: 40,
            sleep_threshold: 40,
            scratch_interval: 101,
            scratch_margin: 10,
            alert_buffer_len: 5,
        }
    }
}

/// The idle ramp's counters: `frame` counts consecutive ticks spent close to
/// the pointer (0 means not idle), `buffer` holds the remaining ticks of the
/// alert pose once the pointer moves away.
#[derive(Clone, Copy, PartialEq, Eq, Structural, Debug)]
pub struct IdleState {
    pub frame: u32,
    pub buffer: u32,
}

/// The whole pet: sprite roster, tuning, the two positions, the tick
/// counter, the playback state, the idle counters, and the viewport size.
pub struct ManzarState {
    pub sprites: ManzarSprites,
    pub config: BehaviorConfig,
    /// Last pointer-press position; written only by [`ManzarState::on_mouse_down`].
    pub mouse: Point,
    /// The pet's position; written only by the tick's movement step.
    pub cat: Point,
    /// Ticks elapsed; reset when a definite animation completes.
    pub frame: u32,
    pub animation: AnimationState,
    pub idle: IdleState,
    pub window_size: (i32, i32),
}

/// Mathematical model of a [`ManzarState`].
#[verifier::ext_equal]
pub struct StateView {
    pub sprites: ManzarSpritesView,
    pub config: BehaviorConfig,
    pub mouse: Point,
    pub cat: Point,
    pub frame: u32,
    pub anim: AnimationStateView,
    pub idle: IdleState,
    pub window_size: (i32, i32),
}

impl View for ManzarState {
    type V = StateView;

    open spec fn view(&self) -> StateView {
        StateView {
            sprites: self.sprites@,
            config: self.config,
            mouse: self.mouse,
            cat: self.cat,
            frame: self.frame,
            anim: self.animation@,
            idle: self.idle,
            window_size: self.window_size,
        }
    }
}

/// A position inside the coordinate bound.
pub open spec fn in_bounds(p: Point) -> bool {
    &&& -COORD_LIMIT <= p.0 <= COORD_LIMIT
    &&& -COORD_LIMIT <= p.1 <= COORD_LIMIT
}

impl StateView {
    /// The state invariant: a playable roster and current sprite, a valid
    /// configuration, and positions and window inside the coordinate bound.
    /// [`ManzarState::new`] establishes it and every method preserves it.
    pub open spec fn wf(self) -> bool {
        &&& self.sprites.wf()
        &&& self.config.wf()
        &&& in_bounds(self.mouse)
        &&& in_bounds(self.cat)
        &&& 0 <= self.window_size.0 <= COORD_LIMIT
        &&& 0 <= self.window_size.1 <= COORD_LIMIT
        &&& self.anim.sprite.wf()
    }
}

/// The pet counts as close to the pointer when its distance is under
/// `speed`; compared on squares, which is exact.
pub open spec fn is_close(v: StateView) -> bool {
    dist_sq(v.cat, v.mouse) < (v.config.speed as int) * (v.config.speed as int)
}

/// State after the playback engine handles `req`: the engine's next playback
/// state, and — when a definite animation just completed — the tick counter
/// and idle counter reset so the idle ramp restarts cleanly.
pub open spec fn engine_out_post(v: StateView, o: EngineOut) -> StateView {
    if o.completed {
        StateView {
            anim: o.anim,
            frame: 0,
            idle: IdleState { frame: 0, buffer: v.idle.buffer },
            ..v
        }
    } else {
        StateView { anim: o.anim, ..v }
    }
}

/// State after a full `set_sprite(req)` call.
pub open spec fn engine_post(v: StateView, req: SpriteView) -> StateView {
    engine_out_post(v, engine_step(v.anim, v.sprites.idle, req))
}

/// Cell displayed by a full `set_sprite(req)` call.
pub open spec fn engine_cell(v: StateView, req: SpriteView) -> Point {
    engine_step(v.anim, v.sprites.idle, req).cell
}

/// State after the apply stage adopts `target` directly.
pub open spec fn apply_post(v: StateView, target: SpriteView) -> StateView {
    engine_out_post(v, engine_apply(v.anim, v.sprites.idle, target))
}

/// The directional scratch sprite for the nearest qualifying screen edge,
/// or the generic scratch sprite when no edge is close enough.
pub open spec fn scratch_sprite_spec(v: StateView) -> SpriteView {
    match scratch_edge_spec(v.cat, v.window_size, v.config.scratch_margin as int) {
        Some(Edge::West) => v.sprites.scratch.cardinal.w,
        Some(Edge::North) => v.sprites.scratch.cardinal.n,
        Some(Edge::East) => v.sprites.scratch.cardinal.e,
        Some(Edge::South) => v.sprites.scratch.cardinal.s,
        None => v.sprites.scratch.cat,
    }
}

/// The walk cycle for a compass bucket; the idle sprite when no threshold
/// was crossed (unreachable in the chase branch, see
/// [`lemma_compass_total`]).
pub open spec fn compass_sprite_spec(r: ManzarSpritesView, d: Option<Direction>) -> SpriteView {
    match d {
        Some(Direction::N) => r.cardinal.n,
        Some(Direction::E) => r.cardinal.e,
        Some(Direction::S) => r.cardinal.s,
        Some(Direction::W) => r.cardinal.w,
        Some(Direction::Ne) => r.ordinal.ne,
        Some(Direction::Nw) => r.ordinal.nw,
        Some(Direction::Se) => r.ordinal.se,
        Some(Direction::Sw) => r.ordinal.sw,
        None => r.idle,
    }
}

/// The sprite the close (idle-ramp) branch requests once the ramp has run
/// for `f >= idle_timeout` ticks; `v` already carries the incremented tick
/// counter and idle counter.
pub open spec fn close_request(v: StateView, f: u32) -> SpriteView {
    let diff = f as int - v.config.idle_timeout as int;
    if diff > v.config.sleep_threshold as int {
        v.sprites.sleeping
    } else if (v.frame as int) % (v.config.scratch_interval as int) == 0 {
        scratch_sprite_spec(v)
    } else if v.config.tired_window_start as int <= diff < v.config.tired_window_end as int {
        v.sprites.tired
    } else {
        v.anim.sprite
    }
}

/// Arm the alert hold: whenever the close branch ends with an empty buffer,
/// it is refilled so the next departure of the pointer shows the alert pose.
pub open spec fn seed_buffer(v: StateView) -> StateView {
    if v.idle.buffer == 0 {
        StateView { idle: IdleState { frame: v.idle.frame, buffer: v.config.alert_buffer_len }, ..v }
    } else {
        v
    }
}

/// Everything one tick produces.
#[verifier::ext_equal]
pub struct TickOut {
    /// The state after the tick.
    pub post: StateView,
    /// The cell to display, when this tick ran a sprite through the engine.
    pub cell: Option<Point>,
    /// Whether the pet moved this tick.
    pub moved: bool,
}

/// The close branch: run the idle ramp. The pet never moves here.
pub open spec fn tick_close(v: StateView) -> TickOut {
    if v.idle.frame == 0 {
        let e = engine_post(v, v.sprites.idle);
        let c = engine_cell(v, v.sprites.idle);
        let v2 = StateView { idle: IdleState { frame: 1, buffer: e.idle.buffer }, ..e };
        TickOut { post: seed_buffer(v2), cell: Some(c), moved: false }
    } else {
        let f = inc32(v.idle.frame);
        let v2 = StateView { idle: IdleState { frame: f, buffer: v.idle.buffer }, ..v };
        if f >= v.config.idle_timeout {
            let req = close_request(v2, f);
            let e = engine_post(v2, req);
            let c = engine_cell(v2, req);
            TickOut { post: seed_buffer(e), cell: Some(c), moved: false }
        } else {
            TickOut { post: seed_buffer(v2), cell: None, moved: false }
        }
    }
}

/// The far branch: hold the alert pose while the buffer lasts, then chase
/// along the compass direction — unless a definite animation is playing,
/// which blocks travel.
pub open spec fn tick_far(v: StateView, dx: int, dy: int, s: int) -> TickOut {
    let v2 = StateView { idle: IdleState { frame: 0, buffer: v.idle.buffer }, ..v };
    if v.idle.buffer > 0 {
        let v3 = StateView {
            idle: IdleState { frame: 0, buffer: (v.idle.buffer - 1) as u32 },
            ..v
        };
        let e = engine_post(v3, v.sprites.alert);
        let c = engine_cell(v3, v.sprites.alert);
        TickOut { post: e, cell: Some(c), moved: false }
    } else {
        let req = compass_sprite_spec(v.sprites, compass_spec(dx, dy, s));
        let e = engine_post(v2, req);
        let c = engine_cell(v2, req);
        if e.anim.sprite.is_definite() {
            TickOut { post: e, cell: Some(c), moved: false }
        } else {
            let spd = v.config.speed as int;
            let nx = v.cat.0 as int - round_div_sqrt_spec(dx * spd, s);
            let ny = v.cat.1 as int - round_div_sqrt_spec(dy * spd, s);
            let post = StateView { cat: Point(nx as i32, ny as i32), ..e };
            TickOut { post, cell: Some(c), moved: true }
        }
    }
}

/// One full tick: advance the tick counter, compare the squared distance to
/// the pointer against `speed` squared, and run the close or the far branch.
pub open spec fn tick_spec(v: StateView) -> TickOut {
    let t = inc32(v.frame);
    let v1 = StateView { frame: t, ..v };
    let dx = v.cat.0 as int - v.mouse.0 as int;
    let dy = v.cat.1 as int - v.mouse.1 as int;
    let s = dx * dx + dy * dy;
    let spd = v.config.speed as int;
    if s < spd * spd {
        tick_close(v1)
    } else {
        tick_far(v1, dx, dy, s)
    }
}

/// The state after `n` ticks with no pointer event in between.
pub open spec fn run_ticks(v: StateView, n: nat) -> StateView
    decreases n,
{
    if n == 0 {
        v
    } else {
        tick_spec(run_ticks(v, (n - 1) as nat)).post
    }
}

/// While the pet stays within `speed` of the pointer it never moves:
/// closeness is preserved from tick to tick (neither position changes in the
/// close branch), so any number of ticks leaves the pet where it is.
pub proof fn lemma_close_never_moves(v: StateView, n: nat)
    requires
        is_close(v),
    ensures
        run_ticks(v, n).cat == v.cat,
        run_ticks(v, n).mouse == v.mouse,
        run_ticks(v, n).config == v.config,
        is_close(run_ticks(v, n)),
    decreases n,
{
    if n > 0 {
        lemma_close_never_moves(v, (n - 1) as nat);
        let u = run_ticks(v, (n - 1) as nat);
        assert(tick_spec(u).post.cat == u.cat);
        assert(tick_spec(u).post.mouse == u.mouse);
        assert(tick_spec(u).post.config == u.config);
    }
}

/// The engine step preserves the state invariant whenever the requested
/// sprite is playable: the adopted sprite is the current one, the request,
/// or the roster's idle sprite, and positions are untouched.
pub proof fn lemma_engine_post_wf(v: StateView, req: SpriteView)
    requires
        v.wf(),
        req.wf(),
    ensures
        engine_post(v, req).wf(),
        engine_post(v, req).cat == v.cat,
        engine_post(v, req).mouse == v.mouse,
{
}

/// A chase step never overshoots: moving from coordinate `c` toward `m` by
/// the rounded share `round((c - m) * spd / sqrt(s))` lands between the
/// two, because the step's magnitude is at most `|c - m|` whenever
/// `spd <= sqrt(s)`.
pub proof fn lemma_step_within(c: int, m: int, spd: int, s: int)
    requires
        1 <= spd,
        spd * spd <= s,
    ensures
        c >= m ==> m <= c - round_div_sqrt_spec((c - m) * spd, s) <= c,
        c <= m ==> c <= c - round_div_sqrt_spec((c - m) * spd, s) <= m,
{
    let dx = c - m;
    if dx >= 0 {
        lemma_round_div_sqrt_le(dx, spd, s);
    } else {
        lemma_round_div_sqrt_le(-dx, spd, s);
        assert(dx * spd < 0) by (nonlinear_arith)
            requires dx < 0, spd >= 1;
        assert(4 * (dx * spd) * (dx * spd) == 4 * ((-dx) * spd) * ((-dx) * spd))
            by (nonlinear_arith);
        assert(round_div_sqrt_spec(dx * spd, s) == -round_div_sqrt_spec((-dx) * spd, s));
    }
}

/// A moving tick takes the pet toward the pointer and never past it: on
/// each axis the new coordinate lies between the old one and the pointer's.
/// (The step along an axis is the rounded share
/// `round(delta * speed / sqrt(s))`, and in the far branch
/// `speed <= sqrt(s)`.)
pub proof fn lemma_chase_moves_toward_pointer(v: StateView)
    requires
        v.wf(),
        tick_spec(v).moved,
    ensures
        v.cat.0 >= v.mouse.0 ==> v.mouse.0 <= tick_spec(v).post.cat.0 <= v.cat.0,
        v.cat.0 <= v.mouse.0 ==> v.cat.0 <= tick_spec(v).post.cat.0 <= v.mouse.0,
        v.cat.1 >= v.mouse.1 ==> v.mouse.1 <= tick_spec(v).post.cat.1 <= v.cat.1,
        v.cat.1 <= v.mouse.1 ==> v.cat.1 <= tick_spec(v).post.cat.1 <= v.mouse.1,
{
    let dx = v.cat.0 as int - v.mouse.0 as int;
    let dy = v.cat.1 as int - v.mouse.1 as int;
    let s = dx * dx + dy * dy;
    let spd = v.config.speed as int;
    assert(s >= spd * spd);
    lemma_step_within(v.cat.0 as int, v.mouse.0 as int, spd, s);
    lemma_step_within(v.cat.1 as int, v.mouse.1 as int, spd, s);
    let nx = v.cat.0 as int - round_div_sqrt_spec(dx * spd, s);
    let ny = v.cat.1 as int - round_div_sqrt_spec(dy * spd, s);
    assert(-1_000_000 <= nx <= 1_000_000);
    assert(-1_000_000 <= ny <= 1_000_000);
    assert(tick_spec(v).post.cat == Point(nx as i32, ny as i32));
}

/// Every tick preserves the state invariant: the engine only ever adopts
/// playable sprites, and a chase step stays between the pet and the
/// pointer, inside the coordinate bound.
pub proof fn lemma_tick_preserves_wf(v: StateView)
    requires
        v.wf(),
    ensures
        tick_spec(v).post.wf(),
{
    let t = inc32(v.frame);
    let v1 = StateView { frame: t, ..v };
    let dx = v.cat.0 as int - v.mouse.0 as int;
    let dy = v.cat.1 as int - v.mouse.1 as int;
    let s = dx * dx + dy * dy;
    let spd = v.config.speed as int;
    if s < spd * spd {
        if v1.idle.frame == 0 {
            lemma_engine_post_wf(v1, v1.sprites.idle);
        } else {
            let f = inc32(v1.idle.frame);
            let v2 = StateView { idle: IdleState { frame: f, buffer: v1.idle.buffer }, ..v1 };
            if f >= v1.config.idle_timeout {
                let req = close_request(v2, f);
                assert(req.wf());
                lemma_engine_post_wf(v2, req);
            }
        }
    } else {
        let v2 = StateView { idle: IdleState { frame: 0, buffer: v1.idle.buffer }, ..v1 };
        if v.idle.buffer > 0 {
            let v3 = StateView {
                idle: IdleState { frame: 0, buffer: (v.idle.buffer - 1) as u32 },
                ..v1
            };
            lemma_engine_post_wf(v3, v1.sprites.alert);
        } else {
            let req = compass_sprite_spec(v1.sprites, compass_spec(dx, dy, s));
            assert(req.wf());
            lemma_engine_post_wf(v2, req);
            if !engine_post(v2, req).anim.sprite.is_definite() {
                lemma_chase_moves_toward_pointer(v);
            }
        }
    }
}

/// The invariant holds along any run of ticks.
pub proof fn lemma_run_ticks_wf(v: StateView, n: nat)
    requires
        v.wf(),
    ensures
        run_ticks(v, n).wf(),
    decreases n,
{
    if n > 0 {
        lemma_run_ticks_wf(v, (n - 1) as nat);
        lemma_tick_preserves_wf(run_ticks(v, (n - 1) as nat));
    }
}

/// Definite-animation atomicity at the state level: once the playing
/// definite animation has spent its budget — after exactly as many advances
/// as the budget allows — the next request, whatever sprite it asks for,
/// falls back to the roster's idle sprite and resets the idle ramp and the
/// tick counter, so the idle ramp restarts cleanly.
pub proof fn lemma_definite_completion_resets(v: StateView, req: SpriteView)
    requires
        definite_budget(v.anim.sprite) is Some,
        v.anim.frame >= definite_budget(v.anim.sprite)->0,
    ensures
        engine_post(v, req).anim.sprite == v.sprites.idle,
        engine_post(v, req).frame == 0,
        engine_post(v, req).idle.frame == 0,
        engine_post(v, req).idle.buffer == v.idle.buffer,
        v.sprites.idle is Static ==> engine_post(v, req).anim.frame == 0,
{
}

/// What [`ManzarState::render`] hands the host each tick.
#[derive(Clone, Copy, PartialEq, Eq, Structural, Debug)]
pub struct RenderEffect {
    /// The sprite-sheet cell to display, when this tick ran a sprite
    /// through the engine (ramp-up idle ticks leave the display alone).
    pub cell: Option<Point>,
    /// The pet's position after the tick.
    pub pos: Point,
    /// Whether the pet moved this tick (so the host must reposition it).
    pub moved: bool,
}

impl ManzarState {
    /// Build a pet at `origin` (pointer and pet coincide, so the first
    /// derived mode is idle), showing the roster's idle sprite, all
    /// counters zero. Returns `None` — and no pet — when the roster, the
    /// configuration, the window, or the origin is out of bounds.
    pub fn new(
        sprites: ManzarSprites,
        config: BehaviorConfig,
        window_size: (i32, i32),
        origin: Point,
    ) -> (r: Option<ManzarState>)
        ensures
            r is Some <==> ({
                &&& sprites@.wf()
                &&& config.wf()
                &&& 0 <= window_size.0 <= COORD_LIMIT
                &&& 0 <= window_size.1 <= COORD_LIMIT
                &&& in_bounds(origin)
            }),
            r matches Some(m) ==> m@ == (StateView {
                sprites: sprites@,
                config,
                mouse: origin,
                cat: origin,
                frame: 0,
                anim: AnimationStateView { sprite: sprites@.idle, frame: 0 },
                idle: IdleState { frame: 0, buffer: 0 },
                window_size,
            }),
            r matches Some(m) ==> m@.wf(),
    {
        let ok = sprites.check_wf() && config.is_valid()
            && 0 <= window_size.0 && window_size.0 <= COORD_LIMIT
            && 0 <= window_size.1 && window_size.1 <= COORD_LIMIT
            && -COORD_LIMIT <= origin.0 && origin.0 <= COORD_LIMIT
            && -COORD_LIMIT <= origin.1 && origin.1 <= COORD_LIMIT;
        if !ok {
            return None;
        }
        let idle_sprite = sprites.idle.clone();
        Some(ManzarState {
            sprites,
            config,
            mouse: origin,
            cat: origin,
            frame: 0,
            animation: AnimationState { sprite: idle_sprite, frame: 0 },
            idle: IdleState { frame: 0, buffer: 0 },
            window_size,
        })
    }

    /// A pointer press only overwrites the last known pointer position; the
    /// next tick sees it.
    pub fn on_mouse_down(&mut self, x: i32, y: i32)
        requires
            old(self)@.wf(),
            -COORD_LIMIT <= x <= COORD_LIMIT,
            -COORD_LIMIT <= y <= COORD_LIMIT,
        ensures
            final(self)@ == (StateView { mouse: Point(x, y), ..old(self)@ }),
            final(self)@.wf(),
    {
        self.mouse = Point(x, y);
    }

    /// Place the pet; the host repositions the visual element to match.
    pub fn move_to(&mut self, x: i32, y: i32)
        requires
            old(self)@.wf(),
            -COORD_LIMIT <= x <= COORD_LIMIT,
            -COORD_LIMIT <= y <= COORD_LIMIT,
        ensures
            final(self)@ == (StateView { cat: Point(x, y), ..old(self)@ }),
            final(self)@.wf(),
    {
        self.cat = Point(x, y);
    }

    /// The walk cycle for a compass bucket; the idle sprite when none.
    pub fn get_compass_sprites(&self, direction: Option<Direction>) -> (r: Sprite)
        ensures
            r@ == compass_sprite_spec(self@.sprites, direction),
    {
        match direction {
            Some(Direction::N) => self.sprites.cardinal.n.clone(),
            Some(Direction::E) => self.sprites.cardinal.e.clone(),
            Some(Direction::S) => self.sprites.cardinal.s.clone(),
            Some(Direction::W) => self.sprites.cardinal.w.clone(),
            Some(Direction::Ne) => self.sprites.ordinal.ne.clone(),
            Some(Direction::Nw) => self.sprites.ordinal.nw.clone(),
            Some(Direction::Se) => self.sprites.ordinal.se.clone(),
            Some(Direction::Sw) => self.sprites.ordinal.sw.clone(),
            None => self.sprites.idle.clone(),
        }
    }

    /// The scratch sprite for the nearest screen edge within the margin, or
    /// the generic scratch sprite when no edge qualifies.
    pub fn get_cardinal_scratch_sprite(&self) -> (r: Sprite)
        requires
            self@.wf(),
        ensures
            r@ == scratch_sprite_spec(self@),
    {
        let edge = nearest_scratch_edge(self.cat, self.window_size, self.config.scratch_margin);
        match edge {
            Some(Edge::West) => self.sprites.scratch.cardinal.w.clone(),
            Some(Edge::North) => self.sprites.scratch.cardinal.n.clone(),
            Some(Edge::East) => self.sprites.scratch.cardinal.e.clone(),
            Some(Edge::South) => self.sprites.scratch.cardinal.s.clone(),
            None => self.sprites.scratch.cat.clone(),
        }
    }

    /// Adopt `target` unconditionally: a static sprite resets the advance
    /// counter and shows its cell; an animation advances the counter and
    /// shows the frame it lands on.
    fn adopt_sprite(&mut self, target: Sprite) -> (cell: Point)
        requires
            target@.wf(),
        ensures
            final(self)@ == (StateView {
                anim: AnimationStateView {
                    sprite: target@,
                    frame: adopt_frame(old(self)@.anim.frame, target@),
                },
                ..old(self)@
            }),
            cell == adopt_cell(old(self)@.anim.frame, target@),
    {
        match target {
            Sprite::Static(p) => {
                self.animation.frame = 0;
                self.animation.sprite = Sprite::Static(p);
                p
            },
            Sprite::Animated(a) => {
                let step: u32 = 100 / a.speed;
                proof {
                    vstd::arithmetic::div_mod::lemma_div_by_self(a.speed as int);
                    vstd::arithmetic::div_mod::lemma_div_is_ordered(
                        a.speed as int,
                        100,
                        a.speed as int,
                    );
                    assert(step >= 1);
                }
                let f: u32 = self.animation.frame.wrapping_add(1);
                self.animation.frame = f;
                let len: usize = a.states.len();
                let idx: usize = ((f / step) as usize) % len;
                proof {
                    lemma_frame_index_in_range(a@, f);
                    assert(f == inc32(old(self)@.anim.frame));
                    assert(idx == a@.frame_index(f));
                }
                let cell = a.states[idx];
                self.animation.sprite = Sprite::Animated(a);
                cell
            },
        }
    }

    /// The apply stage of the engine: fall back to the roster's idle sprite
    /// — resetting the advance counter, the idle ramp, and the tick counter
    /// — when `target` is a definite animation whose budget is spent;
    /// otherwise adopt `target`.
    fn apply_sprite(&mut self, target: Sprite) -> (cell: Point)
        requires
            old(self)@.wf(),
            target@.wf(),
        ensures
            final(self)@ == apply_post(old(self)@, target@),
            cell == engine_apply(old(self)@.anim, old(self)@.sprites.idle, target@).cell,
    {
        let done = match &target {
            Sprite::Animated(a) => match a.duration {
                AnimationDuration::Definite(n) => n <= self.animation.frame,
                AnimationDuration::Infinite => false,
            },
            Sprite::Static(_) => false,
        };
        if done {
            self.animation.frame = 0;
            self.idle.frame = 0;
            self.frame = 0;
            let idle_sprite = self.sprites.idle.clone();
            self.adopt_sprite(idle_sprite)
        } else {
            self.adopt_sprite(target)
        }
    }

    /// Request a sprite while respecting the animation in progress: a
    /// definite animation that has not finished keeps playing regardless of
    /// the request; anything else yields to it.
    pub fn set_sprite(&mut self, sprite: &Sprite) -> (cell: Point)
        requires
            old(self)@.wf(),
            sprite@.wf(),
        ensures
            final(self)@ == engine_post(old(self)@, sprite@),
            cell == engine_cell(old(self)@, sprite@),
            final(self)@.wf(),
    {
        proof {
            lemma_engine_post_wf(old(self)@, sprite@);
        }
        let keep = match &self.animation.sprite {
            Sprite::Animated(a) => match a.duration {
                AnimationDuration::Definite(_) => true,
                AnimationDuration::Infinite => false,
            },
            Sprite::Static(_) => false,
        };
        let target: Sprite = if keep {
            self.animation.sprite.clone()
        } else {
            sprite.clone()
        };
        self.apply_sprite(target)
    }

    /// One engine tick. Advances the tick counter, derives the pet's mode
    /// from its distance to the pointer and the idle counters, runs the
    /// chosen sprite through the playback engine, and moves the pet one
    /// `speed`-sized step toward the pointer when chasing. The state after
    /// the call and both outputs equal [`tick_spec`] of the state before;
    /// in particular the pet never moves while it is close to the pointer.
    pub fn render(&mut self) -> (eff: RenderEffect)
        requires
            old(self)@.wf(),
        ensures
            final(self)@ == tick_spec(old(self)@).post,
            eff.cell == tick_spec(old(self)@).cell,
            eff.moved == tick_spec(old(self)@).moved,
            eff.pos == final(self).cat,
            final(self)@.wf(),
    {
        let ghost v0 = self@;
        self.frame = self.frame.wrapping_add(1);
        let ghost v1 = self@;
        proof {
            assert(v1 == (StateView { frame: inc32(v0.frame), ..v0 }));
        }
        let dx: i64 = self.cat.0 as i64 - self.mouse.0 as i64;
        let dy: i64 = self.cat.1 as i64 - self.mouse.1 as i64;
        proof {
            assert(0 <= dx * dx <= 4_000_000_000_000) by (nonlinear_arith)
                requires -2_000_000 <= dx as int <= 2_000_000;
            assert(0 <= dy * dy <= 4_000_000_000_000) by (nonlinear_arith)
                requires -2_000_000 <= dy as int <= 2_000_000;
        }
        let s: i64 = dx * dx + dy * dy;
        let spd: i64 = self.config.speed as i64;
        proof {
            assert(1 <= spd * spd <= 1_000_000) by (nonlinear_arith)
                requires 1 <= spd as int <= 1_000;
        }
        if s < spd * spd {
            let cell: Option<Point>;
            if self.idle.frame == 0 {
                let req = self.sprites.idle.clone();
                let c = self.set_sprite(&req);
                self.idle.frame = 1;
                cell = Some(c);
            } else {
                let newf = self.idle.frame.wrapping_add(1);
                self.idle.frame = newf;
                let ghost v2 = self@;
                proof {
                    assert(v2 == (StateView {
                        idle: IdleState { frame: inc32(v0.idle.frame), buffer: v0.idle.buffer },
                        ..v1
                    }));
                }
                if newf >= self.config.idle_timeout {
                    let diff = newf - self.config.idle_timeout;
                    let scratch_flag = self.frame % self.config.scratch_interval == 0;
                    let req: Sprite = if diff > self.config.sleep_threshold {
                        self.sprites.sleeping.clone()
                    } else if scratch_flag {
                        self.get_cardinal_scratch_sprite()
                    } else if self.config.tired_window_start <= diff
                        && diff < self.config.tired_window_end {
                        self.sprites.tired.clone()
                    } else {
                        self.animation.sprite.clone()
                    };
                    proof {
                        assert(req@ == close_request(v2, newf));
                        assert(req@.wf());
                    }
                    let c = self.set_sprite(&req);
                    cell = Some(c);
                } else {
                    cell = None;
                }
            }
            if self.idle.buffer == 0 {
                self.idle.buffer = self.config.alert_buffer_len;
            }
            proof {
                assert(self@ == tick_spec(v0).post);
                assert(cell == tick_spec(v0).cell);
            }
            return RenderEffect { cell, pos: self.cat, moved: false };
        }
        self.idle.frame = 0;
        if self.idle.buffer > 0 {
            self.idle.buffer = self.idle.buffer - 1;
            let req = self.sprites.alert.clone();
            let c = self.set_sprite(&req);
            proof {
                assert(self@ == tick_spec(v0).post);
            }
            return RenderEffect { cell: Some(c), pos: self.cat, moved: false };
        }
        let ghost v2 = self@;
        proof {
            assert(v2 == (StateView {
                idle: IdleState { frame: 0, buffer: v0.idle.buffer },
                ..v1
            }));
        }
        let dir = compass_direction(dx, dy, s);
        proof {
            // Far from the pointer, some threshold is always crossed: the
            // idle fallback of the compass lookup is unreachable here.
            lemma_compass_total(dx as int, dy as int, s as int);
            assert(dir is Some);
        }
        let req = self.get_compass_sprites(dir);
        proof {
            assert(req@.wf());
        }
        let c = self.set_sprite(&req);
        let blocked = match &self.animation.sprite {
            Sprite::Animated(a) => !a.is_infinite(),
            Sprite::Static(_) => false,
        };
        if blocked {
            proof {
                assert(self@ == tick_spec(v0).post);
            }
            return RenderEffect { cell: Some(c), pos: self.cat, moved: false };
        }
        proof {
            assert(-2_000_000_000 <= dx * spd <= 2_000_000_000) by (nonlinear_arith)
                requires -2_000_000 <= dx as int <= 2_000_000, 1 <= spd as int <= 1_000;
            assert(-2_000_000_000 <= dy * spd <= 2_000_000_000) by (nonlinear_arith)
                requires -2_000_000 <= dy as int <= 2_000_000, 1 <= spd as int <= 1_000;
            assert((dx * spd) * (dx * spd) <= 4_000_000_000_000 * s) by (nonlinear_arith)
                requires
                    0 <= (dx as int) * (dx as int) <= 4_000_000_000_000,
                    0 <= (spd as int) * (spd as int) <= s as int;
            assert((dy * spd) * (dy * spd) <= 4_000_000_000_000 * s) by (nonlinear_arith)
                requires
                    0 <= (dy as int) * (dy as int) <= 4_000_000_000_000,
                    0 <= (spd as int) * (spd as int) <= s as int;
            lemma_step_within(v0.cat.0 as int, v0.mouse.0 as int, spd as int, s as int);
            lemma_step_within(v0.cat.1 as int, v0.mouse.1 as int, spd as int, s as int);
        }
        let sx = round_div_sqrt(dx * spd, s);
        let sy = round_div_sqrt(dy * spd, s);
        let nx64: i64 = self.cat.0 as i64 - sx;
        let ny64: i64 = self.cat.1 as i64 - sy;
        let nx: i32 = nx64 as i32;
        let ny: i32 = ny64 as i32;
        self.move_to(nx, ny);
        proof {
            assert(self@ == tick_spec(v0).post);
        }
        RenderEffect { cell: Some(c), pos: self.cat, moved: true }
    }
}

} // verus!
