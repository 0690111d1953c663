//! Animation playback engine: which sprite is currently showing, how its
//! advance counter moves, and the rule that a definite (fixed-budget)
//! animation runs to completion before any other sprite is accepted.
//!
//! The engine's step is the spec function [`engine_step`]: from the current
//! playback state, the roster's idle sprite, and a requested sprite it yields
//! the next playback state, the cell to display, and whether a definite
//! animation just completed (which makes the behavior machine restart its
//! idle ramp).

use vstd::prelude::*;
use crate::arith::inc32;
use crate::sprite::{AnimationDuration, Point, Sprite, SpriteView};

verus! {

/// Mutable playback state: the sprite being shown and its advance counter.
/// The counter is meaningful only while the sprite is animated; it resets to
/// zero whenever a static sprite is adopted.
pub struct AnimationState {
    pub sprite: Sprite,
    pub frame: u32,
}

/// Mathematical model of an [`AnimationState`].
#[verifier::ext_equal]
pub struct AnimationStateView {
    pub sprite: SpriteView,
    pub frame: u32,
}

impl View for AnimationState {
    type V = AnimationStateView;

    open spec fn view(&self) -> AnimationStateView {
        AnimationStateView { sprite: self.sprite@, frame: self.frame }
    }
}

/// The frame-advance budget of a definite animation, `None` for a static
/// sprite or a looping animation.
pub open spec fn definite_budget(s: SpriteView) -> Option<u32> {
    match s {
        SpriteView::Animated(a) => match a.duration {
            AnimationDuration::Definite(n) => Some(n),
            AnimationDuration::Infinite => None,
        },
        SpriteView::Static(_) => None,
    }
}

/// What the engine actually plays when `req` is requested: a definite
/// animation in progress is never replaced, anything else yields to the
/// request.
pub open spec fn engine_target(cur: SpriteView, req: SpriteView) -> SpriteView {
    if cur.is_definite() {
        cur
    } else {
        req
    }
}

/// Whether adopting `target` at advance counter `frame` finds a definite
/// animation whose budget is already spent, so playback must fall back.
pub open spec fn spent(frame: u32, target: SpriteView) -> bool {
    match definite_budget(target) {
        Some(n) => frame >= n,
        None => false,
    }
}

/// The advance counter after a sprite is adopted: a static sprite resets it,
/// an animation advances it by one (wrapping at the top of `u32`).
pub open spec fn adopt_frame(prev: u32, target: SpriteView) -> u32 {
    match target {
        SpriteView::Static(_) => 0u32,
        SpriteView::Animated(_) => inc32(prev),
    }
}

/// The cell displayed once a sprite is adopted at previous counter `prev`.
pub open spec fn adopt_cell(prev: u32, target: SpriteView) -> Point {
    match target {
        SpriteView::Static(p) => p,
        SpriteView::Animated(a) => a.frame_cell(inc32(prev)),
    }
}

/// One engine step, all outputs together.
#[verifier::ext_equal]
pub struct EngineOut {
    /// Playback state after the step.
    pub anim: AnimationStateView,
    /// The cell to display this tick.
    pub cell: Point,
    /// A definite animation just completed; the behavior machine must reset
    /// its idle ramp and tick counter.
    pub completed: bool,
}

/// The apply stage: adopt `target` (already filtered by [`engine_target`]),
/// falling back to `idle` on a fresh counter when a definite budget is
/// already spent.
pub open spec fn engine_apply(a: AnimationStateView, idle: SpriteView, target: SpriteView) -> EngineOut {
    if spent(a.frame, target) {
        EngineOut {
            anim: AnimationStateView { sprite: idle, frame: adopt_frame(0, idle) },
            cell: adopt_cell(0, idle),
            completed: true,
        }
    } else {
        EngineOut {
            anim: AnimationStateView { sprite: target, frame: adopt_frame(a.frame, target) },
            cell: adopt_cell(a.frame, target),
            completed: false,
        }
    }
}

/// One step of the playback engine on request `req`, with `idle` the sprite
/// to fall back to when a definite animation's budget is spent.
pub open spec fn engine_step(a: AnimationStateView, idle: SpriteView, req: SpriteView) -> EngineOut {
    engine_apply(a, idle, engine_target(a.sprite, req))
}

/// Playback state after a whole sequence of requests, one engine step each.
pub open spec fn engine_run(a: AnimationStateView, idle: SpriteView, reqs: Seq<SpriteView>) -> AnimationStateView
    decreases reqs.len(),
{
    if reqs.len() == 0 {
        a
    } else {
        engine_run(engine_step(a, idle, reqs[0]).anim, idle, reqs.drop_first())
    }
}

/// Definite-animation atomicity, first half: while a definite animation's
/// budget is not spent, no sequence of requests — whatever sprites they ask
/// for — changes the playing sprite; each request only advances the counter
/// by one.
pub proof fn lemma_definite_atomic(a: AnimationStateView, idle: SpriteView, reqs: Seq<SpriteView>)
    requires
        definite_budget(a.sprite) is Some,
        a.frame + reqs.len() <= definite_budget(a.sprite)->0,
    ensures
        engine_run(a, idle, reqs).sprite == a.sprite,
        engine_run(a, idle, reqs).frame == a.frame + reqs.len(),
    decreases reqs.len(),
{
    if reqs.len() > 0 {
        let n = definite_budget(a.sprite)->0;
        assert(a.sprite.is_definite());
        assert(!spent(a.frame, a.sprite));
        let a1 = engine_step(a, idle, reqs[0]).anim;
        assert(a1.sprite == a.sprite);
        assert(a1.frame == a.frame + 1);
        lemma_definite_atomic(a1, idle, reqs.drop_first());
    }
}

/// Definite-animation atomicity, second half: once the budget is spent —
/// after exactly as many advances as the budget allows — the very next
/// request, whatever it asks for, makes the engine fall back to the idle
/// sprite on a reset counter and report completion.
pub proof fn lemma_definite_completion(a: AnimationStateView, idle: SpriteView, req: SpriteView)
    requires
        definite_budget(a.sprite) is Some,
        a.frame >= definite_budget(a.sprite)->0,
    ensures
        engine_step(a, idle, req).completed,
        engine_step(a, idle, req).anim.sprite == idle,
        engine_step(a, idle, req).anim.frame == adopt_frame(0, idle),
        idle is Static ==> engine_step(a, idle, req).anim.frame == 0,
{
}

} // verus!
