//! Sprite data: a frame is a cell of a fixed sprite sheet, a sprite is either
//! one static frame or an animation over an ordered list of frames, and the
//! roster gathers every sprite the pet can show.

use vstd::prelude::*;

verus! {

/// A pair of pixel or cell coordinates `(x, y)`.
#[derive(Clone, Copy, PartialEq, Eq, Structural, Debug)]
pub struct Point(pub i32, pub i32);

/// How long an animation plays: forever, or for a fixed budget of frame
/// advances after which it must yield.
#[derive(Clone, Copy, PartialEq, Eq, Structural, Debug)]
pub enum AnimationDuration {
    Infinite,
    Definite(u32),
}

/// A looping or fixed-length animation. `speed` controls the playback rate:
/// one displayed-frame advance happens every `100 / speed` engine ticks.
#[derive(Debug)]
pub struct Animation {
    pub states: Vec<Point>,
    pub duration: AnimationDuration,
    pub speed: u32,
}

/// Mathematical model of an [`Animation`].
#[verifier::ext_equal]
pub struct AnimationView {
    pub states: Seq<Point>,
    pub duration: AnimationDuration,
    pub speed: u32,
}

impl View for Animation {
    type V = AnimationView;

    open spec fn view(&self) -> AnimationView {
        AnimationView { states: self.states@, duration: self.duration, speed: self.speed }
    }
}

impl AnimationView {
    /// A playable animation: at least one frame, and a rate that divides the
    /// 100-tick base period into a positive step. A definite budget is at
    /// least one advance, so a freshly adopted animation is never already
    /// complete.
    pub open spec fn wf(self) -> bool {
        &&& self.states.len() >= 1
        &&& 1 <= self.speed <= 100
        &&& match self.duration {
            AnimationDuration::Infinite => true,
            AnimationDuration::Definite(n) => n >= 1,
        }
    }

    /// The frame index shown while the advance counter reads `frame`:
    /// `floor(frame / (100 / speed))`, wrapped around the frame list.
    pub open spec fn frame_index(self, frame: u32) -> int {
        ((frame as int) / (100int / (self.speed as int))) % (self.states.len() as int)
    }

    /// The cell displayed at advance counter `frame`.
    pub open spec fn frame_cell(self, frame: u32) -> Point {
        self.states[self.frame_index(frame)]
    }
}

/// The displayed index never leaves the frame list.
pub proof fn lemma_frame_index_in_range(a: AnimationView, frame: u32)
    requires
        a.wf(),
    ensures
        0 <= a.frame_index(frame) < a.states.len(),
{
    let step = 100int / (a.speed as int);
    vstd::arithmetic::div_mod::lemma_div_by_self(a.speed as int);
    vstd::arithmetic::div_mod::lemma_div_is_ordered(a.speed as int, 100, a.speed as int);
    assert(step >= 1);
    let q = (frame as int) / step;
    assert(q >= 0) by (nonlinear_arith)
        requires step >= 1, frame as int >= 0, q == (frame as int) / step;
    assert(0 <= q % (a.states.len() as int) < a.states.len());
}

impl Animation {
    /// Whether this animation loops forever (and so may be replaced at any
    /// request), as opposed to a definite animation that must finish.
    pub fn is_infinite(&self) -> (r: bool)
        ensures
            r == (self.duration is Infinite),
    {
        match self.duration {
            AnimationDuration::Infinite => true,
            _ => false,
        }
    }
}

impl Clone for Animation {
    fn clone(&self) -> (r: Self)
        ensures
            r@ == self@,
    {
        let states = self.states.clone();
        proof {
            assert(states@ =~= self.states@);
        }
        Animation { states, duration: self.duration, speed: self.speed }
    }
}

/// What the pet can show: one fixed cell, or an animation.
#[derive(Debug)]
pub enum Sprite {
    Static(Point),
    Animated(Animation),
}

/// Mathematical model of a [`Sprite`].
#[verifier::ext_equal]
pub enum SpriteView {
    Static(Point),
    Animated(AnimationView),
}

impl View for Sprite {
    type V = SpriteView;

    open spec fn view(&self) -> SpriteView {
        match self {
            Sprite::Static(p) => SpriteView::Static(*p),
            Sprite::Animated(a) => SpriteView::Animated(a@),
        }
    }
}

impl SpriteView {
    /// Every animated sprite in play must be playable.
    pub open spec fn wf(self) -> bool {
        match self {
            SpriteView::Static(_) => true,
            SpriteView::Animated(a) => a.wf(),
        }
    }

    /// A definite animation: it must run to completion before any other
    /// sprite is accepted, and it blocks travel while it plays.
    pub open spec fn is_definite(self) -> bool {
        match self {
            SpriteView::Animated(a) => a.duration is Definite,
            SpriteView::Static(_) => false,
        }
    }
}

impl Sprite {
    /// Runtime check of the playability invariant, for constructors that
    /// take a roster from an unverified host.
    pub fn check_wf(&self) -> (b: bool)
        ensures
            b == self@.wf(),
    {
        match self {
            Sprite::Static(_) => true,
            Sprite::Animated(a) => {
                let duration_ok = match a.duration {
                    AnimationDuration::Infinite => true,
                    AnimationDuration::Definite(n) => n >= 1,
                };
                a.states.len() >= 1 && 1 <= a.speed && a.speed <= 100 && duration_ok
            },
        }
    }
}

impl Clone for Sprite {
    fn clone(&self) -> (r: Self)
        ensures
            r@ == self@,
    {
        match self {
            Sprite::Static(p) => Sprite::Static(*p),
            Sprite::Animated(a) => Sprite::Animated(a.clone()),
        }
    }
}

/// The four walk (or scratch) cycles keyed by cardinal direction.
pub struct CardinalSprites {
    pub n: Sprite,
    pub e: Sprite,
    pub s: Sprite,
    pub w: Sprite,
}

#[verifier::ext_equal]
pub struct CardinalSpritesView {
    pub n: SpriteView,
    pub e: SpriteView,
    pub s: SpriteView,
    pub w: SpriteView,
}

impl View for CardinalSprites {
    type V = CardinalSpritesView;

    open spec fn view(&self) -> CardinalSpritesView {
        CardinalSpritesView { n: self.n@, e: self.e@, s: self.s@, w: self.w@ }
    }
}

impl CardinalSpritesView {
    pub open spec fn wf(self) -> bool {
        self.n.wf() && self.e.wf() && self.s.wf() && self.w.wf()
    }
}

/// The four walk cycles keyed by ordinal direction.
pub struct OrdinalSprites {
    pub ne: Sprite,
    pub se: Sprite,
    pub sw: Sprite,
    pub nw: Sprite,
}

#[verifier::ext_equal]
pub struct OrdinalSpritesView {
    pub ne: SpriteView,
    pub se: SpriteView,
    pub sw: SpriteView,
    pub nw: SpriteView,
}

impl View for OrdinalSprites {
    type V = OrdinalSpritesView;

    open spec fn view(&self) -> OrdinalSpritesView {
        OrdinalSpritesView { ne: self.ne@, se: self.se@, sw: self.sw@, nw: self.nw@ }
    }
}

impl OrdinalSpritesView {
    pub open spec fn wf(self) -> bool {
        self.ne.wf() && self.se.wf() && self.sw.wf() && self.nw.wf()
    }
}

/// Scratching sprites: a generic one, and one per screen edge.
pub struct ScratchSprites {
    pub cat: Sprite,
    pub cardinal: CardinalSprites,
}

#[verifier::ext_equal]
pub struct ScratchSpritesView {
    pub cat: SpriteView,
    pub cardinal: CardinalSpritesView,
}

impl View for ScratchSprites {
    type V = ScratchSpritesView;

    open spec fn view(&self) -> ScratchSpritesView {
        ScratchSpritesView { cat: self.cat@, cardinal: self.cardinal@ }
    }
}

impl ScratchSpritesView {
    pub open spec fn wf(self) -> bool {
        self.cat.wf() && self.cardinal.wf()
    }
}

/// The full immutable roster of sprites for one pet: idle, alert, tired and
/// sleeping poses, the eight walk cycles, and the scratch animations.
pub struct ManzarSprites {
    pub idle: Sprite,
    pub alert: Sprite,
    pub tired: Sprite,
    pub sleeping: Sprite,
    pub cardinal: CardinalSprites,
    pub ordinal: OrdinalSprites,
    pub scratch: ScratchSprites,
}

#[verifier::ext_equal]
pub struct ManzarSpritesView {
    pub idle: SpriteView,
    pub alert: SpriteView,
    pub tired: SpriteView,
    pub sleeping: SpriteView,
    pub cardinal: CardinalSpritesView,
    pub ordinal: OrdinalSpritesView,
    pub scratch: ScratchSpritesView,
}

impl View for ManzarSprites {
    type V = ManzarSpritesView;

    open spec fn view(&self) -> ManzarSpritesView {
        ManzarSpritesView {
            idle: self.idle@,
            alert: self.alert@,
            tired: self.tired@,
            sleeping: self.sleeping@,
            cardinal: self.cardinal@,
            ordinal: self.ordinal@,
            scratch: self.scratch@,
        }
    }
}

impl ManzarSpritesView {
    pub open spec fn wf(self) -> bool {
        &&& self.idle.wf()
        &&& self.alert.wf()
        &&& self.tired.wf()
        &&& self.sleeping.wf()
        &&& self.cardinal.wf()
        &&& self.ordinal.wf()
        &&& self.scratch.wf()
    }
}

/// A two-frame animation, as every walk cycle of the default sprite sheet is.
fn anim2(a: Point, b: Point, duration: AnimationDuration, speed: u32) -> (r: Sprite)
    ensures
        r@ == SpriteView::Animated(
            AnimationView { states: seq![a, b], duration, speed },
        ),
{
    let states = vec![a, b];
    proof {
        assert(states@ =~= seq![a, b]);
    }
    Sprite::Animated(Animation { states, duration, speed })
}

/// The cell sequences of the default sprite sheet ("kitty"), as spec
/// values; see [`ManzarSprites::kitty`].
pub open spec fn kitty_spec() -> ManzarSpritesView {
    let walk = |a: Point, b: Point| SpriteView::Animated(
        AnimationView {
            states: seq![a, b],
            duration: AnimationDuration::Infinite,
            speed: 100,
        },
    );
    let scratch = |a: Point, b: Point| SpriteView::Animated(
        AnimationView {
            states: seq![a, b],
            duration: AnimationDuration::Definite(20),
            speed: 100,
        },
    );
    ManzarSpritesView {
        idle: SpriteView::Static(Point(-3i32, -3i32)),
        alert: SpriteView::Static(Point(-7i32, -3i32)),
        tired: SpriteView::Static(Point(-3i32, -2i32)),
        sleeping: SpriteView::Animated(
            AnimationView {
                states: seq![Point(-2i32, 0i32), Point(-2i32, -1i32)],
                duration: AnimationDuration::Infinite,
                speed: 25,
            },
        ),
        cardinal: CardinalSpritesView {
            n: walk(Point(-1i32, -2i32), Point(-1i32, -3i32)),
            e: walk(Point(-3i32, 0i32), Point(-3i32, -1i32)),
            s: walk(Point(-6i32, -3i32), Point(-7i32, -2i32)),
            w: walk(Point(-4i32, -2i32), Point(-4i32, -3i32)),
        },
        ordinal: OrdinalSpritesView {
            ne: walk(Point(0i32, -2i32), Point(0i32, -3i32)),
            se: walk(Point(-5i32, -1i32), Point(-5i32, -2i32)),
            sw: walk(Point(-5i32, -3i32), Point(-6i32, -1i32)),
            nw: walk(Point(-1i32, 0i32), Point(-1i32, -1i32)),
        },
        scratch: ScratchSpritesView {
            cat: SpriteView::Animated(
                AnimationView {
                    states: seq![Point(-5i32, 0i32), Point(-6i32, 0i32), Point(-7i32, 0i32)],
                    duration: AnimationDuration::Definite(20),
                    speed: 100,
                },
            ),
            cardinal: CardinalSpritesView {
                n: scratch(Point(0i32, 0i32), Point(0i32, -1i32)),
                e: scratch(Point(-2i32, -2i32), Point(-2i32, -3i32)),
                w: scratch(Point(-4i32, 0i32), Point(-4i32, -1i32)),
                s: scratch(Point(-7i32, -1i32), Point(-6i32, -2i32)),
            },
        },
    }
}

impl ManzarSprites {
    /// The default roster, cut from a fixed 32-by-32-cell sprite sheet:
    /// static idle, alert and tired poses, a slow two-frame sleeping loop,
    /// eight two-frame walk cycles, and definite 20-advance scratch
    /// animations (a generic one and one per screen edge).
    pub fn kitty() -> (r: ManzarSprites)
        ensures
            r@ == kitty_spec(),
            r@.wf(),
    {
        let inf = AnimationDuration::Infinite;
        let def = AnimationDuration::Definite(20);
        let cardinal = CardinalSprites {
            n: anim2(Point(-1i32, -2i32), Point(-1i32, -3i32), inf, 100),
            e: anim2(Point(-3i32, 0i32), Point(-3i32, -1i32), inf, 100),
            s: anim2(Point(-6i32, -3i32), Point(-7i32, -2i32), inf, 100),
            w: anim2(Point(-4i32, -2i32), Point(-4i32, -3i32), inf, 100),
        };
        let ordinal = OrdinalSprites {
            ne: anim2(Point(0i32, -2i32), Point(0i32, -3i32), inf, 100),
            se: anim2(Point(-5i32, -1i32), Point(-5i32, -2i32), inf, 100),
            sw: anim2(Point(-5i32, -3i32), Point(-6i32, -1i32), inf, 100),
            nw: anim2(Point(-1i32, 0i32), Point(-1i32, -1i32), inf, 100),
        };
        let scratch_states = vec![Point(-5i32, 0i32), Point(-6i32, 0i32), Point(-7i32, 0i32)];
        proof {
            assert(scratch_states@ =~= seq![Point(-5i32, 0i32), Point(-6i32, 0i32), Point(-7i32, 0i32)]);
        }
        let scratch = ScratchSprites {
            cat: Sprite::Animated(Animation { states: scratch_states, duration: def, speed: 100 }),
            cardinal: CardinalSprites {
                n: anim2(Point(0i32, 0i32), Point(0i32, -1i32), def, 100),
                e: anim2(Point(-2i32, -2i32), Point(-2i32, -3i32), def, 100),
                w: anim2(Point(-4i32, 0i32), Point(-4i32, -1i32), def, 100),
                s: anim2(Point(-7i32, -1i32), Point(-6i32, -2i32), def, 100),
            },
        };
        let r = ManzarSprites {
            idle: Sprite::Static(Point(-3i32, -3i32)),
            alert: Sprite::Static(Point(-7i32, -3i32)),
            tired: Sprite::Static(Point(-3i32, -2i32)),
            sleeping: anim2(Point(-2i32, 0i32), Point(-2i32, -1i32), inf, 25),
            cardinal,
            ordinal,
            scratch,
        };
        proof {
            assert(r@ =~~= kitty_spec());
        }
        r
    }
}

impl CardinalSprites {
    /// Runtime check that all four sprites are playable.
    pub fn check_wf(&self) -> (b: bool)
        ensures
            b == self@.wf(),
    {
        self.n.check_wf() && self.e.check_wf() && self.s.check_wf() && self.w.check_wf()
    }
}

impl OrdinalSprites {
    /// Runtime check that all four sprites are playable.
    pub fn check_wf(&self) -> (b: bool)
        ensures
            b == self@.wf(),
    {
        self.ne.check_wf() && self.se.check_wf() && self.sw.check_wf() && self.nw.check_wf()
    }
}

impl ScratchSprites {
    /// Runtime check that every scratch sprite is playable.
    pub fn check_wf(&self) -> (b: bool)
        ensures
            b == self@.wf(),
    {
        self.cat.check_wf() && self.cardinal.check_wf()
    }
}

impl ManzarSprites {
    /// Runtime check that the whole roster is playable, for constructors
    /// that take it from an unverified host.
    pub fn check_wf(&self) -> (b: bool)
        ensures
            b == self@.wf(),
    {
        self.idle.check_wf() && self.alert.check_wf() && self.tired.check_wf()
            && self.sleeping.check_wf() && self.cardinal.check_wf() && self.ordinal.check_wf()
            && self.scratch.check_wf()
    }
}

} // verus!
