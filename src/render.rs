//! The draw systems. Each reads the world and yields the drawing calls it
//! makes, in order, for a drawing surface to carry out.
use vstd::prelude::*;
use crate::components::{Base2D, Color, Health, UIBarStyle};
use crate::ecs::{join_keys, keys, lemma_join_exact, EntityID};
use crate::geometry::{all_anchors, Anchor, BoundingBox2D, Rect, Vector2};
use crate::world::World;

verus! {

/// Line width of every outline.
pub const OUTLINE_WIDTH: i32 = 1;

/// Radius of the marker drawn at each anchor of a box.
pub const MARKER_RADIUS: i32 = 2;

/// Size of a health bar.
pub const BAR_WIDTH: i64 = 80;

pub const BAR_HEIGHT: i64 = 10;

/// How far above the top edge of its entity a health bar is centered.
pub const BAR_OFFSET: i64 = 20;

/// One call on a drawing surface.
#[derive(Clone, Copy, Debug, PartialEq, Eq, Structural)]
pub enum DrawCommand {
    RectangleLines { rect: Rect, line_width: i32, color: Color },
    FilledRectangle { rect: Rect, color: Color },
    Circle { center: Vector2, radius: i32, color: Color },
}

/// Why a draw system could not draw.
#[derive(Clone, Copy, Debug, PartialEq, Eq, Structural)]
pub enum DrawError {
    /// The world asks for a drawing that is not implemented (a boss-style
    /// health bar).
    Unimplemented,
}

/// The marker at one anchor of a box.
pub open spec fn anchor_marker(b: BoundingBox2D, a: Anchor) -> DrawCommand {
    DrawCommand::Circle { center: b.anchor_vec(a), radius: MARKER_RADIUS, color: Color::red_spec() }
}

/// The outline of `b`, then a marker at each of its anchors.
pub open spec fn base_commands(b: Base2D) -> Seq<DrawCommand> {
    seq![DrawCommand::RectangleLines { rect: b.bounds.rect_spec(), line_width: OUTLINE_WIDTH, color: b.tint }]
        + all_anchors().map_values(|a: Anchor| anchor_marker(b.bounds, a))
}

/// The drawing of the first `n` bases, in order.
pub open spec fn bases_commands(s: Seq<(EntityID, Base2D)>, n: int) -> Seq<DrawCommand>
    decreases n,
{
    if n <= 0 {
        Seq::empty()
    } else {
        bases_commands(s, n - 1) + base_commands(s[n - 1].1)
    }
}

/// The center of the health bar of an entity with bounds `b`: straight above
/// the middle of its top edge.
pub open spec fn bar_center(b: BoundingBox2D) -> (int, int) {
    (b.anchor_point(Anchor::TopCenter).0, b.anchor_point(Anchor::TopCenter).1 - BAR_OFFSET)
}

/// The outline of the health bar of an entity with bounds `b`.
pub open spec fn bar_rect(b: BoundingBox2D) -> Rect {
    Rect {
        x: (bar_center(b).0 - BAR_WIDTH / 2) as i64,
        y: (bar_center(b).1 - BAR_HEIGHT / 2) as i64,
        width: BAR_WIDTH,
        height: BAR_HEIGHT,
    }
}

/// The filled share of a bar: current over maximum health, rounded down;
/// none where the maximum is zero.
pub open spec fn fill_width(h: Health) -> int {
    if h.maximum() == 0 {
        0
    } else {
        (BAR_WIDTH * h.current()) / (h.maximum() as int)
    }
}

/// An inline health bar: its filled share from the left, then its outline.
pub open spec fn bar_commands(b: BoundingBox2D, h: Health) -> Seq<DrawCommand> {
    seq![
        DrawCommand::FilledRectangle {
            rect: Rect { width: fill_width(h) as i64, ..bar_rect(b) },
            color: Color::green_spec(),
        },
        DrawCommand::RectangleLines { rect: bar_rect(b), line_width: OUTLINE_WIDTH, color: Color::white_spec() },
    ]
}

/// The health bars of the first `n` joined pairs, in order; an error at the
/// first pair whose bar is boss style.
pub open spec fn health_commands(
    bases: Seq<(EntityID, Base2D)>,
    healths: Seq<(EntityID, Health)>,
    pairs: Seq<(usize, usize)>,
    n: int,
) -> Result<Seq<DrawCommand>, DrawError>
    decreases n,
{
    if n <= 0 {
        Ok(Seq::empty())
    } else {
        match health_commands(bases, healths, pairs, n - 1) {
            Err(e) => Err(e),
            Ok(prev) => {
                let b = bases[pairs[n - 1].0 as int].1;
                let h = healths[pairs[n - 1].1 as int].1;
                match h.style() {
                    UIBarStyle::Hidden => Ok(prev),
                    UIBarStyle::Inline => Ok(prev + bar_commands(b.bounds, h)),
                    UIBarStyle::Boss => Err(DrawError::Unimplemented),
                }
            },
        }
    }
}

/// Once the health bars end in an error, taking more pairs keeps that error.
pub proof fn lemma_health_error_kept(
    bases: Seq<(EntityID, Base2D)>,
    healths: Seq<(EntityID, Health)>,
    pairs: Seq<(usize, usize)>,
    n: int,
    m: int,
)
    requires
        n <= m,
        health_commands(bases, healths, pairs, n) is Err,
    ensures
        health_commands(bases, healths, pairs, m) == health_commands(bases, healths, pairs, n),
    decreases m - n,
{
    if n < m {
        lemma_health_error_kept(bases, healths, pairs, n, m - 1);
    }
}

/// The health bars of the first `n` pairs fail exactly where one of those
/// pairs has a boss-style bar, and then with `Unimplemented`.
pub proof fn lemma_health_error_prefix(
    bases: Seq<(EntityID, Base2D)>,
    healths: Seq<(EntityID, Health)>,
    pairs: Seq<(usize, usize)>,
    n: int,
)
    ensures
        health_commands(bases, healths, pairs, n) is Err <==> exists|t: int|
            0 <= t < n && (#[trigger] healths[pairs[t].1 as int]).1.style() == UIBarStyle::Boss,
        health_commands(bases, healths, pairs, n) is Err ==> health_commands(bases, healths, pairs, n)
            == Err::<Seq<DrawCommand>, DrawError>(DrawError::Unimplemented),
    decreases n,
{
    if n > 0 {
        lemma_health_error_prefix(bases, healths, pairs, n - 1);
        if exists|t: int|
            0 <= t < n && (#[trigger] healths[pairs[t].1 as int]).1.style() == UIBarStyle::Boss {
            let t = choose|t: int|
                0 <= t < n && (#[trigger] healths[pairs[t].1 as int]).1.style() == UIBarStyle::Boss;
            if t < n - 1 {
                assert(health_commands(bases, healths, pairs, n - 1) is Err);
            }
        }
    }
}

/// The drawing of every health bar of `w`.
pub open spec fn health_draw(w: World) -> Result<Seq<DrawCommand>, DrawError> {
    let pairs = join_keys(keys(w.bases()), keys(w.healths()));
    health_commands(w.bases(), w.healths(), pairs, pairs.len() as int)
}

/// Drawing the health bars signals `Unimplemented` if and only if some
/// entity with bounds has a boss-style bar (its first health), and fails in
/// no other way.
pub proof fn lemma_boss_bar_unimplemented(w: World)
    ensures
        health_draw(w) is Err <==> exists|t: int|
            0 <= t < join_keys(keys(w.bases()), keys(w.healths())).len() && (#[trigger] w.healths()[join_keys(
                keys(w.bases()),
                keys(w.healths()),
            )[t].1 as int]).1.style() == UIBarStyle::Boss,
        health_draw(w) is Err ==> health_draw(w) == Err::<Seq<DrawCommand>, DrawError>(
            DrawError::Unimplemented,
        ),
{
    let pairs = join_keys(keys(w.bases()), keys(w.healths()));
    lemma_health_error_prefix(w.bases(), w.healths(), pairs, pairs.len() as int);
}

impl Base2D {
    /// For each base in order of attachment: its outline in its tint, then a
    /// marker at each anchor.
    pub fn draw_system(world: &World) -> (r: Vec<DrawCommand>)
        requires
            world.wf(),
        ensures
            r@ == bases_commands(world.bases(), world.bases().len() as int),
    {
        let bases = world.base_components();
        let mut r: Vec<DrawCommand> = Vec::new();
        let mut i: usize = 0;
        while i < bases.len()
            invariant
                world.wf(),
                bases@ == world.bases(),
                i <= bases@.len(),
                r@ == bases_commands(bases@, i as int),
            decreases bases@.len() - i,
        {
            let b = bases.component_at(i);
            assert(b.bounds.wf());
            r.push(
                DrawCommand::RectangleLines {
                    rect: Rect::from(b.bounds),
                    line_width: OUTLINE_WIDTH,
                    color: b.tint,
                },
            );
            let ghost start = r@;
            let anchors = Anchor::values();
            let mut k: usize = 0;
            while k < anchors.len()
                invariant
                    b.bounds.wf(),
                    anchors@ == all_anchors(),
                    k <= anchors@.len(),
                    r@ == start + all_anchors().subrange(0, k as int).map_values(
                        |a: Anchor| anchor_marker(b.bounds, a),
                    ),
                decreases anchors@.len() - k,
            {
                let center = b.bounds.calc(anchors[k]);
                r.push(DrawCommand::Circle { center, radius: MARKER_RADIUS, color: Color::red() });
                k = k + 1;
                proof {
                    assert(all_anchors().subrange(0, k as int) =~= all_anchors().subrange(
                        0,
                        k - 1,
                    ).push(all_anchors()[k - 1]));
                    assert(r@ =~= start + all_anchors().subrange(0, k as int).map_values(
                        |a: Anchor| anchor_marker(b.bounds, a),
                    ));
                }
            }
            proof {
                assert(all_anchors().subrange(0, 9) =~= all_anchors());
                assert(r@ =~= bases_commands(bases@, i as int) + base_commands(bases@[i as int].1));
            }
            i = i + 1;
        }
        r
    }
}

impl Health {
    /// For each base in order of attachment whose entity has a health (its
    /// first one): nothing for a hidden bar, the bar above the entity for an
    /// inline one, and `Unimplemented` for a boss bar, which ends the drawing.
    pub fn draw_system(world: &World) -> (r: Result<Vec<DrawCommand>, DrawError>)
        requires
            world.wf(),
        ensures
            r matches Ok(v) ==> health_draw(*world) == Ok::<Seq<DrawCommand>, DrawError>(v@),
            r matches Err(e) ==> health_draw(*world) == Err::<Seq<DrawCommand>, DrawError>(e),
    {
        let bases = world.base_components();
        let healths = world.health_components();
        let pairs = bases.join(healths);
        proof {
            lemma_join_exact(bases, healths);
        }
        let mut r: Vec<DrawCommand> = Vec::new();
        let mut t: usize = 0;
        while t < pairs.len()
            invariant
                world.wf(),
                bases@ == world.bases(),
                healths@ == world.healths(),
                pairs@ == join_keys(keys(bases@), keys(healths@)),
                forall|u: int|
                    #![trigger pairs@[u]]
                    0 <= u < pairs@.len() ==> pairs@[u].0 < bases@.len() && pairs@[u].1
                        < healths@.len(),
                t <= pairs@.len(),
                health_commands(bases@, healths@, pairs@, t as int) == Ok::<
                    Seq<DrawCommand>,
                    DrawError,
                >(r@),
            decreases pairs@.len() - t,
        {
            let (i, j) = pairs[t];
            let ghost prev = r@;
            let b = bases.component_at(i);
            let h = healths.component_at(j);
            match h.bar_style() {
                UIBarStyle::Hidden => {},
                UIBarStyle::Inline => {
                    assert(b.bounds.wf());
                    let top = b.bounds.calc(Anchor::TopCenter);
                    let cx = top.x;
                    let cy = top.y - BAR_OFFSET;
                    let x = cx - BAR_WIDTH / 2;
                    let y = cy - BAR_HEIGHT / 2;
                    let cur = h.health();
                    let max = h.max_health();
                    let fill: i64 = if max == 0 {
                        0
                    } else {
                        ((BAR_WIDTH as u64 * cur as u64) / max as u64) as i64
                    };
                    r.push(
                        DrawCommand::FilledRectangle {
                            rect: Rect { x, y, width: fill, height: BAR_HEIGHT },
                            color: Color::green(),
                        },
                    );
                    r.push(
                        DrawCommand::RectangleLines {
                            rect: Rect { x, y, width: BAR_WIDTH, height: BAR_HEIGHT },
                            line_width: OUTLINE_WIDTH,
                            color: Color::white(),
                        },
                    );
                    assert(r@ =~= prev + bar_commands(b.bounds, *h));
                },
                UIBarStyle::Boss => {
                    proof {
                        lemma_health_error_kept(
                            bases@,
                            healths@,
                            pairs@,
                            t + 1,
                            pairs@.len() as int,
                        );
                    }
                    return Err(DrawError::Unimplemented);
                },
            }
            t = t + 1;
        }
        Ok(r)
    }
}

/// The draw systems that a frame loop can register; it runs them in the
/// order of registration.
#[derive(Clone, Copy, Debug, PartialEq, Eq, Structural)]
pub enum DrawSystemKind {
    Bases,
    HealthBars,
}

/// What the draw system `kind` yields on `w`.
pub open spec fn system_draw(w: World, kind: DrawSystemKind) -> Result<Seq<DrawCommand>, DrawError> {
    match kind {
        DrawSystemKind::Bases => Ok(bases_commands(w.bases(), w.bases().len() as int)),
        DrawSystemKind::HealthBars => health_draw(w),
    }
}

impl DrawSystemKind {
    /// Runs this draw system on `world`.
    pub fn run(&self, world: &World) -> (r: Result<Vec<DrawCommand>, DrawError>)
        requires
            world.wf(),
        ensures
            r matches Ok(v) ==> system_draw(*world, *self) == Ok::<Seq<DrawCommand>, DrawError>(
                v@,
            ),
            r matches Err(e) ==> system_draw(*world, *self) == Err::<Seq<DrawCommand>, DrawError>(
                e,
            ),
    {
        match self {
            DrawSystemKind::Bases => Ok(Base2D::draw_system(world)),
            DrawSystemKind::HealthBars => Health::draw_system(world),
        }
    }
}

} // verus!
