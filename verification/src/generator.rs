//! The point generator: the chaos game itself.
//!
//! A generator emits a first point, placed by two random coordinates, and
//! then one point for each iteration: the midpoint between the point before
//! it and a randomly chosen corner of the triangle. After the last iteration
//! it is exhausted for good.

use vstd::prelude::*;
use crate::config::Config;
use crate::geometry::{
    lemma_base_triangle_on_screen, lemma_midpoint_between, Point, ScreenDimension, Triangle,
};
use crate::random::{random_u16, random_usize, Draws};

verus! {

/// Where the first point lands for a round of draws.
///
/// The x coordinate is reduced by the number of rows and the y coordinate by
/// the number of columns, so the first point lies in `[0, height) x [0, width)`.
pub open spec fn start_point_spec(screen: ScreenDimension, draws: Draws) -> Point {
    Point { x: (draws.x % screen.height) as u16, y: (draws.y % screen.width) as u16 }
}

pub fn start_point(screen: &ScreenDimension, draws: &Draws) -> (p: Point)
    requires
        screen.is_valid(),
    ensures
        p == start_point_spec(*screen, *draws),
        p.x < screen.height,
        p.y < screen.width,
{
    Point::new(draws.x % screen.height, draws.y % screen.width)
}

/// The running state of the chaos game.
#[derive(Clone, Copy, Debug)]
pub struct PointGenerator {
    /// The corners to hop toward.
    pub triangle: Triangle,
    /// The screen whose sides bound the first point.
    pub screen: ScreenDimension,
    /// The point emitted last, if any was.
    pub current: Option<Point>,
    /// The iterations that are still to come.
    pub remaining: u32,
}

impl PointGenerator {
    /// The first point can be placed only on a screen with no side of zero.
    pub open spec fn wf(&self) -> bool {
        self.screen.is_valid()
    }

    /// No point is left to emit.
    pub open spec fn exhausted(&self) -> bool {
        self.current is Some && self.remaining == 0
    }

    /// How many points are still to come.
    pub open spec fn pending(&self) -> nat {
        if self.current is Some {
            self.remaining as nat
        } else {
            self.remaining as nat + 1
        }
    }

    /// The point that comes next for a round of draws, unless the generator
    /// is exhausted.
    pub open spec fn next_point_spec(&self, draws: Draws) -> Point {
        match self.current {
            None => start_point_spec(self.screen, draws),
            Some(p) => p.midpoint_spec(self.triangle.vertex_spec(draws.vertex)),
        }
    }

    /// The generator after it was asked for a point with a round of draws.
    pub open spec fn after(&self, draws: Draws) -> PointGenerator {
        if self.exhausted() {
            *self
        } else if self.current is None {
            PointGenerator { current: Some(self.next_point_spec(draws)), ..*self }
        } else {
            PointGenerator {
                current: Some(self.next_point_spec(draws)),
                remaining: (self.remaining - 1) as u32,
                ..*self
            }
        }
    }

    /// The points that come out when the generator is asked once for each
    /// round of `draws`, in order.
    pub open spec fn emitted(&self, draws: Seq<Draws>) -> Seq<Point>
        decreases draws.len(),
    {
        if draws.len() == 0 || self.exhausted() {
            Seq::empty()
        } else {
            seq![self.next_point_spec(draws[0])] + self.after(draws[0]).emitted(draws.drop_first())
        }
    }

    /// The generator after it was asked once for each round of `draws`.
    pub open spec fn after_all(&self, draws: Seq<Draws>) -> PointGenerator
        decreases draws.len(),
    {
        if draws.len() == 0 {
            *self
        } else {
            self.after(draws[0]).after_all(draws.drop_first())
        }
    }

    /// A generator that has emitted nothing yet and will run for
    /// `config.max_iterations` iterations on `triangle`.
    pub fn new(triangle: Triangle, config: &Config) -> (generator: PointGenerator)
        requires
            config.screen_dim.is_valid(),
        ensures
            generator.wf(),
            generator.triangle == triangle,
            generator.screen == config.screen_dim,
            generator.current is None,
            generator.remaining == config.max_iterations,
            generator.pending() == config.max_iterations + 1,
    {
        PointGenerator {
            triangle,
            screen: config.screen_dim,
            current: None,
            remaining: config.max_iterations,
        }
    }

    /// Whether no point is left to emit.
    pub fn is_exhausted(&self) -> (done: bool)
        ensures
            done == self.exhausted(),
    {
        self.current.is_some() && self.remaining == 0
    }

    /// Emits the next point for the given round of draws: the first point is
    /// placed by `draws.x` and `draws.y`, every later one hops toward the
    /// corner that `draws.vertex` selects. An exhausted generator emits
    /// nothing and stays as it is.
    pub fn next_with(&mut self, draws: &Draws) -> (point: Option<Point>)
        requires
            old(self).wf(),
        ensures
            *final(self) == old(self).after(*draws),
            point is Some <==> !old(self).exhausted(),
            !old(self).exhausted() ==> point == Some(old(self).next_point_spec(*draws)),
            final(self).wf(),
            final(self).pending() == if old(self).exhausted() {
                0
            } else {
                old(self).pending() - 1
            },
    {
        match self.current {
            None => {
                let p = start_point(&self.screen, draws);
                self.current = Some(p);
                Some(p)
            },
            Some(prev) => {
                if self.remaining == 0 {
                    None
                } else {
                    let p = prev.midpoint(self.triangle.vertex(draws.vertex));
                    self.current = Some(p);
                    self.remaining = self.remaining - 1;
                    Some(p)
                }
            },
        }
    }

    /// Takes from the random source what the next point needs: two
    /// coordinates if it is the first, a corner if it is a later one, and
    /// nothing if the generator is exhausted. The fields that were not drawn
    /// are zero.
    pub(crate) fn fresh_draws(&self) -> (draws: Draws)
        ensures
            draws.color == 0,
            self.current is Some ==> draws.x == 0 && draws.y == 0,
            self.current is None || self.remaining == 0 ==> draws.vertex == 0,
    {
        let mut draws = Draws::new(0, 0, 0, 0);
        if self.current.is_none() {
            draws.x = random_u16();
            draws.y = random_u16();
        } else if self.remaining > 0 {
            draws.vertex = random_usize();
        }
        draws
    }

    /// Emits the next point with fresh random draws: two coordinates for the
    /// first point, one corner for every later one. Whatever was drawn, the
    /// outcome is that of `next_with` for some round of draws.
    pub fn next_point(&mut self) -> (point: Option<Point>)
        requires
            old(self).wf(),
        ensures
            exists|draws: Draws|
                {
                    &&& *final(self) == #[trigger] old(self).after(draws)
                    &&& !old(self).exhausted() ==> point == Some(old(self).next_point_spec(draws))
                },
            point is Some <==> !old(self).exhausted(),
            old(self).exhausted() ==> *final(self) == *old(self),
            old(self).current is None ==> point is Some && point->0.x < old(self).screen.height
                && point->0.y < old(self).screen.width,
            old(self).current is Some && !old(self).exhausted() ==> exists|i: int|
                0 <= i < 3 && point == Some(
                    old(self).current->0.midpoint_spec(#[trigger] old(self).triangle@[i]),
                ),
            final(self).wf(),
            final(self).pending() == if old(self).exhausted() {
                0
            } else {
                old(self).pending() - 1
            },
    {
        let draws = self.fresh_draws();
        let point = self.next_with(&draws);
        assert(*self == old(self).after(draws));
        assert(old(self).triangle.vertex_spec(draws.vertex) == old(self).triangle@[(draws.vertex
            % 3) as int]);
        point
    }

    /// Asks the generator once for each round of `draws` and collects what it
    /// emits. It stops emitting when it is exhausted, however many rounds are
    /// left.
    pub fn collect_with(&mut self, draws: &Vec<Draws>) -> (points: Vec<Point>)
        requires
            old(self).wf(),
        ensures
            points@ == old(self).emitted(draws@),
            *final(self) == old(self).after_all(draws@),
            final(self).wf(),
    {
        let mut points: Vec<Point> = Vec::new();
        let mut i: usize = 0;
        assert(draws@.skip(0) =~= draws@);
        assert(Seq::<Point>::empty() + self.emitted(draws@) =~= self.emitted(draws@));
        while i < draws.len()
            invariant
                i <= draws.len(),
                self.wf(),
                old(self).emitted(draws@) == points@ + self.emitted(draws@.skip(i as int)),
                old(self).after_all(draws@) == self.after_all(draws@.skip(i as int)),
            decreases draws.len() - i,
        {
            let ghost before = *self;
            let ghost rest = draws@.skip(i as int);
            assert(rest.len() > 0 && rest[0] == draws@[i as int]);
            assert(rest.drop_first() =~= draws@.skip(i + 1));
            match self.next_with(&draws[i]) {
                Some(p) => {
                    points.push(p);
                    assert(points@ + self.emitted(draws@.skip(i + 1)) =~= points@.drop_last()
                        + before.emitted(rest));
                },
                None => {
                    proof {
                        lemma_exhausted_emits_nothing(before, rest);
                        lemma_exhausted_emits_nothing(before, draws@.skip(i + 1));
                    }
                },
            }
            i = i + 1;
        }
        assert(draws@.skip(i as int).len() == 0);
        assert(points@ + Seq::<Point>::empty() =~= points@);
        points
    }
}

/// An exhausted generator emits nothing, whatever it is asked with, and does
/// not change.
pub proof fn lemma_exhausted_emits_nothing(generator: PointGenerator, draws: Seq<Draws>)
    requires
        generator.exhausted(),
    ensures
        generator.emitted(draws) == Seq::<Point>::empty(),
        generator.after_all(draws) == generator,
    decreases draws.len(),
{
    if draws.len() > 0 {
        lemma_exhausted_emits_nothing(generator, draws.drop_first());
    }
}

/// A generator emits one point each time it is asked, until none is pending:
/// asked `n` times, it emits `n` points or all that were pending, whichever
/// is less, and that many fewer are pending afterwards.
pub proof fn lemma_emitted_len(generator: PointGenerator, draws: Seq<Draws>)
    ensures
        generator.emitted(draws).len() == if draws.len() <= generator.pending() {
            draws.len()
        } else {
            generator.pending()
        },
        generator.after_all(draws).pending() == generator.pending() - generator.emitted(
            draws,
        ).len(),
    decreases draws.len(),
{
    if draws.len() == 0 {
    } else if generator.exhausted() {
        lemma_exhausted_emits_nothing(generator, draws);
    } else {
        lemma_emitted_len(generator.after(draws[0]), draws.drop_first());
    }
}

/// A generator that has emitted nothing yet and is asked often enough emits
/// exactly one point more than it has iterations, and is exhausted then.
pub proof fn lemma_emits_iterations_plus_one(generator: PointGenerator, draws: Seq<Draws>)
    requires
        generator.current is None,
        draws.len() > generator.remaining,
    ensures
        generator.emitted(draws).len() == generator.remaining + 1,
        generator.after_all(draws).exhausted(),
{
    lemma_emitted_len(generator, draws);
}

/// No emitted point leaves a box that holds the triangle and the first point
/// to come: the point emitted last if there is one, else the point that the
/// first round of draws places.
pub proof fn lemma_emitted_within(generator: PointGenerator, draws: Seq<Draws>, bound: Point)
    requires
        generator.triangle.within(bound),
        match generator.current {
            Some(p) => p.within(bound),
            None => draws.len() > 0 ==> start_point_spec(generator.screen, draws[0]).within(bound),
        },
    ensures
        forall|i: int|
            0 <= i < generator.emitted(draws).len() ==> (#[trigger] generator.emitted(
                draws,
            )[i]).within(bound),
    decreases draws.len(),
{
    if draws.len() > 0 && !generator.exhausted() {
        let first = generator.next_point_spec(draws[0]);
        let later = generator.after(draws[0]);
        let rest = draws.drop_first();
        if let Some(p) = generator.current {
            let corner = generator.triangle.vertex_spec(draws[0].vertex);
            assert(corner == generator.triangle@[(draws[0].vertex % 3) as int]);
            lemma_midpoint_between(p, corner);
        }
        assert(first.within(bound));
        lemma_emitted_within(later, rest, bound);
        assert forall|i: int| 0 <= i < generator.emitted(draws).len() implies (
        #[trigger] generator.emitted(draws)[i]).within(bound) by {
            if i > 0 {
                assert(generator.emitted(draws)[i] == later.emitted(rest)[i - 1]);
            }
        }
    }
}

/// On the triangle that spans its screen, a generator whose first point lies
/// on the screen keeps every point on the screen: each x in `[0, width]` and
/// each y in `[0, height]`.
pub proof fn lemma_points_stay_on_screen(generator: PointGenerator, draws: Seq<Draws>)
    requires
        generator.triangle.spans(generator.screen),
        match generator.current {
            Some(p) => p.within(generator.screen.corner()),
            None => draws.len() > 0 ==> start_point_spec(generator.screen, draws[0]).within(
                generator.screen.corner(),
            ),
        },
    ensures
        forall|i: int|
            0 <= i < generator.emitted(draws).len() ==> {
                &&& 0 <= (#[trigger] generator.emitted(draws)[i]).x <= generator.screen.width
                &&& 0 <= generator.emitted(draws)[i].y <= generator.screen.height
            },
{
    lemma_base_triangle_on_screen(generator.triangle, generator.screen);
    lemma_emitted_within(generator, draws, generator.screen.corner());
    assert forall|i: int| 0 <= i < generator.emitted(draws).len() implies {
        &&& 0 <= (#[trigger] generator.emitted(draws)[i]).x <= generator.screen.width
        &&& 0 <= generator.emitted(draws)[i].y <= generator.screen.height
    } by {
        assert(generator.emitted(draws)[i].within(generator.screen.corner()));
    }
}

/// The first point always lies on a screen whose sides differ by at most one
/// cell, whatever is drawn.
pub proof fn lemma_start_on_near_square_screen(screen: ScreenDimension, draws: Draws)
    requires
        screen.is_valid(),
        screen.height <= screen.width + 1,
        screen.width <= screen.height + 1,
    ensures
        start_point_spec(screen, draws).within(screen.corner()),
{
}

/// The points depend on nothing but the triangle's corners, the screen, the
/// state and the draws that are read: two generators that agree in these
/// emit the same points. The colour draws play no part.
pub proof fn lemma_emitted_reproducible(
    a: PointGenerator,
    b: PointGenerator,
    draws_a: Seq<Draws>,
    draws_b: Seq<Draws>,
)
    requires
        a.triangle@ == b.triangle@,
        a.screen == b.screen,
        a.current == b.current,
        a.remaining == b.remaining,
        draws_a.len() == draws_b.len(),
        forall|i: int|
            0 <= i < draws_a.len() ==> {
                &&& (#[trigger] draws_a[i]).x == draws_b[i].x
                &&& draws_a[i].y == draws_b[i].y
                &&& draws_a[i].vertex == draws_b[i].vertex
            },
    ensures
        a.emitted(draws_a) == b.emitted(draws_b),
        a.after_all(draws_a).current == b.after_all(draws_b).current,
        a.after_all(draws_a).remaining == b.after_all(draws_b).remaining,
    decreases draws_a.len(),
{
    if draws_a.len() > 0 {
        assert(draws_a[0].x == draws_b[0].x);
        let rest_a = draws_a.drop_first();
        let rest_b = draws_b.drop_first();
        assert forall|i: int| 0 <= i < rest_a.len() implies {
            &&& (#[trigger] rest_a[i]).x == rest_b[i].x
            &&& rest_a[i].y == rest_b[i].y
            &&& rest_a[i].vertex == rest_b[i].vertex
        } by {
            assert(rest_a[i] == draws_a[i + 1]);
            assert(rest_b[i] == draws_b[i + 1]);
        }
        lemma_emitted_reproducible(a.after(draws_a[0]), b.after(draws_b[0]), rest_a, rest_b);
    }
}

} // verus!
