//! The map assembler: from one master seed and a rectangle to the full
//! static content of the world.
//!
//! Generation runs the phases in a fixed order — sub-seed derivation,
//! ground classification, anchor placement, object selection — and returns
//! the result by value.  It is a pure function of its two inputs: the
//! contracts pin every cell and every placed object to a mathematical
//! function of the seed and the rectangle, so two runs with the same
//! inputs agree bit for bit.

use vstd::prelude::*;
use crate::location::Location;
use crate::noise;
use crate::object::VisibleObject;
use crate::poisson;
use crate::probability::{
    spec_pick_index, spec_prefix_sum, spec_valid_distribution, ProbabilityTable, WEIGHT_ONE,
};
use vstd::pervasive::unreached;
use crate::rectangle::Rectangle;
use crate::rng::{spec_derive, spec_step, spec_step_n, Prng, SeedChain};

verus! {

/// The ground classification threshold on the unit noise scale: a sample
/// strictly above it is soil, anything else grass.
pub const GROUND_THRESHOLD: u32 = 500_000;

/// The smallest tree size.
pub const TREE_SIZE_MIN: u32 = 2;

/// The largest tree size.
pub const TREE_SIZE_MAX: u32 = 5;

/// The radius, in tiles, of the largest possible object footprint: the
/// largest drawable size.  The minimum separation between object anchors
/// is twice this, so no two placed objects can overlap whatever size each
/// is later assigned.
pub const OBJECT_RADIUS: u32 = TREE_SIZE_MAX;

/// How many object anchors placement aims for.
pub const OBJECT_TARGET_COUNT: u32 = 100;

/// The global retry budget of anchor placement.
pub const OBJECT_RETRY_BUDGET: u32 = 400;

/// How many candidate draws placement consumes at most: one per accepted
/// anchor beyond the seeded centre, plus one per spent retry.
pub const OBJECT_DRAW_COUNT: u32 = OBJECT_TARGET_COUNT - 1 + OBJECT_RETRY_BUDGET;

/// The probability weight of a rock at an anchor.
pub const ROCK_WEIGHT: u32 = 200_000;

/// The probability weight of a tree at an anchor.
pub const TREE_WEIGHT: u32 = 150_000;

/// The probability weight of an empty anchor.
pub const EMPTY_WEIGHT: u32 = 650_000;

/// The draw order of ground tiles.
pub const GROUND_Z_INDEX: u16 = 0;

/// The draw order of placed objects: above the ground.
pub const OBJECT_Z_INDEX: u16 = 1;

/// What occupies an object anchor: a rock, a tree, or nothing.
#[derive(Clone, Copy, Debug, PartialEq, Eq, Structural)]
pub enum ObjectChoice {
    Rock,
    Tree,
    Nothing,
}

/// One placed object: where it stands, what it is, its size, and the draw
/// order the rendering collaborator should use.
#[derive(Clone, Copy, Debug, PartialEq, Eq, Structural)]
pub struct PlacedObject {
    pub location: Location,
    pub object: VisibleObject,
    pub size: u16,
    pub z_index: u16,
}

/// The ground cover kind of a noise sample: soil strictly above the
/// threshold, grass otherwise.
pub open spec fn spec_classify(value: int) -> VisibleObject {
    if value > GROUND_THRESHOLD {
        VisibleObject::Soil
    } else {
        VisibleObject::Grass
    }
}

/// The ground cover kind of a noise sample.
pub fn classify(value: u32) -> (r: VisibleObject)
    ensures
        r == spec_classify(value as int),
{
    if value > GROUND_THRESHOLD {
        VisibleObject::Soil
    } else {
        VisibleObject::Grass
    }
}

/// The ground classification of every cell of `boundaries`, in row-major
/// order, under the noise field seeded by `seed`.
pub open spec fn spec_ground(seed: u32, boundaries: Rectangle) -> Seq<(Location, VisibleObject)> {
    Seq::new(
        boundaries.spec_area() as nat,
        |i: int|
            (
                boundaries.location_at(i),
                spec_classify(noise::spec_sample(seed, boundaries.location_at(i))),
            ),
    )
}

/// Classify every cell of `boundaries` by sampling the noise field seeded
/// by `seed`: one `(location, kind)` pair per cell, in row-major order,
/// each kind either grass or soil.
pub fn generate_ground(seed: u32, boundaries: Rectangle) -> (ground: Vec<(Location, VisibleObject)>)
    requires
        boundaries.is_valid(),
    ensures
        ground@ == spec_ground(seed, boundaries),
        ground@.len() == boundaries.spec_area(),
        forall|i: int|
            0 <= i < ground@.len() ==> (#[trigger] ground@[i]).1 == VisibleObject::Grass
                || ground@[i].1 == VisibleObject::Soil,
{
    let locations = boundaries.locations();
    let n = locations.len();
    let mut ground: Vec<(Location, VisibleObject)> = Vec::new();
    let mut i: usize = 0;
    while i < n
        invariant
            boundaries.is_valid(),
            n == locations@.len(),
            n == boundaries.spec_area(),
            forall|j: int| 0 <= j < n ==> locations@[j] == boundaries.location_at(j),
            0 <= i <= n,
            ground@.len() == i,
            forall|j: int| 0 <= j < i ==> ground@[j] == spec_ground(seed, boundaries)[j],
        decreases n - i,
    {
        let loc = locations[i];
        let value = noise::sample(seed, loc);
        ground.push((loc, classify(value)));
        i = i + 1;
    }
    proof {
        assert(ground@ =~= spec_ground(seed, boundaries));
    }
    ground
}

/// The `k`-th candidate draw of the placement stream seeded by `seed`: an
/// `x` draw below `width`, then a `y` draw below `height`, two generator
/// steps per candidate.
pub open spec fn spec_draw(seed: u32, k: int, width: u32, height: u32) -> (u32, u32) {
    (
        (spec_step_n(seed, (2 * k + 1) as nat) as int % (width as int)) as u32,
        (spec_step_n(seed, (2 * k + 2) as nat) as int % (height as int)) as u32,
    )
}

/// The first `n` candidate draws of the placement stream seeded by `seed`.
pub open spec fn spec_draws(seed: u32, width: u32, height: u32, n: int) -> Seq<(u32, u32)> {
    Seq::new(n as nat, |k: int| spec_draw(seed, k, width, height))
}

/// Draw `n` candidate positions from a fresh generator seeded by `seed`.
fn generate_draws(seed: u32, width: u32, height: u32, n: u32) -> (draws: Vec<(u32, u32)>)
    requires
        width > 0,
        height > 0,
    ensures
        draws@ == spec_draws(seed, width, height, n as int),
{
    let mut prng = Prng::new(seed);
    let mut draws: Vec<(u32, u32)> = Vec::new();
    let mut k: u32 = 0;
    while k < n
        invariant
            width > 0,
            height > 0,
            0 <= k <= n,
            draws@.len() == k,
            prng.state_spec() == spec_step_n(seed, (2 * k) as nat),
            forall|j: int| 0 <= j < k ==> draws@[j] == spec_draw(seed, j, width, height),
        decreases n - k,
    {
        proof {
            assert(spec_step_n(seed, (2 * k + 1) as nat) == spec_step(
                spec_step_n(seed, (2 * k) as nat),
            ));
            assert(spec_step_n(seed, (2 * k + 2) as nat) == spec_step(
                spec_step_n(seed, (2 * k + 1) as nat),
            ));
        }
        let x = prng.next_below(width);
        let y = prng.next_below(height);
        draws.push((x, y));
        k = k + 1;
    }
    proof {
        assert(draws@ =~= spec_draws(seed, width, height, n as int));
    }
    draws
}

/// The distribution that decides what occupies an anchor.
pub open spec fn spec_object_distribution() -> Seq<(u32, ObjectChoice)> {
    seq![
        (ROCK_WEIGHT, ObjectChoice::Rock),
        (TREE_WEIGHT, ObjectChoice::Tree),
        (EMPTY_WEIGHT, ObjectChoice::Nothing),
    ]
}

/// What a uniform draw of `u` selects from the object distribution.
pub open spec fn spec_object_pick(u: int) -> ObjectChoice {
    spec_object_distribution()[spec_pick_index(spec_object_distribution(), u)].1
}

/// The world location of a placement anchor given in region-local
/// coordinates.
pub open spec fn spec_anchor_location(boundaries: Rectangle, p: (u32, u32)) -> Location {
    Location { x: (boundaries.min_x + p.0) as i32, y: (boundaries.min_y + p.1) as i32 }
}

/// The squared Euclidean distance between two world locations.
pub open spec fn spec_location_distance_sq(a: Location, b: Location) -> int {
    (a.x - b.x) * (a.x - b.x) + (a.y - b.y) * (a.y - b.y)
}

/// Translating two in-region anchors into the world does not change their
/// squared distance.
proof fn lemma_translation_preserves_distance(boundaries: Rectangle, p: (u32, u32), q: (u32, u32))
    requires
        boundaries.is_valid(),
        p.0 < boundaries.spec_width(),
        p.1 < boundaries.spec_height(),
        q.0 < boundaries.spec_width(),
        q.1 < boundaries.spec_height(),
    ensures
        spec_location_distance_sq(
            spec_anchor_location(boundaries, p),
            spec_anchor_location(boundaries, q),
        ) == poisson::spec_distance_sq(p, q),
{
    let a = spec_anchor_location(boundaries, p);
    let b = spec_anchor_location(boundaries, q);
    let dx = a.x - b.x;
    let dy = a.y - b.y;
    let ux = if p.0 >= q.0 {
        p.0 - q.0
    } else {
        q.0 - p.0
    };
    let uy = if p.1 >= q.1 {
        p.1 - q.1
    } else {
        q.1 - p.1
    };
    assert(dx == ux || dx == -ux);
    assert(dy == uy || dy == -uy);
    assert(dx * dx == ux * ux) by (nonlinear_arith)
        requires
            dx == ux || dx == -ux,
    {
    }
    assert(dy * dy == uy * uy) by (nonlinear_arith)
        requires
            dy == uy || dy == -uy,
    {
    }
}

/// The objects selected for the anchors from position `k` on, given the
/// generator states of the selection stream and the size stream: per
/// anchor one uniform kind draw, and, for a tree only, one size draw.
pub open spec fn spec_select_from(
    anchors: Seq<(u32, u32)>,
    k: int,
    sel: u32,
    size: u32,
    boundaries: Rectangle,
) -> Seq<PlacedObject>
    decreases anchors.len() - k,
{
    if k < 0 || k >= anchors.len() {
        Seq::empty()
    } else {
        let u = spec_step(sel) as int % (WEIGHT_ONE + 1);
        let location = spec_anchor_location(boundaries, anchors[k]);
        match spec_object_pick(u) {
            ObjectChoice::Rock => seq![
                PlacedObject {
                    location,
                    object: VisibleObject::Rock,
                    size: 1,
                    z_index: OBJECT_Z_INDEX,
                },
            ] + spec_select_from(anchors, k + 1, spec_step(sel), size, boundaries),
            ObjectChoice::Tree => {
                let tree_size = TREE_SIZE_MIN + spec_step(size) as int % (TREE_SIZE_MAX
                    - TREE_SIZE_MIN + 1);
                seq![
                    PlacedObject {
                        location,
                        object: VisibleObject::TreeTrunk,
                        size: tree_size as u16,
                        z_index: OBJECT_Z_INDEX,
                    },
                ] + spec_select_from(anchors, k + 1, spec_step(sel), spec_step(size), boundaries)
            },
            ObjectChoice::Nothing => spec_select_from(
                anchors,
                k + 1,
                spec_step(sel),
                size,
                boundaries,
            ),
        }
    }
}

/// The validated probability table of the object distribution.
fn object_table() -> (table: ProbabilityTable<ObjectChoice>)
    ensures
        table@ == spec_object_distribution(),
{
    let mut dist: Vec<(u32, ObjectChoice)> = Vec::new();
    dist.push((ROCK_WEIGHT, ObjectChoice::Rock));
    dist.push((TREE_WEIGHT, ObjectChoice::Tree));
    dist.push((EMPTY_WEIGHT, ObjectChoice::Nothing));
    proof {
        assert(dist@ =~= spec_object_distribution());
        assert(spec_prefix_sum(dist@, 0) == 0);
        assert(spec_prefix_sum(dist@, 1) == ROCK_WEIGHT);
        assert(spec_prefix_sum(dist@, 2) == ROCK_WEIGHT + TREE_WEIGHT);
        assert(spec_prefix_sum(dist@, 3) == ROCK_WEIGHT + TREE_WEIGHT + EMPTY_WEIGHT);
        assert(spec_valid_distribution(dist@));
    }
    match ProbabilityTable::new(dist) {
        Ok(table) => table,
        Err(_) => unreached(),
    }
}

/// Decide what occupies each anchor, in anchor order: per anchor one
/// uniform kind draw from the object distribution, and, for a tree, one
/// size draw from the configured range.  Anchors are given in region-local
/// coordinates; placed objects carry world locations.
pub fn select_objects(
    anchors: &Vec<(u32, u32)>,
    selection_seed: u32,
    size_seed: u32,
    boundaries: Rectangle,
) -> (objects: Vec<PlacedObject>)
    requires
        boundaries.is_valid(),
        forall|i: int|
            0 <= i < anchors@.len() ==> (#[trigger] anchors@[i]).0 < boundaries.spec_width()
                && anchors@[i].1 < boundaries.spec_height(),
        poisson::spec_pairwise_separated(anchors@, 4 * OBJECT_RADIUS * OBJECT_RADIUS),
    ensures
        objects@ == spec_select_from(anchors@, 0, selection_seed, size_seed, boundaries),
        objects@.len() <= anchors@.len(),
        forall|m: int|
            0 <= m < objects@.len() ==> boundaries.spec_contains(
                (#[trigger] objects@[m]).location,
            ),
        forall|m: int|
            0 <= m < objects@.len() ==> {
                let o = #[trigger] objects@[m];
                &&& (o.object == VisibleObject::Rock && o.size == 1 || o.object
                    == VisibleObject::TreeTrunk && TREE_SIZE_MIN <= o.size <= TREE_SIZE_MAX)
                &&& o.z_index == OBJECT_Z_INDEX
            },
        forall|m: int, l: int|
            0 <= m < l < objects@.len() ==> spec_location_distance_sq(
                (#[trigger] objects@[m]).location,
                (#[trigger] objects@[l]).location,
            ) > 4 * OBJECT_RADIUS * OBJECT_RADIUS,
{
    let table = object_table();
    let mut selection_rng = Prng::new(selection_seed);
    let mut size_rng = Prng::new(size_seed);
    let mut objects: Vec<PlacedObject> = Vec::new();
    let ghost mut anchor_of: Seq<int> = Seq::empty();
    let n = anchors.len();
    let mut k: usize = 0;
    while k < n
        invariant
            boundaries.is_valid(),
            table@ == spec_object_distribution(),
            n == anchors@.len(),
            0 <= k <= n,
            forall|i: int|
                0 <= i < anchors@.len() ==> (#[trigger] anchors@[i]).0 < boundaries.spec_width()
                    && anchors@[i].1 < boundaries.spec_height(),
            poisson::spec_pairwise_separated(anchors@, 4 * OBJECT_RADIUS * OBJECT_RADIUS),
            objects@.len() == anchor_of.len(),
            objects@.len() <= k,
            forall|m: int| 0 <= m < anchor_of.len() ==> 0 <= #[trigger] anchor_of[m] < k,
            forall|m: int, l: int|
                0 <= m < l < anchor_of.len() ==> #[trigger] anchor_of[m] < #[trigger] anchor_of[l],
            forall|m: int|
                0 <= m < objects@.len() ==> (#[trigger] objects@[m]).location
                    == spec_anchor_location(boundaries, anchors@[anchor_of[m]]),
            forall|m: int|
                0 <= m < objects@.len() ==> boundaries.spec_contains(
                    (#[trigger] objects@[m]).location,
                ),
            forall|m: int|
                0 <= m < objects@.len() ==> {
                    let o = #[trigger] objects@[m];
                    &&& (o.object == VisibleObject::Rock && o.size == 1 || o.object
                        == VisibleObject::TreeTrunk && TREE_SIZE_MIN <= o.size <= TREE_SIZE_MAX)
                    &&& o.z_index == OBJECT_Z_INDEX
                },
            forall|m: int, l: int|
                0 <= m < l < objects@.len() ==> spec_location_distance_sq(
                    (#[trigger] objects@[m]).location,
                    (#[trigger] objects@[l]).location,
                ) > 4 * OBJECT_RADIUS * OBJECT_RADIUS,
            spec_select_from(anchors@, 0, selection_seed, size_seed, boundaries) == objects@
                + spec_select_from(
                anchors@,
                k as int,
                selection_rng.state_spec(),
                size_rng.state_spec(),
                boundaries,
            ),
        decreases n - k,
    {
        let ghost objects_before = objects@;
        let u = selection_rng.next_below(WEIGHT_ONE + 1);
        let pick = table.pick(u);
        let a = anchors[k];
        let location = Location {
            x: boundaries.min_x + (a.0 as i32),
            y: boundaries.min_y + (a.1 as i32),
        };
        proof {
            assert(location == spec_anchor_location(boundaries, anchors@[k as int]));
        }
        match pick {
            ObjectChoice::Rock => {
                let placed = PlacedObject {
                    location,
                    object: VisibleObject::Rock,
                    size: 1,
                    z_index: OBJECT_Z_INDEX,
                };
                objects.push(placed);
                proof {
                    anchor_of = anchor_of.push(k as int);
                    lemma_push_keeps_separation(objects_before, anchor_of, anchors@, boundaries, k as int, placed);
                    assert(spec_select_from(anchors@, 0, selection_seed, size_seed, boundaries)
                        =~= objects@ + spec_select_from(
                        anchors@,
                        k + 1,
                        selection_rng.state_spec(),
                        size_rng.state_spec(),
                        boundaries,
                    ));
                }
            },
            ObjectChoice::Tree => {
                let tree_size = size_rng.next_in_range(TREE_SIZE_MIN, TREE_SIZE_MAX);
                let placed = PlacedObject {
                    location,
                    object: VisibleObject::TreeTrunk,
                    size: tree_size as u16,
                    z_index: OBJECT_Z_INDEX,
                };
                objects.push(placed);
                proof {
                    anchor_of = anchor_of.push(k as int);
                    lemma_push_keeps_separation(objects_before, anchor_of, anchors@, boundaries, k as int, placed);
                    assert(spec_select_from(anchors@, 0, selection_seed, size_seed, boundaries)
                        =~= objects@ + spec_select_from(
                        anchors@,
                        k + 1,
                        selection_rng.state_spec(),
                        size_rng.state_spec(),
                        boundaries,
                    ));
                }
            },
            ObjectChoice::Nothing => {
                proof {
                    assert(spec_select_from(anchors@, 0, selection_seed, size_seed, boundaries)
                        =~= objects@ + spec_select_from(
                        anchors@,
                        k + 1,
                        selection_rng.state_spec(),
                        size_rng.state_spec(),
                        boundaries,
                    ));
                }
            },
        }
        k = k + 1;
    }
    proof {
        assert(objects@ + Seq::<PlacedObject>::empty() =~= objects@);
    }
    objects
}

/// Pushing an object anchored at a fresh anchor keeps the placed objects
/// pairwise separated: the new object's anchor differs from every earlier
/// one, and anchors are pairwise separated.
proof fn lemma_push_keeps_separation(
    objects: Seq<PlacedObject>,
    anchor_of: Seq<int>,
    anchors: Seq<(u32, u32)>,
    boundaries: Rectangle,
    k: int,
    placed: PlacedObject,
)
    requires
        boundaries.is_valid(),
        forall|i: int|
            0 <= i < anchors.len() ==> (#[trigger] anchors[i]).0 < boundaries.spec_width()
                && anchors[i].1 < boundaries.spec_height(),
        poisson::spec_pairwise_separated(anchors, 4 * OBJECT_RADIUS * OBJECT_RADIUS),
        0 <= k < anchors.len(),
        anchor_of.len() == objects.len() + 1,
        anchor_of.last() == k,
        forall|m: int| 0 <= m < objects.len() ==> 0 <= #[trigger] anchor_of[m] < k,
        forall|m: int|
            0 <= m < objects.len() ==> (#[trigger] objects[m]).location == spec_anchor_location(
                boundaries,
                anchors[anchor_of[m]],
            ),
        forall|m: int, l: int|
            0 <= m < l < objects.len() ==> spec_location_distance_sq(
                (#[trigger] objects[m]).location,
                (#[trigger] objects[l]).location,
            ) > 4 * OBJECT_RADIUS * OBJECT_RADIUS,
        placed.location == spec_anchor_location(boundaries, anchors[k]),
    ensures
        forall|m: int, l: int|
            0 <= m < l < objects.push(placed).len() ==> spec_location_distance_sq(
                (#[trigger] objects.push(placed)[m]).location,
                (#[trigger] objects.push(placed)[l]).location,
            ) > 4 * OBJECT_RADIUS * OBJECT_RADIUS,
{
    let extended = objects.push(placed);
    assert forall|m: int, l: int| 0 <= m < l < extended.len() implies spec_location_distance_sq(
        (#[trigger] extended[m]).location,
        (#[trigger] extended[l]).location,
    ) > 4 * OBJECT_RADIUS * OBJECT_RADIUS by {
        if l == objects.len() {
            let g = anchor_of[m];
            lemma_translation_preserves_distance(boundaries, anchors[g], anchors[k]);
        }
    }
}

/// The anchors that placement accepts for `seed` and `boundaries`: the
/// point process run on the placement draw stream.
pub open spec fn spec_anchors(seed: u32, boundaries: Rectangle) -> Seq<(u32, u32)> {
    let chain = spec_derive(seed);
    let width = boundaries.spec_width() as u32;
    let height = boundaries.spec_height() as u32;
    poisson::spec_poisson(
        spec_draws(chain.placement, width, height, OBJECT_DRAW_COUNT as int),
        width,
        height,
        OBJECT_TARGET_COUNT,
        OBJECT_RADIUS,
        OBJECT_RETRY_BUDGET,
    ).samples
}

/// The objects that generation places for `seed` and `boundaries`.
pub open spec fn spec_objects(seed: u32, boundaries: Rectangle) -> Seq<PlacedObject> {
    let chain = spec_derive(seed);
    spec_select_from(spec_anchors(seed, boundaries), 0, chain.selection, chain.size, boundaries)
}

/// The full static content of one world: the rectangle it covers, one
/// ground classification per cell, and the placed objects.
///
/// Holding a `GeneratedWorld` is itself the proof that generation has run:
/// there is no partially initialized state and no flag to check.
pub struct GeneratedWorld {
    /// The rectangle the world covers.
    pub boundaries: Rectangle,
    /// One `(location, kind)` pair per cell, in row-major order.
    pub ground: Vec<(Location, VisibleObject)>,
    /// The placed objects, in acceptance order of their anchors.
    pub objects: Vec<PlacedObject>,
}

/// Generate the whole static content of the world of `seed` over
/// `boundaries`, in the fixed phase order: derive the sub-seed chain,
/// classify the ground of every cell, place object anchors, and select an
/// object for each anchor.
///
/// The result is a pure function of `seed` and `boundaries`: the first
/// three clauses of the contract pin every field to a mathematical
/// function of the two inputs.  The remaining clauses spell out the shape
/// guarantees: one ground pair per cell in row-major order, each either
/// grass or soil; at most the target number of objects, each inside the
/// rectangle, each a rock of size one or a tree of a size in the
/// configured range, drawn above the ground; and no two objects closer
/// than twice the object radius.
pub fn generate_map(seed: u32, boundaries: Rectangle) -> (world: GeneratedWorld)
    requires
        boundaries.is_valid(),
    ensures
        world.boundaries == boundaries,
        world.ground@ == spec_ground(spec_derive(seed).ground_noise, boundaries),
        world.objects@ == spec_objects(seed, boundaries),
        world.ground@.len() == boundaries.spec_area(),
        forall|i: int|
            0 <= i < world.ground@.len() ==> (#[trigger] world.ground@[i]).1
                == VisibleObject::Grass || world.ground@[i].1 == VisibleObject::Soil,
        world.objects@.len() <= OBJECT_TARGET_COUNT,
        forall|m: int|
            0 <= m < world.objects@.len() ==> boundaries.spec_contains(
                (#[trigger] world.objects@[m]).location,
            ),
        forall|m: int|
            0 <= m < world.objects@.len() ==> {
                let o = #[trigger] world.objects@[m];
                &&& (o.object == VisibleObject::Rock && o.size == 1 || o.object
                    == VisibleObject::TreeTrunk && TREE_SIZE_MIN <= o.size <= TREE_SIZE_MAX)
                &&& o.z_index == OBJECT_Z_INDEX
            },
        forall|m: int, l: int|
            0 <= m < l < world.objects@.len() ==> spec_location_distance_sq(
                (#[trigger] world.objects@[m]).location,
                (#[trigger] world.objects@[l]).location,
            ) > 4 * OBJECT_RADIUS * OBJECT_RADIUS,
{
    let chain = SeedChain::derive(seed);
    let ground = generate_ground(chain.ground_noise, boundaries);
    let width: u32 = boundaries.width() as u32;
    let height: u32 = boundaries.height() as u32;
    let draws = generate_draws(chain.placement, width, height, OBJECT_DRAW_COUNT);
    let anchors = poisson::poisson_discrete(
        &draws,
        width,
        height,
        OBJECT_TARGET_COUNT,
        OBJECT_RADIUS,
        OBJECT_RETRY_BUDGET,
    );
    let objects = select_objects(&anchors, chain.selection, chain.size, boundaries);
    GeneratedWorld { boundaries, ground, objects }
}

/// Generation is deterministic: any two worlds that meet the generation
/// contract for the same seed and rectangle agree bit for bit on their
/// ground classification and their object list.
pub proof fn lemma_generation_deterministic(
    seed: u32,
    boundaries: Rectangle,
    first: GeneratedWorld,
    second: GeneratedWorld,
)
    requires
        first.boundaries == boundaries,
        first.ground@ == spec_ground(spec_derive(seed).ground_noise, boundaries),
        first.objects@ == spec_objects(seed, boundaries),
        second.boundaries == boundaries,
        second.ground@ == spec_ground(spec_derive(seed).ground_noise, boundaries),
        second.objects@ == spec_objects(seed, boundaries),
    ensures
        first.boundaries == second.boundaries,
        first.ground@ == second.ground@,
        first.objects@ == second.objects@,
{
}

} // verus!
