use vstd::prelude::*;
use crate::hex::{cube_add, direction_cubes, Cube, GridVec};
use crate::rng::{range_draw, EarthRng, LastGenerationSeed};

verus! {

/// The number of biome clusters in a generated world.
pub const CLUSTER_COUNT: usize = 7;

/// The number of tiles in one cluster: an anchor and its six neighbors.
pub const CLUSTER_TILES: usize = 7;

/// The kind of content a cluster of tiles holds.
#[derive(Clone, Copy, PartialEq, Eq, Structural, Debug)]
pub enum Biome {
    City,
    Ocean,
    Forest,
}

/// A request for one city tile with the given layout.
#[derive(Clone, Copy, PartialEq, Eq, Structural, Debug)]
pub struct AddCity {
    pub layout: i32,
    pub grid_position: GridVec,
}

/// A request for one forest tile.
#[derive(Clone, Copy, PartialEq, Eq, Structural, Debug)]
pub struct AddForest {
    pub grid_position: GridVec,
}

/// A request to place one tile, for the biome builders to carry out.
#[derive(Clone, Copy, PartialEq, Eq, Structural, Debug)]
pub enum TileRequest {
    City(AddCity),
    /// An ocean tile with the builder's default surface settings.
    Ocean { grid_position: GridVec },
    Forest(AddForest),
}

impl TileRequest {
    /// The cell the tile is requested at.
    pub fn grid_position(&self) -> (r: GridVec)
        ensures
            r == request_cell(*self),
    {
        match self {
            TileRequest::City(c) => c.grid_position,
            TileRequest::Ocean { grid_position } => *grid_position,
            TileRequest::Forest(f) => f.grid_position,
        }
    }
}

pub open spec fn request_cell(r: TileRequest) -> GridVec {
    match r {
        TileRequest::City(c) => c.grid_position,
        TileRequest::Ocean { grid_position } => grid_position,
        TileRequest::Forest(f) => f.grid_position,
    }
}

/// One cluster of a generated world: its anchor, its biome, and a request
/// for each of its tiles.
#[derive(Clone, Debug)]
pub struct BiomeCluster {
    pub anchor: GridVec,
    pub biome: Biome,
    pub requests: Vec<TileRequest>,
}

/// What one generation pass produced.
#[derive(Clone, Debug)]
pub struct Generation {
    /// The generator's state before the pass.
    pub seed: LastGenerationSeed,
    /// The clusters, in the order their biomes were drawn.
    pub clusters: Vec<BiomeCluster>,
}

/// The fixed anchors of the seven clusters.
pub open spec fn anchor_cubes() -> Seq<Cube> {
    seq![
        (0int, 0int, 0int),
        (2int, -3int, 1int),
        (3int, -1int, -2int),
        (1int, 2int, -3int),
        (-1int, -2int, 3int),
        (-2int, 3int, -1int),
        (-3int, 1int, 2int),
    ]
}

/// The layout of each tile of a city cluster, in cluster order.
pub open spec fn city_layouts() -> Seq<i32> {
    seq![1i32, 0i32, 0i32, 5i32, 5i32, 5i32, 5i32]
}

/// The cells of the cluster around `anchor`: the anchor, then its
/// neighbors in the order of [`GridVec::neighbors`].
pub open spec fn cluster_cells(anchor: Cube) -> Seq<Cube> {
    Seq::new(7, |j: int| if j == 0 { anchor } else { cube_add(anchor, direction_cubes()[j - 1]) })
}

/// The biome that a draw from `1..=3` selects.
pub open spec fn biome_of_draw(d: u64) -> Biome {
    if d == 1 {
        Biome::City
    } else if d == 2 {
        Biome::Ocean
    } else {
        Biome::Forest
    }
}

/// The first `n` draws from `1..=3` starting in `state`, and the state
/// they leave.
pub open spec fn biome_draws(state: u64, n: nat) -> (Seq<u64>, u64)
    decreases n,
{
    if n == 0 {
        (Seq::empty(), state)
    } else {
        let (prefix, mid) = biome_draws(state, (n - 1) as nat);
        let (v, next) = range_draw(mid, 1, 3);
        (prefix.push(v), next)
    }
}

/// `n` draws give `n` values.
pub proof fn lemma_biome_draws_len(state: u64, n: nat)
    ensures
        biome_draws(state, n).0.len() == n,
    decreases n,
{
    if n > 0 {
        lemma_biome_draws_len(state, (n - 1) as nat);
    }
}

/// The biome of cluster `k` in a world generated from `state`.
pub open spec fn cluster_biome(state: u64, k: int) -> Biome {
    biome_of_draw(biome_draws(state, CLUSTER_COUNT as nat).0[k])
}

/// True when `r` requests, at `cell`, tile `j` of a cluster of `biome`.
pub open spec fn request_matches(r: TileRequest, biome: Biome, cell: Cube, j: int) -> bool {
    match biome {
        Biome::City => r matches TileRequest::City(c) && c.grid_position@ == cell && c.layout
            == city_layouts()[j],
        Biome::Ocean => r matches TileRequest::Ocean { grid_position } && grid_position@ == cell,
        Biome::Forest => r matches TileRequest::Forest(f) && f.grid_position@ == cell,
    }
}

/// True when `reqs` asks for each tile of the cluster of `biome` around
/// `anchor`, in cluster order.
pub open spec fn cluster_requests_ok(reqs: Seq<TileRequest>, anchor: Cube, biome: Biome) -> bool {
    &&& reqs.len() == CLUSTER_TILES
    &&& forall|j: int| 0 <= j < CLUSTER_TILES ==> request_matches(#[trigger] reqs[j], biome, cluster_cells(anchor)[j], j)
}

/// True when `c` is cluster `k` of a world generated from `state`.
pub open spec fn cluster_planned(c: BiomeCluster, state: u64, k: int) -> bool {
    &&& c.anchor@ == anchor_cubes()[k]
    &&& c.biome == cluster_biome(state, k)
    &&& cluster_requests_ok(c.requests@, anchor_cubes()[k], c.biome)
}

/// True when `g` is the world generated from `state`.
pub open spec fn generation_planned(g: Generation, state: u64) -> bool {
    &&& g.seed == LastGenerationSeed(state)
    &&& g.clusters@.len() == CLUSTER_COUNT
    &&& forall|k: int| 0 <= k < CLUSTER_COUNT ==> cluster_planned(#[trigger] g.clusters@[k], state, k)
}

/// Generation from one seed always gives the same clusters: two worlds
/// generated from equal states have the same anchors, in the same order,
/// with the same biomes and the same tile requests.
pub proof fn lemma_generation_deterministic(g1: Generation, g2: Generation, state: u64)
    requires
        generation_planned(g1, state),
        generation_planned(g2, state),
    ensures
        g1.seed == g2.seed,
        g1.clusters@.len() == g2.clusters@.len(),
        forall|k: int| 0 <= k < CLUSTER_COUNT ==> {
            &&& (#[trigger] g1.clusters@[k]).anchor == g2.clusters@[k].anchor
            &&& g1.clusters@[k].biome == g2.clusters@[k].biome
            &&& g1.clusters@[k].requests@ == g2.clusters@[k].requests@
        },
{
    assert forall|k: int| 0 <= k < CLUSTER_COUNT implies {
        &&& (#[trigger] g1.clusters@[k]).anchor == g2.clusters@[k].anchor
        &&& g1.clusters@[k].biome == g2.clusters@[k].biome
        &&& g1.clusters@[k].requests@ == g2.clusters@[k].requests@
    } by {
        let a = g1.clusters@[k];
        let b = g2.clusters@[k];
        assert(cluster_planned(a, state, k));
        assert(cluster_planned(b, state, k));
        GridVec::lemma_view_injective(a.anchor, b.anchor);
        assert forall|j: int| 0 <= j < CLUSTER_TILES implies a.requests@[j] == b.requests@[j] by {
            assert(request_matches(a.requests@[j], a.biome, cluster_cells(anchor_cubes()[k])[j], j));
            assert(request_matches(b.requests@[j], b.biome, cluster_cells(anchor_cubes()[k])[j], j));
            match a.requests@[j] {
                TileRequest::City(x) => {
                    if let TileRequest::City(y) = b.requests@[j] {
                        GridVec::lemma_view_injective(x.grid_position, y.grid_position);
                    }
                },
                TileRequest::Ocean { grid_position: x } => {
                    if let TileRequest::Ocean { grid_position: y } = b.requests@[j] {
                        GridVec::lemma_view_injective(x, y);
                    }
                },
                TileRequest::Forest(x) => {
                    if let TileRequest::Forest(y) = b.requests@[j] {
                        GridVec::lemma_view_injective(x.grid_position, y.grid_position);
                    }
                },
            }
        }
        assert(a.requests@ =~= b.requests@);
    }
}

/// The request for a tile of a cluster of `biome` at `cell`; city tiles
/// take `layout`.
fn tile_request(biome: Biome, cell: GridVec, layout: i32) -> (r: TileRequest)
    ensures
        match biome {
            Biome::City => r == TileRequest::City(AddCity { layout, grid_position: cell }),
            Biome::Ocean => r == (TileRequest::Ocean { grid_position: cell }),
            Biome::Forest => r == TileRequest::Forest(AddForest { grid_position: cell }),
        },
{
    match biome {
        Biome::City => TileRequest::City(AddCity { layout, grid_position: cell }),
        Biome::Ocean => TileRequest::Ocean { grid_position: cell },
        Biome::Forest => TileRequest::Forest(AddForest { grid_position: cell }),
    }
}

/// The requests for the seven tiles of a cluster of `biome` around `anchor`.
pub fn cluster_requests(anchor: GridVec, biome: Biome) -> (r: Vec<TileRequest>)
    requires
        -100 <= anchor@.0 <= 100,
        -100 <= anchor@.1 <= 100,
        -100 <= anchor@.2 <= 100,
    ensures
        cluster_requests_ok(r@, anchor@, biome),
{
    let n = anchor.neighbors();
    let cells: [GridVec; 7] = [anchor, n[0], n[1], n[2], n[3], n[4], n[5]];
    let layouts: [i32; 7] = [1, 0, 0, 5, 5, 5, 5];
    assert forall|j: int| 0 <= j < 7 implies #[trigger] cells@[j]@ == cluster_cells(anchor@)[j] by {
        if j > 0 {
            assert(cells@[j] == n@[j - 1]);
        }
    }
    assert(layouts@ == city_layouts());
    let mut r: Vec<TileRequest> = Vec::new();
    let mut j: usize = 0;
    while j < CLUSTER_TILES
        invariant
            j <= CLUSTER_TILES,
            r@.len() == j,
            forall|i: int| 0 <= i < 7 ==> #[trigger] cells@[i]@ == cluster_cells(anchor@)[i],
            layouts@ == city_layouts(),
            forall|i: int| 0 <= i < j ==> request_matches(#[trigger] r@[i], biome, cluster_cells(anchor@)[i], i),
        decreases CLUSTER_TILES - j,
    {
        let req = tile_request(biome, cells[j], layouts[j]);
        r.push(req);
        proof {
            assert(cells@[j as int]@ == cluster_cells(anchor@)[j as int]);
        }
        j = j + 1;
    }
    r
}

/// The fixed anchors of the seven clusters.
fn anchors() -> (r: [GridVec; 7])
    ensures
        forall|k: int| 0 <= k < 7 ==> #[trigger] r@[k]@ == anchor_cubes()[k],
{
    let zero = GridVec::zero();
    let r = [
        zero,
        zero.add(GridVec::southeast().mul(2)).add(GridVec::south()),
        zero.add(GridVec::northeast().mul(3)).add(GridVec::south()),
        zero.add(GridVec::north().mul(2)).add(GridVec::northeast()),
        zero.add(GridVec::south().mul(2)).add(GridVec::southwest()),
        zero.add(GridVec::northwest().mul(2)).add(GridVec::north()),
        zero.add(GridVec::southwest().mul(3)).add(GridVec::north()),
    ];
    r
}

/// The biome that a draw from `1..=3` selects.
fn biome_for_draw(d: u64) -> (r: Biome)
    ensures
        r == biome_of_draw(d),
{
    if d == 1 {
        Biome::City
    } else if d == 2 {
        Biome::Ocean
    } else {
        Biome::Forest
    }
}

/// The one-shot trigger for world generation.
///
/// A request sets the flag; the next pass that sees it clears it and
/// generates one world. Passes that find the flag clear do nothing.
pub struct WorldGenerator {
    requested: bool,
}

impl View for WorldGenerator {
    type V = bool;

    /// Whether generation has been requested and not yet carried out.
    closed spec fn view(&self) -> bool {
        self.requested
    }
}

impl WorldGenerator {
    /// A generator with no request pending.
    pub fn new() -> (r: WorldGenerator)
        ensures
            !r@,
    {
        WorldGenerator { requested: false }
    }

    /// Asks for one world to be generated on the next pass.
    pub fn request(&mut self)
        ensures
            final(self)@,
    {
        self.requested = true;
    }

    /// Whether a request is pending.
    pub fn is_requested(&self) -> (r: bool)
        ensures
            r == self@,
    {
        self.requested
    }

    /// One pass: if a request is pending, clears it and generates a world
    /// from `rng`, drawing one biome per cluster in cluster order.
    pub fn generate(&mut self, rng: &mut EarthRng) -> (r: Option<Generation>)
        ensures
            !final(self)@,
            !old(self)@ ==> r is None && final(rng)@ == old(rng)@,
            old(self)@ ==> (r matches Some(g) && generation_planned(g, old(rng)@)),
            old(self)@ ==> final(rng)@ == biome_draws(old(rng)@, CLUSTER_COUNT as nat).1,
    {
        if !self.requested {
            return None;
        }
        self.requested = false;
        let seed = LastGenerationSeed(rng.get_seed());
        let ghost start = rng@;
        let anchors = anchors();
        let mut clusters: Vec<BiomeCluster> = Vec::new();
        let mut k: usize = 0;
        while k < CLUSTER_COUNT
            invariant
                k <= CLUSTER_COUNT,
                clusters@.len() == k,
                rng@ == biome_draws(start, k as nat).1,
                forall|i: int| 0 <= i < 7 ==> #[trigger] anchors@[i]@ == anchor_cubes()[i],
                forall|i: int| 0 <= i < k ==> (#[trigger] clusters@[i]).anchor@ == anchor_cubes()[i]
                    && clusters@[i].biome == biome_of_draw(biome_draws(start, k as nat).0[i])
                    && cluster_requests_ok(clusters@[i].requests@, anchor_cubes()[i], clusters@[i].biome),
            decreases CLUSTER_COUNT - k,
        {
            let d = rng.uniform_u64_range(1, 3);
            let biome = biome_for_draw(d);
            let anchor = anchors[k];
            assert(anchor@ == anchor_cubes()[k as int]);
            let requests = cluster_requests(anchor, biome);
            clusters.push(BiomeCluster { anchor, biome, requests });
            proof {
                lemma_biome_draws_len(start, k as nat);
                let prev = biome_draws(start, k as nat);
                let next = biome_draws(start, (k + 1) as nat);
                assert(next.0 == prev.0.push(d));
                assert forall|i: int| 0 <= i < k implies next.0[i] == prev.0[i] by {}
            }
            k = k + 1;
        }
        proof {
            let all = biome_draws(start, CLUSTER_COUNT as nat);
            assert forall|i: int| 0 <= i < CLUSTER_COUNT implies cluster_planned(#[trigger] clusters@[i], start, i) by {
                assert(clusters@[i].biome == biome_of_draw(all.0[i]));
            }
        }
        Some(Generation { seed, clusters })
    }
}

} // verus!
