//! The build phase: the shared scrap pool, what a structure costs, and the
//! loudspeaker network whose largest linked cluster unlocks the stage.

use vstd::prelude::*;

use crate::{Hero, Party};

verus! {

/// Cost of a loudspeaker, in scrap.
pub const SPEAKER_COST: u32 = 18;
/// Cost of the stage, in scrap.
pub const STAGE_COST: u32 = 60;
/// Linked loudspeakers (in one connected network) needed before the stage can
/// be raised.
pub const SPEAKERS_TO_LINK: usize = 3;

/// The two structures the band can build.
#[derive(Clone, Copy, PartialEq, Eq, Debug, Structural)]
pub enum StructureKind {
    /// A loudspeaker: secures a zone around it and links with its neighbours.
    Speaker,
    /// The stage: raising it on a linked network wins the level.
    Stage,
}

/// What a structure costs.
pub open spec fn cost_of(k: StructureKind) -> u32 {
    match k {
        StructureKind::Speaker => SPEAKER_COST,
        StructureKind::Stage => STAGE_COST,
    }
}

impl StructureKind {
    /// What this structure costs, in scrap.
    pub fn cost(self) -> (c: u32)
        ensures
            c == cost_of(self),
    {
        match self {
            StructureKind::Speaker => SPEAKER_COST,
            StructureKind::Stage => STAGE_COST,
        }
    }
}

/// What a hero's build press would put up: the drummer raises the stage; the
/// guitarist plants loudspeakers — except alone, with the network linked and
/// no stage yet, when there is no drummer to raise it and the guitarist does.
pub open spec fn structure_for(hero: Hero, party: Party, largest: usize, stage_standing: bool) -> StructureKind {
    match hero {
        Hero::Drummer => StructureKind::Stage,
        Hero::Guitarist => if party == Party::Solo && largest >= SPEAKERS_TO_LINK
            && !stage_standing {
            StructureKind::Stage
        } else {
            StructureKind::Speaker
        },
    }
}

/// What a hero's build press would put up.
pub fn build_choice(hero: Hero, party: Party, largest: usize, stage_standing: bool) -> (k:
    StructureKind)
    ensures
        k == structure_for(hero, party, largest, stage_standing),
{
    match hero {
        Hero::Drummer => StructureKind::Stage,
        Hero::Guitarist => if party == Party::Solo && largest >= SPEAKERS_TO_LINK
            && !stage_standing {
            StructureKind::Stage
        } else {
            StructureKind::Speaker
        },
    }
}

/// The ground around a pitch a hero wants to build on.
#[derive(Clone, Copy, PartialEq, Eq, Debug, Structural)]
pub struct Pitch {
    /// A free pitch of the right kind is within reach.
    pub in_reach: bool,
    /// An unfinished site already stands close to it.
    pub site_crowded: bool,
    /// A finished loudspeaker already stands close to it.
    pub speaker_crowded: bool,
}

/// Whether a press may plant `kind`: the pool can pay, a free pitch is in
/// reach and not crowded by a site (nor, for a loudspeaker, by another
/// loudspeaker), and a stage only on a linked network with no stage yet.
pub open spec fn may_place(
    kind: StructureKind,
    scrap: u32,
    pitch: Pitch,
    largest: usize,
    stage_standing: bool,
) -> bool {
    &&& scrap >= cost_of(kind)
    &&& pitch.in_reach
    &&& !pitch.site_crowded
    &&& !(kind == StructureKind::Speaker && pitch.speaker_crowded)
    &&& !(kind == StructureKind::Stage && (largest < SPEAKERS_TO_LINK || stage_standing))
}

/// The shared co-op scrap pool. Enemies drop it; structures cost it.
pub struct Scrap {
    pub amount: u32,
}

impl Scrap {
    /// An empty pool at the start of a run.
    pub fn new() -> (s: Scrap)
        ensures
            s.amount == 0,
    {
        Scrap { amount: 0 }
    }

    /// A scrap mote reached a hero.
    pub fn deposit(&mut self, value: u32)
        requires
            old(self).amount + value <= u32::MAX,
        ensures
            final(self).amount == old(self).amount + value,
    {
        self.amount = self.amount + value;
    }

    /// A build press: if `kind` may be placed on `pitch`, pay for it and say
    /// so; otherwise leave the pool alone.
    pub fn try_place(
        &mut self,
        kind: StructureKind,
        pitch: Pitch,
        largest: usize,
        stage_standing: bool,
    ) -> (placed: bool)
        ensures
            placed == may_place(kind, old(self).amount, pitch, largest, stage_standing),
            final(self).amount == if placed {
                (old(self).amount - cost_of(kind)) as u32
            } else {
                old(self).amount
            },
    {
        let cost = kind.cost();
        if self.amount < cost || !pitch.in_reach || pitch.site_crowded {
            return false;
        }
        if kind == StructureKind::Speaker && pitch.speaker_crowded {
            return false;
        }
        if kind == StructureKind::Stage && (largest < SPEAKERS_TO_LINK || stage_standing) {
            return false;
        }
        self.amount = self.amount - cost;
        true
    }
}

/// A structure is only placed when the pool can pay for it, and a stage only
/// on a linked network with no stage standing yet.
pub proof fn lemma_placing_needs_funds_and_links(
    kind: StructureKind,
    before: u32,
    pitch: Pitch,
    largest: usize,
    stage_standing: bool,
)
    ensures
        may_place(kind, before, pitch, largest, stage_standing) ==> before >= cost_of(kind),
        kind == StructureKind::Stage && may_place(kind, before, pitch, largest, stage_standing)
            ==> largest >= SPEAKERS_TO_LINK && !stage_standing,
{
}

// ---------------------------------------------------------------------------
// Raising a structure
// ---------------------------------------------------------------------------

/// Seconds of one hero's work a loudspeaker takes, in nanoseconds.
pub const SPEAKER_CHANNEL: u64 = 2_600_000_000;
/// Seconds of one hero's work the stage takes, in nanoseconds.
pub const STAGE_CHANNEL: u64 = 6_500_000_000;

/// One hero's work on a structure, in nanoseconds.
pub open spec fn channel_of(k: StructureKind) -> u64 {
    match k {
        StructureKind::Speaker => SPEAKER_CHANNEL,
        StructureKind::Stage => STAGE_CHANNEL,
    }
}

/// How fast a site moves, in hundredths of one hero's pace, for the number of
/// standing heroes within reach of it: an unattended site decays at twelve
/// hundredths, one hero works at full pace, two or more at 1.8 times it.
pub open spec fn pace(helpers: usize) -> int {
    if helpers == 0 {
        -12
    } else if helpers == 1 {
        100
    } else {
        180
    }
}

/// The work a site of this kind needs before it stands: one hero's channel
/// time, counted in hundredths of a hero's pace.
pub open spec fn work_needed(k: StructureKind) -> int {
    channel_of(k) * 100
}

/// A site's work after `dt` nanoseconds at the pace of `helpers`, kept between
/// nothing and finished.
pub open spec fn worked(k: StructureKind, work: int, helpers: usize, dt: u64) -> int {
    let w = work + pace(helpers) * dt;
    if w < 0 {
        0
    } else if w > work_needed(k) {
        work_needed(k)
    } else {
        w
    }
}

/// A dropped-but-unfinished structure. Its progress is its work out of
/// [`work_needed`]: the fraction of the structure that stands.
pub struct BuildSite {
    kind: StructureKind,
    work: u64,
}

impl BuildSite {
    /// A site's work lies between nothing and finished.
    #[verifier::type_invariant]
    closed spec fn inv(self) -> bool {
        self.work <= work_needed(self.kind)
    }

    /// What the site will be.
    pub closed spec fn site_kind(&self) -> StructureKind {
        self.kind
    }

    /// The site's work so far.
    pub closed spec fn work_done(&self) -> int {
        self.work as int
    }

    /// What the site will be.
    pub fn kind(&self) -> (k: StructureKind)
        ensures
            k == self.site_kind(),
    {
        self.kind
    }

    /// A freshly dropped site, with nothing built.
    pub fn new(kind: StructureKind) -> (s: BuildSite)
        ensures
            s.site_kind() == kind,
            s.work_done() == 0,
    {
        BuildSite { kind, work: 0 }
    }

    /// How far along the site is, in thousandths.
    pub fn progress_permille(&self) -> (p: u64)
        ensures
            p == self.work_done() * 1000 / work_needed(self.site_kind()),
            p <= 1000,
    {
        proof {
            use_type_invariant(self);
        }
        let need: u64 = self.kind_need();
        proof {
            assert(self.work * 1000 <= need * 1000) by (nonlinear_arith)
                requires
                    self.work <= need,
            ;
            assert(self.work * 1000 / (need as int) <= 1000) by (nonlinear_arith)
                requires
                    self.work * 1000 <= need * 1000,
                    need > 0,
            ;
        }
        self.work * 1000 / need
    }

    fn kind_need(&self) -> (n: u64)
        ensures
            n == work_needed(self.kind),
            n > 0,
    {
        match self.kind {
            StructureKind::Speaker => SPEAKER_CHANNEL * 100,
            StructureKind::Stage => STAGE_CHANNEL * 100,
        }
    }

    /// Advance the site by `dt` nanoseconds with `helpers` standing heroes
    /// within reach; says whether the structure now stands.
    pub fn channel(&mut self, helpers: usize, dt: u64) -> (done: bool)
        ensures
            final(self).site_kind() == old(self).site_kind(),
            final(self).work_done() == worked(
                old(self).site_kind(),
                old(self).work_done(),
                helpers,
                dt,
            ),
            done == (final(self).work_done() == work_needed(old(self).site_kind())),
    {
        proof {
            use_type_invariant(&*self);
        }
        let need: u64 = self.kind_need();
        // Any longer than the whole job empties or fills the site anyway.
        let d: u64 = if dt > need { need } else { dt };
        proof {
            assert(d * 180 <= need * 180) by (nonlinear_arith)
                requires
                    d <= need,
            ;
        }
        if helpers == 0 {
            let loss: u64 = d * 12;
            self.work = if self.work < loss { 0 } else { self.work - loss };
            proof {
                if dt > need {
                    assert(self.work == 0);
                }
            }
        } else {
            let gain: u64 = if helpers == 1 { d * 100 } else { d * 180 };
            self.work = if need - self.work < gain { need } else { self.work + gain };
            proof {
                if dt > need {
                    assert(self.work == need);
                }
            }
        }
        self.work == need
    }
}

/// Standing over a site never loses it ground, leaving it never gains any,
/// and more hands never build slower than fewer.
pub proof fn lemma_site_pace(k: StructureKind, work: int, few: usize, many: usize, dt: u64)
    requires
        0 <= work <= work_needed(k),
        few <= many,
    ensures
        few >= 1 ==> worked(k, work, few, dt) >= work,
        worked(k, work, 0, dt) <= work,
        worked(k, work, few, dt) <= worked(k, work, many, dt),
{
    assert(pace(few) * dt <= pace(many) * dt) by (nonlinear_arith)
        requires
            pace(few) <= pace(many),
            dt >= 0,
    ;
    assert(pace(0) * dt <= 0) by (nonlinear_arith)
        requires
            pace(0) < 0,
            dt >= 0,
    ;
    if few >= 1 {
        assert(pace(few) * dt >= 0) by (nonlinear_arith)
            requires
                pace(few) > 0,
                dt >= 0,
        ;
    }
}

// ---------------------------------------------------------------------------
// Linking
// ---------------------------------------------------------------------------

/// `a` and `b` are joined using only the first `k` links: the equivalence
/// relation generated by those links, grown one link at a time (a new link
/// `u`–`v` merges the group of `u` with the group of `v`).
pub open spec fn joined_by(links: Seq<(usize, usize)>, k: int, a: int, b: int) -> bool
    decreases k,
{
    if k <= 0 {
        a == b
    } else {
        let u = links[k - 1].0 as int;
        let v = links[k - 1].1 as int;
        ||| joined_by(links, k - 1, a, b)
        ||| (joined_by(links, k - 1, a, u) && joined_by(links, k - 1, v, b))
        ||| (joined_by(links, k - 1, a, v) && joined_by(links, k - 1, u, b))
    }
}

/// `a` and `b` are in one connected loudspeaker network.
pub open spec fn joined(links: Seq<(usize, usize)>, a: int, b: int) -> bool {
    joined_by(links, links.len() as int, a, b)
}

/// How many of the speakers `0..m` are in the same network as `i`.
pub open spec fn cluster_count(links: Seq<(usize, usize)>, i: int, m: int) -> nat
    decreases m,
{
    if m <= 0 {
        0
    } else {
        cluster_count(links, i, m - 1) + if joined(links, i, m - 1) { 1nat } else { 0nat }
    }
}

/// The size of the biggest network among speakers `0..m`, out of `n` speakers.
pub open spec fn largest_among(links: Seq<(usize, usize)>, n: int, m: int) -> nat
    decreases m,
{
    if m <= 0 {
        0
    } else {
        let rest = largest_among(links, n, m - 1);
        let here = cluster_count(links, m - 1, n);
        if here > rest { here } else { rest }
    }
}

/// The size of the largest connected network of `n` speakers.
pub open spec fn largest_cluster(links: Seq<(usize, usize)>, n: int) -> nat {
    largest_among(links, n, n)
}

/// Every link joins two of the `n` speakers.
pub open spec fn links_in_range(links: Seq<(usize, usize)>, n: int) -> bool {
    forall|k: int| 0 <= k < links.len() ==> (#[trigger] links[k]).0 < n && links[k].1 < n
}

/// Labels that name the groups of the first `k` links: two speakers share a
/// label exactly when those links join them.
spec fn labels_name_groups(labels: Seq<usize>, links: Seq<(usize, usize)>, k: int) -> bool {
    forall|a: int, b: int|
        0 <= a < labels.len() && 0 <= b < labels.len() ==> (labels[a] == labels[b]
            <==> #[trigger] joined_by(links, k, a, b))
}

/// Merge the group labelled `from` into the group labelled `to`.
fn relabel(labels: &mut Vec<usize>, from: usize, to: usize)
    ensures
        final(labels)@.len() == old(labels)@.len(),
        forall|i: int|
            0 <= i < old(labels)@.len() ==> #[trigger] final(labels)@[i] == if old(labels)@[i]
                == from {
                to
            } else {
                old(labels)@[i]
            },
{
    let n = labels.len();
    let mut i: usize = 0;
    while i < n
        invariant
            n == labels@.len(),
            labels@.len() == old(labels)@.len(),
            0 <= i <= n,
            forall|j: int|
                0 <= j < i ==> #[trigger] labels@[j] == if old(labels)@[j] == from {
                    to
                } else {
                    old(labels)@[j]
                },
            forall|j: int| i <= j < n ==> #[trigger] labels@[j] == old(labels)@[j],
        decreases n - i,
    {
        if labels[i] == from {
            labels.set(i, to);
        }
        i = i + 1;
    }
}

/// The group labels of `n` speakers once every link has been applied.
fn group_labels(n: usize, links: &Vec<(usize, usize)>) -> (labels: Vec<usize>)
    requires
        links_in_range(links@, n as int),
    ensures
        labels@.len() == n,
        labels_name_groups(labels@, links@, links@.len() as int),
{
    let mut labels: Vec<usize> = Vec::new();
    let mut i: usize = 0;
    while i < n
        invariant
            0 <= i <= n,
            labels@.len() == i,
            forall|j: int| 0 <= j < i ==> #[trigger] labels@[j] == j,
        decreases n - i,
    {
        labels.push(i);
        i = i + 1;
    }
    assert(labels_name_groups(labels@, links@, 0));
    let mut k: usize = 0;
    while k < links.len()
        invariant
            0 <= k <= links@.len(),
            labels@.len() == n,
            links_in_range(links@, n as int),
            labels_name_groups(labels@, links@, k as int),
        decreases links@.len() - k,
    {
        let (u, v) = links[k];
        assert(u < n && v < n) by {
            assert(links_in_range(links@, n as int));
            let _ = links@[k as int];
        }
        let lu = labels[u];
        let lv = labels[v];
        let ghost before = labels@;
        relabel(&mut labels, lu, lv);
        assert forall|a: int, b: int|
            0 <= a < labels@.len() && 0 <= b < labels@.len() implies (labels@[a] == labels@[b]
                <==> #[trigger] joined_by(links@, k + 1, a, b)) by {
            assert(joined_by(links@, k + 1, a, b) == (joined_by(links@, k as int, a, b) || (
            joined_by(links@, k as int, a, u as int) && joined_by(links@, k as int, v as int, b))
                || (joined_by(links@, k as int, a, v as int) && joined_by(
                links@,
                k as int,
                u as int,
                b,
            ))));
            assert(before[a] == before[b] <==> joined_by(links@, k as int, a, b));
            assert(before[a] == before[u as int] <==> joined_by(links@, k as int, a, u as int));
            assert(before[v as int] == before[b] <==> joined_by(links@, k as int, v as int, b));
            assert(before[a] == before[v as int] <==> joined_by(links@, k as int, a, v as int));
            assert(before[u as int] == before[b] <==> joined_by(links@, k as int, u as int, b));
        }
        k = k + 1;
    }
    labels
}

/// The size of the largest connected network among `n` speakers joined by
/// `links`.
pub fn largest_network(n: usize, links: &Vec<(usize, usize)>) -> (largest: usize)
    requires
        links_in_range(links@, n as int),
    ensures
        largest == largest_cluster(links@, n as int),
{
    let labels = group_labels(n, links);
    let mut best: usize = 0;
    let mut i: usize = 0;
    while i < n
        invariant
            0 <= i <= n,
            labels@.len() == n,
            labels_name_groups(labels@, links@, links@.len() as int),
            best == largest_among(links@, n as int, i as int),
            best <= n,
        decreases n - i,
    {
        let mut count: usize = 0;
        let mut j: usize = 0;
        while j < n
            invariant
                0 <= i < n,
                0 <= j <= n,
                labels@.len() == n,
                labels_name_groups(labels@, links@, links@.len() as int),
                count == cluster_count(links@, i as int, j as int),
                count <= j,
            decreases n - j,
        {
            assert(labels@[i as int] == labels@[j as int] <==> joined_by(
                links@,
                links@.len() as int,
                i as int,
                j as int,
            ));
            if labels[i] == labels[j] {
                count = count + 1;
            }
            j = j + 1;
        }
        if count > best {
            best = count;
        }
        i = i + 1;
    }
    best
}


/// Linking is an equivalence: every speaker is in its own network, networks
/// are symmetric, and a network joined to a network is one network.
pub proof fn lemma_joined_is_equivalence(links: Seq<(usize, usize)>, k: int)
    ensures
        forall|a: int| #[trigger] joined_by(links, k, a, a),
        forall|a: int, b: int| #[trigger] joined_by(links, k, a, b) ==> joined_by(links, k, b, a),
        forall|a: int, b: int, c: int|
            #[trigger] joined_by(links, k, a, b) && #[trigger] joined_by(links, k, b, c)
                ==> joined_by(links, k, a, c),
    decreases k,
{
    if k > 0 {
        lemma_joined_is_equivalence(links, k - 1);
        let u = links[k - 1].0 as int;
        let v = links[k - 1].1 as int;
        assert forall|a: int| #[trigger] joined_by(links, k, a, a) by {
            assert(joined_by(links, k - 1, a, a));
        }
        assert forall|a: int, b: int| #[trigger] joined_by(links, k, a, b) implies joined_by(
            links,
            k,
            b,
            a,
        ) by {
            assert(joined_by(links, k, a, b) == (joined_by(links, k - 1, a, b) || (joined_by(
                links,
                k - 1,
                a,
                u,
            ) && joined_by(links, k - 1, v, b)) || (joined_by(links, k - 1, a, v) && joined_by(
                links,
                k - 1,
                u,
                b,
            ))));
            if joined_by(links, k - 1, a, b) {
                assert(joined_by(links, k - 1, b, a));
            } else if joined_by(links, k - 1, a, u) && joined_by(links, k - 1, v, b) {
                assert(joined_by(links, k - 1, b, v) && joined_by(links, k - 1, u, a));
            } else {
                assert(joined_by(links, k - 1, b, u) && joined_by(links, k - 1, v, a));
            }
        }
        assert forall|a: int, b: int, c: int|
            #[trigger] joined_by(links, k, a, b) && #[trigger] joined_by(links, k, b, c)
                implies joined_by(links, k, a, c) by {
            let j = |x: int, y: int| joined_by(links, k - 1, x, y);
            assert(joined_by(links, k, a, b) == (j(a, b) || (j(a, u) && j(v, b)) || (j(a, v) && j(
                u,
                b,
            ))));
            assert(joined_by(links, k, b, c) == (j(b, c) || (j(b, u) && j(v, c)) || (j(b, v) && j(
                u,
                c,
            ))));
            assert(joined_by(links, k, a, c) == (j(a, c) || (j(a, u) && j(v, c)) || (j(a, v) && j(
                u,
                c,
            ))));
            assert(j(u, u) && j(v, v));
            if j(a, b) && j(b, c) {
                assert(j(a, c));
            } else if j(a, b) && j(b, u) && j(v, c) {
                assert(j(a, u));
            } else if j(a, b) && j(b, v) && j(u, c) {
                assert(j(a, v));
            } else if j(a, u) && j(v, b) && j(b, c) {
                assert(j(v, c));
            } else if j(a, u) && j(v, b) && j(b, u) && j(v, c) {
            } else if j(a, u) && j(v, b) && j(b, v) && j(u, c) {
                assert(j(a, c));
            } else if j(a, v) && j(u, b) && j(b, c) {
                assert(j(u, c));
            } else if j(a, v) && j(u, b) && j(b, u) && j(v, c) {
                assert(j(a, c));
            } else {
                assert(j(a, v) && j(u, b) && j(b, v) && j(u, c));
            }
        }
    }
}

/// Links added after the first `k` do not change who the first `k` join.
proof fn lemma_joined_prefix(links: Seq<(usize, usize)>, more: Seq<(usize, usize)>, k: int, a: int, b: int)
    requires
        0 <= k <= links.len(),
    ensures
        joined_by(links + more, k, a, b) == joined_by(links, k, a, b),
    decreases k,
{
    if k > 0 {
        let u = links[k - 1].0 as int;
        let v = links[k - 1].1 as int;
        assert((links + more)[k - 1] == links[k - 1]);
        lemma_joined_prefix(links, more, k - 1, a, b);
        lemma_joined_prefix(links, more, k - 1, a, u);
        lemma_joined_prefix(links, more, k - 1, v, b);
        lemma_joined_prefix(links, more, k - 1, a, v);
        lemma_joined_prefix(links, more, k - 1, u, b);
    }
}

proof fn lemma_cluster_count_grows(links: Seq<(usize, usize)>, e: (usize, usize), i: int, m: int)
    ensures
        cluster_count(links.push(e), i, m) >= cluster_count(links, i, m),
    decreases m,
{
    if m > 0 {
        lemma_cluster_count_grows(links, e, i, m - 1);
        assert(links.push(e) == links + seq![e]);
        lemma_joined_prefix(links, seq![e], links.len() as int, i, m - 1);
    }
}

proof fn lemma_largest_among_grows(links: Seq<(usize, usize)>, e: (usize, usize), n: int, m: int)
    ensures
        largest_among(links.push(e), n, m) >= largest_among(links, n, m),
    decreases m,
{
    if m > 0 {
        lemma_largest_among_grows(links, e, n, m - 1);
        lemma_cluster_count_grows(links, e, m - 1, n);
    }
}

/// Putting up one more link never shrinks the largest network.
pub proof fn lemma_new_link_never_shrinks(links: Seq<(usize, usize)>, e: (usize, usize), n: int)
    ensures
        largest_cluster(links.push(e), n) >= largest_cluster(links, n),
{
    lemma_largest_among_grows(links, e, n, n);
}

proof fn lemma_cluster_count_bounds(links: Seq<(usize, usize)>, i: int, m: int)
    ensures
        cluster_count(links, i, m) <= if m > 0 { m } else { 0 },
        0 <= i < m ==> cluster_count(links, i, m) >= 1,
    decreases m,
{
    if m > 0 {
        lemma_cluster_count_bounds(links, i, m - 1);
        if i == m - 1 {
            lemma_joined_is_equivalence(links, links.len() as int);
            assert(joined(links, i, i));
        }
    }
}

proof fn lemma_largest_among_bounds(links: Seq<(usize, usize)>, n: int, m: int)
    ensures
        largest_among(links, n, m) <= if n > 0 { n } else { 0 },
        0 < m <= n ==> largest_among(links, n, m) >= 1,
    decreases m,
{
    if m > 0 {
        lemma_largest_among_bounds(links, n, m - 1);
        lemma_cluster_count_bounds(links, m - 1, n);
    }
}

/// With no speakers there is no network; with some, the largest network holds
/// at least one speaker and at most all of them.
pub proof fn lemma_largest_cluster_bounds(links: Seq<(usize, usize)>, n: int)
    requires
        n >= 0,
    ensures
        largest_cluster(links, n) <= n,
        n > 0 ==> largest_cluster(links, n) >= 1,
{
    lemma_largest_among_bounds(links, n, n);
}

// ---------------------------------------------------------------------------
// The network
// ---------------------------------------------------------------------------

/// Row `i` of the link list: `(i, j')` for each `i < j' < j` that is in range.
pub open spec fn row_links(close: Seq<Seq<bool>>, i: int, j: int) -> Seq<(usize, usize)>
    decreases j - i,
{
    if j <= i + 1 {
        seq![]
    } else {
        row_links(close, i, j - 1) + if close[i][j - 1] {
            seq![(i as usize, (j - 1) as usize)]
        } else {
            seq![]
        }
    }
}

/// Every in-range pair `(i, j)` with `i < j` and `i` below `m`, row by row.
pub open spec fn links_through(close: Seq<Seq<bool>>, m: int) -> Seq<(usize, usize)>
    decreases m,
{
    if m <= 0 {
        seq![]
    } else {
        links_through(close, m - 1) + row_links(close, m - 1, close.len() as int)
    }
}

/// The link list of a set of speakers: every pair `(i, j)`, `i < j`, whose
/// zones touch (`close[i][j]`), in row order.
pub open spec fn network_links(close: Seq<Seq<bool>>) -> Seq<(usize, usize)> {
    links_through(close, close.len() as int)
}

/// `close` says, for every ordered pair of speakers, whether their centres are
/// within linking range; it is square.
pub open spec fn is_square(close: Seq<Seq<bool>>) -> bool {
    forall|i: int| 0 <= i < close.len() ==> (#[trigger] close[i]).len() == close.len()
}

/// The loudspeaker network: the size of the largest connected cluster, and the
/// speaker pairs that are linked (drawn as beams).
pub struct SpeakerNet {
    pub largest: usize,
    pub links: Vec<(usize, usize)>,
}

impl SpeakerNet {
    /// The network before any loudspeaker stands.
    pub fn empty() -> (net: SpeakerNet)
        ensures
            net.largest == 0,
            net.links@.len() == 0,
    {
        SpeakerNet { largest: 0, links: Vec::new() }
    }

    /// Recompute the network from which speakers are in linking range of
    /// which: every in-range pair is a link, and `largest` is the size of the
    /// biggest group the links connect.
    pub fn from_ranges(close: &Vec<Vec<bool>>) -> (net: SpeakerNet)
        requires
            is_square(close.deep_view()),
        ensures
            net.links@ == network_links(close.deep_view()),
            net.largest == largest_cluster(net.links@, close@.len() as int),
    {
        let ghost c = close.deep_view();
        let n = close.len();
        let mut links: Vec<(usize, usize)> = Vec::new();
        let mut i: usize = 0;
        while i < n
            invariant
                n == close@.len(),
                c == close.deep_view(),
                is_square(c),
                0 <= i <= n,
                links@ == links_through(c, i as int),
                forall|k: int|
                    0 <= k < links@.len() ==> (#[trigger] links@[k]).0 < links@[k].1 && links@[k].1
                        < n,
            decreases n - i,
        {
            let ghost start = links@;
            let row = &close[i];
            assert(row@.len() == n) by {
                assert(c[i as int].len() == n);
            }
            let mut j: usize = i + 1;
            while j < n
                invariant
                    n == close@.len(),
                    c == close.deep_view(),
                    row@ == c[i as int],
                    row@.len() == n,
                    0 <= i < n,
                    i + 1 <= j <= n,
                    links@ == start + row_links(c, i as int, j as int),
                    forall|k: int|
                        0 <= k < links@.len() ==> (#[trigger] links@[k]).0 < links@[k].1
                            && links@[k].1 < n,
                decreases n - j,
            {
                if row[j] {
                    links.push((i, j));
                }
                assert(links@ == start + row_links(c, i as int, j + 1));
                j = j + 1;
            }
            i = i + 1;
        }
        assert(links_in_range(links@, n as int));
        let largest = largest_network(n, &links);
        SpeakerNet { largest, links }
    }

    /// Has the network grown big enough to raise the stage on?
    pub fn stage_ready(&self) -> (r: bool)
        ensures
            r == (self.largest >= SPEAKERS_TO_LINK),
    {
        self.largest >= SPEAKERS_TO_LINK
    }
}

/// How loud the music bed sits, in ten-thousandths, for the secured zones
/// (`true` for each stage-sized one): 0.1375 per zone up to four, 0.35 more
/// once a stage stands, at most 0.95.
pub open spec fn music_level_of(zones: Seq<bool>) -> int {
    let n = if zones.len() < 4 { zones.len() as int } else { 4 };
    let staged = exists|i: int| 0 <= i < zones.len() && #[trigger] zones[i];
    let level = n * 1375 + if staged { 3500int } else { 0int };
    if level > 9500 {
        9500
    } else {
        level
    }
}

/// Securing more ground never quietens the music: adding a zone, of either
/// size, never lowers the level.
pub proof fn lemma_music_never_drops(zones: Seq<bool>, more: bool)
    ensures
        music_level_of(zones) <= music_level_of(zones.push(more)),
{
    let after = zones.push(more);
    if exists|i: int| 0 <= i < zones.len() && #[trigger] zones[i] {
        let i = choose|i: int| 0 <= i < zones.len() && #[trigger] zones[i];
        assert(after[i]);
    }
}

/// How loud the music bed sits for the secured zones, in ten-thousandths.
pub fn music_level(zones: &Vec<bool>) -> (r: u32)
    ensures
        r == music_level_of(zones@),
{
    let mut staged = false;
    let mut i: usize = 0;
    while i < zones.len()
        invariant
            0 <= i <= zones@.len(),
            staged == exists|j: int| 0 <= j < i && #[trigger] zones@[j],
        decreases zones@.len() - i,
    {
        staged = staged || zones[i];
        i = i + 1;
    }
    let n: u32 = if zones.len() < 4 { zones.len() as u32 } else { 4 };
    let level: u32 = n * 1375 + if staged { 3500 } else { 0 };
    if level > 9500 {
        9500
    } else {
        level
    }
}

// ---------------------------------------------------------------------------
// Following the host's zones
// ---------------------------------------------------------------------------

/// The structure standing in a secured zone: a stage for a stage-sized zone,
/// otherwise a loudspeaker.
pub open spec fn zone_structure(is_stage: bool) -> StructureKind {
    if is_stage {
        StructureKind::Stage
    } else {
        StructureKind::Speaker
    }
}

/// What a client raises when it has already raised `realised` of the host's
/// zones: a structure for each zone past that count, in order.
pub open spec fn raised_from(realised: int, zones: Seq<bool>) -> Seq<StructureKind> {
    if 0 <= realised < zones.len() {
        zones.subrange(realised, zones.len() as int).map_values(|b: bool| zone_structure(b))
    } else {
        Seq::empty()
    }
}

/// How many zones a client has raised once it has caught up.
pub open spec fn realised_after(realised: int, zones: Seq<bool>) -> int {
    if realised < zones.len() {
        zones.len() as int
    } else {
        realised
    }
}

/// Catch a client up with the host's zone list (append-only on the host):
/// given how many zones were already raised and, for each zone, whether it is
/// stage-sized, the structures still to raise and the new count.
pub fn zones_to_raise(realised: usize, zones: &Vec<bool>) -> (r: (Vec<StructureKind>, usize))
    ensures
        r.0@ == raised_from(realised as int, zones@),
        r.1 == realised_after(realised as int, zones@),
{
    let mut out: Vec<StructureKind> = Vec::new();
    let mut i: usize = realised;
    let n = zones.len();
    if i >= n {
        return (out, realised);
    }
    while i < n
        invariant
            n == zones@.len(),
            realised <= i <= n,
            out@ == zones@.subrange(realised as int, i as int).map_values(
                |b: bool| zone_structure(b),
            ),
        decreases n - i,
    {
        let k = if zones[i] {
            StructureKind::Stage
        } else {
            StructureKind::Speaker
        };
        out.push(k);
        i = i + 1;
        assert(out@ =~= zones@.subrange(realised as int, i as int).map_values(
            |b: bool| zone_structure(b),
        ));
    }
    (out, n)
}

/// Each of the host's zones is raised exactly once: catching up twice raises
/// nothing the second time, and catching up before and after the host adds
/// zones raises, in all, what one catch-up at the end would have.
pub proof fn lemma_zones_raised_once(realised: int, zones: Seq<bool>, more: Seq<bool>)
    requires
        0 <= realised,
    ensures
        raised_from(realised_after(realised, zones), zones) == Seq::<StructureKind>::empty(),
        realised <= zones.len() ==> raised_from(realised, zones) + raised_from(
            realised_after(realised, zones),
            zones + more,
        ) == raised_from(realised, zones + more),
        realised_after(realised_after(realised, zones), zones + more) == realised_after(
            realised,
            zones + more,
        ),
{
    let all = zones + more;
    let f = |b: bool| zone_structure(b);
    if realised <= zones.len() {
        let caught = realised_after(realised, zones);
        assert(caught == zones.len());
        let left = raised_from(realised, zones);
        let right = raised_from(caught, all);
        let whole = raised_from(realised, all);
        if realised < all.len() {
            assert(left + right =~= whole) by {
                assert(whole.len() == all.len() - realised);
                assert forall|i: int| 0 <= i < whole.len() implies (left + right)[i] == whole[i] by {
                    if i < zones.len() - realised {
                        assert(all[realised + i] == zones[realised + i]);
                    } else {
                        assert(all[realised + i] == more[realised + i - zones.len()]);
                    }
                }
            }
        } else {
            assert(left =~= Seq::<StructureKind>::empty());
            assert(right =~= Seq::<StructureKind>::empty());
        }
    }
}

} // verus!
