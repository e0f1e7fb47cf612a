//! Scene lifecycle: the registry of spawned entities and the restart handler.
//!
//! The external simulation and presentation services are driven through plain
//! records: every body, cable constraint, trace marker and decoration the
//! controller has requested is registered here as a [`SceneEntity`]. A
//! restart despawns the whole previous generation and rebuilds the scene from
//! the current parameters; the shell forwards the registry to the services.

use vstd::prelude::*;
use crate::geometry::{solve, solver_domain, spec_solve};
use crate::params::SimulationParameters;
use crate::vec3::Vec3Milli;

verus! {

/// What a registered entity is to the external services.
#[derive(PartialEq, Eq, Structural, Clone, Copy, Debug)]
pub enum Role {
    /// A simulated body of the given mass, in milli-kilograms.
    RigidBody { mass: i64 },
    /// A pulley cable of fixed total length between two registered bodies;
    /// the entity's position is the world anchor of the pulley.
    Constraint { body_a: u64, body_b: u64, length: i64 },
    /// A visual-only sample of the traced body's position.
    TraceMarker,
    /// A visual-only fixture, such as the equilibrium-point marker.
    StaticDecoration,
}

/// One spawned object: its handle, the restart generation that created it,
/// its role, and the position it was spawned at.
#[derive(PartialEq, Eq, Structural, Clone, Copy, Debug)]
pub struct SceneEntity {
    pub id: u64,
    pub generation: u64,
    pub role: Role,
    pub position: Vec3Milli,
}

/// Whether `e` is a trace marker.
pub open spec fn is_marker(e: SceneEntity) -> bool {
    e.role is TraceMarker
}

/// Some registered rigid body carries the handle `id`.
pub open spec fn has_rigid_body(s: Seq<SceneEntity>, id: u64) -> bool {
    exists|j: int| 0 <= j < s.len() && (#[trigger] s[j]).id == id && s[j].role is RigidBody
}

/// A constraint only ever references handles of registered rigid bodies.
pub open spec fn constraint_refs_ok(s: Seq<SceneEntity>, e: SceneEntity) -> bool {
    match e.role {
        Role::Constraint { body_a, body_b, length: _ } => has_rigid_body(s, body_a)
            && has_rigid_body(s, body_b),
        _ => true,
    }
}

/// The scene registry: all live entities, the next free handle, the current
/// restart generation, and the handle of the body trace sampling follows.
pub struct Scene {
    pub entities: Vec<SceneEntity>,
    pub next_id: u64,
    pub generation: u64,
    pub traceable: Option<u64>,
}

impl Scene {
    /// Registry invariant: handles are unique and below the allocator mark,
    /// no entity outlives its generation counter, and every cable references
    /// live rigid bodies.
    pub open spec fn wf(self) -> bool {
        &&& forall|i: int, j: int|
            0 <= i < j < self.entities@.len() ==> (#[trigger] self.entities@[i]).id != (
            #[trigger] self.entities@[j]).id
        &&& forall|i: int|
            0 <= i < self.entities@.len() ==> (#[trigger] self.entities@[i]).id < self.next_id
        &&& forall|i: int|
            0 <= i < self.entities@.len() ==> (#[trigger] self.entities@[i]).generation
                <= self.generation
        &&& forall|i: int|
            0 <= i < self.entities@.len() ==> constraint_refs_ok(
                self.entities@,
                #[trigger] self.entities@[i],
            )
    }

    /// An empty scene before the first restart.
    pub fn new() -> (s: Scene)
        ensures
            s.wf(),
            s.entities@ == Seq::<SceneEntity>::empty(),
            s.next_id == 0,
            s.generation == 0,
            s.traceable is None,
    {
        Scene { entities: Vec::new(), next_id: 0, generation: 0, traceable: None }
    }

    /// Destroy every registered entity, of every role. Despawning an already
    /// empty scene is a no-op.
    pub fn despawn_all(&mut self)
        ensures
            final(self).entities@ == Seq::<SceneEntity>::empty(),
            final(self).next_id == old(self).next_id,
            final(self).generation == old(self).generation,
            final(self).traceable is None,
            final(self).wf(),
    {
        self.entities = Vec::new();
        self.traceable = None;
    }

    /// Handle one Restart command: despawn the previous generation entirely,
    /// solve the geometry for the current parameters, and register the new
    /// generation — side bodies first, then the central body, then the two
    /// cables referencing those bodies, then the equilibrium decoration. The
    /// central body becomes the traced one.
    pub fn restart(&mut self, p: &SimulationParameters)
        requires
            old(self).wf(),
            solver_domain(*p),
            old(self).next_id + 6 <= u64::MAX,
            old(self).generation < u64::MAX,
        ensures
            final(self).wf(),
            final(self).generation == old(self).generation + 1,
            final(self).next_id == old(self).next_id + 6,
            final(self).traceable == Some((old(self).next_id + 2) as u64),
            final(self).entities@ == restart_entities(
                *p,
                (old(self).generation + 1) as u64,
                old(self).next_id,
            ),
            forall|i: int|
                0 <= i < final(self).entities@.len() ==> (
                #[trigger] final(self).entities@[i]).generation == final(self).generation,
            forall|i: int|
                0 <= i < final(self).entities@.len() ==> !is_marker(
                    #[trigger] final(self).entities@[i],
                ),
    {
        self.despawn_all();
        let gen: u64 = self.generation + 1;
        self.generation = gen;
        let base: u64 = self.next_id;
        let cfg = solve(p);
        let mut v: Vec<SceneEntity> = Vec::new();
        v.push(SceneEntity {
            id: base,
            generation: gen,
            role: Role::RigidBody { mass: p.mass_side_a },
            position: cfg.side_a,
        });
        v.push(SceneEntity {
            id: base + 1,
            generation: gen,
            role: Role::RigidBody { mass: p.mass_side_b },
            position: cfg.side_b,
        });
        v.push(SceneEntity {
            id: base + 2,
            generation: gen,
            role: Role::RigidBody { mass: p.mass_central },
            position: cfg.central,
        });
        v.push(SceneEntity {
            id: base + 3,
            generation: gen,
            role: Role::Constraint { body_a: base, body_b: base + 2, length: cfg.constraint_length },
            position: cfg.pulley1,
        });
        v.push(SceneEntity {
            id: base + 4,
            generation: gen,
            role: Role::Constraint {
                body_a: base + 1,
                body_b: base + 2,
                length: cfg.constraint_length,
            },
            position: cfg.pulley2,
        });
        v.push(SceneEntity {
            id: base + 5,
            generation: gen,
            role: Role::StaticDecoration,
            position: cfg.equilibrium,
        });
        self.entities = v;
        self.next_id = base + 6;
        self.traceable = Some(base + 2);
        proof {
            assert(self.entities@ =~= restart_entities(*p, gen, base));
            assert(has_rigid_body(self.entities@, base)) by {
                assert(self.entities@[0].id == base && self.entities@[0].role is RigidBody);
            }
            assert(has_rigid_body(self.entities@, (base + 1) as u64)) by {
                assert(self.entities@[1].id == base + 1 && self.entities@[1].role is RigidBody);
            }
            assert(has_rigid_body(self.entities@, (base + 2) as u64)) by {
                assert(self.entities@[2].id == base + 2 && self.entities@[2].role is RigidBody);
            }
        }
    }
}

/// The registry with every trace marker removed and everything else kept, in
/// order.
pub open spec fn without_markers(s: Seq<SceneEntity>) -> Seq<SceneEntity>
    decreases s.len(),
{
    if s.len() == 0 {
        Seq::empty()
    } else {
        let rest = without_markers(s.drop_last());
        if is_marker(s.last()) {
            rest
        } else {
            rest.push(s.last())
        }
    }
}

/// Clearing the trace leaves no marker behind, however many had accumulated.
pub proof fn lemma_without_markers_no_markers(s: Seq<SceneEntity>)
    ensures
        forall|i: int|
            0 <= i < without_markers(s).len() ==> !is_marker(#[trigger] without_markers(s)[i]),
    decreases s.len(),
{
    if s.len() > 0 {
        let t = s.drop_last();
        lemma_without_markers_no_markers(t);
        assert forall|i: int| 0 <= i < without_markers(s).len() implies !is_marker(
            #[trigger] without_markers(s)[i],
        ) by {
            if i < without_markers(t).len() {
                assert(without_markers(s)[i] == without_markers(t)[i]);
            } else {
                assert(without_markers(s)[i] == s.last());
            }
        }
    }
}

/// Everything left after clearing the trace was already registered before.
pub proof fn lemma_without_markers_contains(s: Seq<SceneEntity>)
    ensures
        forall|x: SceneEntity| #[trigger] without_markers(s).contains(x) ==> s.contains(x),
    decreases s.len(),
{
    if s.len() > 0 {
        let t = s.drop_last();
        lemma_without_markers_contains(t);
        assert forall|x: SceneEntity| #[trigger] without_markers(s).contains(x) implies s.contains(
            x,
        ) by {
            let i = choose|i: int|
                0 <= i < without_markers(s).len() && without_markers(s)[i] == x;
            if is_marker(s.last()) {
                assert(without_markers(t).contains(x));
                let k = choose|k: int| 0 <= k < t.len() && t[k] == x;
                assert(s[k] == x);
            } else {
                if i < without_markers(t).len() {
                    assert(without_markers(t)[i] == x);
                    assert(without_markers(t).contains(x));
                    let k = choose|k: int| 0 <= k < t.len() && t[k] == x;
                    assert(s[k] == x);
                } else {
                    assert(x == s.last());
                    assert(s[s.len() - 1] == x);
                }
            }
        }
    }
}

/// Clearing the trace removes only markers: every non-marker that was
/// registered is still registered afterwards.
pub proof fn lemma_without_markers_keeps(s: Seq<SceneEntity>)
    ensures
        forall|x: SceneEntity|
            #[trigger] s.contains(x) && !is_marker(x) ==> without_markers(s).contains(x),
    decreases s.len(),
{
    if s.len() > 0 {
        let t = s.drop_last();
        lemma_without_markers_keeps(t);
        assert forall|x: SceneEntity| #[trigger] s.contains(x) && !is_marker(x) implies
            without_markers(s).contains(x) by {
            let i = choose|i: int| 0 <= i < s.len() && s[i] == x;
            if i < s.len() - 1 {
                assert(t[i] == x);
                assert(t.contains(x));
                assert(without_markers(t).contains(x));
                let k = choose|k: int|
                    0 <= k < without_markers(t).len() && without_markers(t)[k] == x;
                assert(without_markers(s)[k] == x);
            } else {
                assert(x == s.last());
                assert(without_markers(s).last() == x);
            }
        }
    }
}

/// Handle uniqueness survives clearing the trace.
pub proof fn lemma_without_markers_distinct_ids(s: Seq<SceneEntity>)
    requires
        forall|i: int, j: int| 0 <= i < j < s.len() ==> (#[trigger] s[i]).id != (#[trigger] s[j]).id,
    ensures
        forall|i: int, j: int|
            0 <= i < j < without_markers(s).len() ==> (#[trigger] without_markers(s)[i]).id != (
            #[trigger] without_markers(s)[j]).id,
    decreases s.len(),
{
    if s.len() > 0 {
        let t = s.drop_last();
        assert forall|i: int, j: int| 0 <= i < j < t.len() implies (#[trigger] t[i]).id != (
        #[trigger] t[j]).id by {
            assert(s[i] == t[i] && s[j] == t[j]);
        }
        lemma_without_markers_distinct_ids(t);
        lemma_without_markers_contains(t);
        if !is_marker(s.last()) {
            let w = without_markers(s);
            assert forall|i: int, j: int| 0 <= i < j < w.len() implies (#[trigger] w[i]).id != (
            #[trigger] w[j]).id by {
                if j == w.len() - 1 {
                    assert(w[j] == s.last());
                    assert(without_markers(t).contains(w[i]));
                    assert(t.contains(w[i]));
                    let k = choose|k: int| 0 <= k < t.len() && t[k] == w[i];
                    assert(s[k] == w[i]);
                    assert(s[k].id != s[s.len() - 1].id);
                }
            }
        }
    }
}

impl Scene {
    /// Handle one ClearTrace command: destroy every trace marker and nothing
    /// else. Issued by the settings surface and implicitly by every restart.
    pub fn clear_trace(&mut self)
        requires
            old(self).wf(),
        ensures
            final(self).wf(),
            final(self).entities@ == without_markers(old(self).entities@),
            final(self).next_id == old(self).next_id,
            final(self).generation == old(self).generation,
            final(self).traceable == old(self).traceable,
            forall|i: int|
                0 <= i < final(self).entities@.len() ==> !is_marker(
                    #[trigger] final(self).entities@[i],
                ),
    {
        let ghost s0 = self.entities@;
        let n = self.entities.len();
        let mut kept: Vec<SceneEntity> = Vec::new();
        let mut idx: usize = 0;
        while idx < n
            invariant
                idx <= n,
                n == self.entities@.len(),
                self.entities@ == s0,
                kept@ == without_markers(s0.take(idx as int)),
            decreases n - idx,
        {
            let e = self.entities[idx];
            proof {
                assert(s0.take(idx as int + 1).drop_last() =~= s0.take(idx as int));
                assert(s0.take(idx as int + 1).last() == e);
            }
            match e.role {
                Role::TraceMarker => {},
                _ => {
                    kept.push(e);
                },
            }
            idx = idx + 1;
        }
        proof {
            assert(s0.take(n as int) =~= s0);
        }
        self.entities = kept;
        proof {
            lemma_without_markers_no_markers(s0);
            lemma_without_markers_contains(s0);
            lemma_without_markers_keeps(s0);
            lemma_without_markers_distinct_ids(s0);
            let w = self.entities@;
            assert forall|i: int| 0 <= i < w.len() implies (#[trigger] w[i]).id < self.next_id
                && w[i].generation <= self.generation by {
                assert(w.contains(w[i]));
                assert(s0.contains(w[i]));
                let k = choose|k: int| 0 <= k < s0.len() && s0[k] == w[i];
                assert(old(self).wf());
            }
            assert forall|i: int| 0 <= i < w.len() implies constraint_refs_ok(
                w,
                #[trigger] w[i],
            ) by {
                assert(w.contains(w[i]));
                assert(s0.contains(w[i]));
                let k = choose|k: int| 0 <= k < s0.len() && s0[k] == w[i];
                assert(constraint_refs_ok(s0, s0[k]));
                match w[i].role {
                    Role::Constraint { body_a, body_b, length: _ } => {
                        let ja = choose|j: int|
                            0 <= j < s0.len() && (#[trigger] s0[j]).id == body_a && s0[j].role
                                is RigidBody;
                        assert(s0.contains(s0[ja]));
                        assert(w.contains(s0[ja]));
                        let ma = choose|m: int| 0 <= m < w.len() && w[m] == s0[ja];
                        assert(has_rigid_body(w, body_a));
                        let jb = choose|j: int|
                            0 <= j < s0.len() && (#[trigger] s0[j]).id == body_b && s0[j].role
                                is RigidBody;
                        assert(s0.contains(s0[jb]));
                        assert(w.contains(s0[jb]));
                        let mb = choose|m: int| 0 <= m < w.len() && w[m] == s0[jb];
                        assert(has_rigid_body(w, body_b));
                    },
                    _ => {},
                }
            }
        }
    }
}

/// The entity records one Restart registers, given the parameters, the new
/// generation number, and the first free handle.
pub open spec fn restart_entities(p: SimulationParameters, gen: u64, base: u64) -> Seq<
    SceneEntity,
> {
    let cfg = spec_solve(p);
    seq![
        SceneEntity {
            id: base,
            generation: gen,
            role: Role::RigidBody { mass: p.mass_side_a },
            position: cfg.side_a,
        },
        SceneEntity {
            id: (base + 1) as u64,
            generation: gen,
            role: Role::RigidBody { mass: p.mass_side_b },
            position: cfg.side_b,
        },
        SceneEntity {
            id: (base + 2) as u64,
            generation: gen,
            role: Role::RigidBody { mass: p.mass_central },
            position: cfg.central,
        },
        SceneEntity {
            id: (base + 3) as u64,
            generation: gen,
            role: Role::Constraint {
                body_a: base,
                body_b: (base + 2) as u64,
                length: cfg.constraint_length,
            },
            position: cfg.pulley1,
        },
        SceneEntity {
            id: (base + 4) as u64,
            generation: gen,
            role: Role::Constraint {
                body_a: (base + 1) as u64,
                body_b: (base + 2) as u64,
                length: cfg.constraint_length,
            },
            position: cfg.pulley2,
        },
        SceneEntity {
            id: (base + 5) as u64,
            generation: gen,
            role: Role::StaticDecoration,
            position: cfg.equilibrium,
        },
    ]
}

/// A restart fully clears the previous generation: nothing spawned under an
/// earlier generation number is among the records a restart registers.
pub proof fn lemma_restart_clears_previous_generation(
    p: SimulationParameters,
    gen: u64,
    base: u64,
    e: SceneEntity,
)
    requires
        e.generation < gen,
    ensures
        !restart_entities(p, gen, base).contains(e),
{
    let s = restart_entities(p, gen, base);
    assert forall|i: int| 0 <= i < s.len() implies s[i] != e by {
        assert(s[i].generation == gen);
    }
}

/// Two entities that look the same to the external services: same role kind,
/// same mass or cable length, and the same spawn position; only handles and
/// generation numbers may differ.
pub open spec fn same_shape(a: SceneEntity, b: SceneEntity) -> bool {
    &&& a.position == b.position
    &&& match (a.role, b.role) {
        (Role::RigidBody { mass: ma }, Role::RigidBody { mass: mb }) => ma == mb,
        (
            Role::Constraint { body_a: _, body_b: _, length: la },
            Role::Constraint { body_a: _, body_b: _, length: lb },
        ) => la == lb,
        (Role::TraceMarker, Role::TraceMarker) => true,
        (Role::StaticDecoration, Role::StaticDecoration) => true,
        _ => false,
    }
}

/// Restart is idempotent under repetition: with unchanged parameters, the
/// scene a second restart builds has the same entity count and, record for
/// record, the same geometry as the scene the first one built — only the
/// fresh handles and the generation number differ.
pub proof fn lemma_restart_idempotent(
    p: SimulationParameters,
    gen1: u64,
    base1: u64,
    gen2: u64,
    base2: u64,
)
    ensures
        restart_entities(p, gen1, base1).len() == restart_entities(p, gen2, base2).len(),
        forall|i: int|
            0 <= i < restart_entities(p, gen1, base1).len() ==> same_shape(
                #[trigger] restart_entities(p, gen1, base1)[i],
                restart_entities(p, gen2, base2)[i],
            ),
{
}

} // verus!
