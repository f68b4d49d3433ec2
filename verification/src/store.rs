//! The entity store: a table of slots, each slot an optional set of
//! components plus a generation counter. Structural changes made while
//! systems run (creates, deletes, the deflection tag) are buffered and
//! applied by `commit` at the end of the frame, so no system observes a
//! half-created or half-deleted entity.
use vstd::prelude::*;

use crate::components::{
    AnimatedSprite, Bullet, ColorRect, Deflected, Enemy, EnemyTuple, EntityId, Player, PlayerTuple,
    Position, Sprite, Star, Velocity, HP, Hitbox,
};

verus! {

/// The full set of components an entity may carry. `star` and `deflected`
/// are marker components: their presence is the whole datum.
#[derive(Clone, Copy, Debug, PartialEq, Eq, Structural)]
pub struct ComponentSet {
    pub position: Option<Position>,
    pub velocity: Option<Velocity>,
    pub hp: Option<HP>,
    pub hitbox: Option<Hitbox>,
    pub bullet: Option<Bullet>,
    pub player: Option<Player>,
    pub enemy: Option<Enemy>,
    pub sprite: Option<Sprite>,
    pub color_rect: Option<ColorRect>,
    pub animated_sprite: Option<AnimatedSprite>,
    pub star: Option<Star>,
    pub deflected: Option<Deflected>,
}

impl ComponentSet {
    /// A component set with nothing attached.
    pub fn empty() -> (r: ComponentSet)
        ensures
            r == ComponentSet::empty_spec(),
    {
        ComponentSet {
            position: None,
            velocity: None,
            hp: None,
            hitbox: None,
            bullet: None,
            player: None,
            enemy: None,
            sprite: None,
            color_rect: None,
            animated_sprite: None,
            star: None,
            deflected: None,
        }
    }

    pub open spec fn empty_spec() -> ComponentSet {
        ComponentSet {
            position: None,
            velocity: None,
            hp: None,
            hitbox: None,
            bullet: None,
            player: None,
            enemy: None,
            sprite: None,
            color_rect: None,
            animated_sprite: None,
            star: None,
            deflected: None,
        }
    }
}

/// One row of the entity table.
#[derive(Clone, Copy, Debug, PartialEq, Eq, Structural)]
pub struct Slot {
    pub generation: u64,
    pub alive: bool,
    pub comps: ComponentSet,
}

/// Why a store operation was refused.
#[derive(Clone, Copy, Debug, PartialEq, Eq, Structural)]
pub enum StoreError {
    EntityNotFound,
}

/// `id` names a live entity: the index is in range, the generation matches,
/// and the slot has not been deleted.
pub open spec fn id_valid(slots: Seq<Slot>, id: EntityId) -> bool {
    &&& (id.index as int) < slots.len()
    &&& slots[id.index as int].generation == id.generation
    &&& slots[id.index as int].alive
}

/// The identity of slot `i`.
pub open spec fn id_of(slots: Seq<Slot>, i: int) -> EntityId {
    EntityId { index: i as usize, generation: slots[i].generation }
}

/// Index of the first dead slot at or after `i`, or the length if all slots
/// from `i` on are alive.
pub open spec fn first_free(slots: Seq<Slot>, i: int) -> int
    decreases slots.len() - i,
{
    if i < 0 || i >= slots.len() {
        slots.len() as int
    } else if !slots[i].alive {
        i
    } else {
        first_free(slots, i + 1)
    }
}

/// The slot table after creating an entity with components `c`: the first
/// dead slot is reused (keeping its generation, already advanced when it was
/// deleted), or a fresh slot is appended.
pub open spec fn created_slots(slots: Seq<Slot>, c: ComponentSet) -> Seq<Slot> {
    let i = first_free(slots, 0);
    if 0 <= i < slots.len() {
        slots.update(i, Slot { generation: slots[i].generation, alive: true, comps: c })
    } else {
        slots.push(Slot { generation: 0, alive: true, comps: c })
    }
}

/// The identity the next created entity receives.
pub open spec fn created_id(slots: Seq<Slot>) -> EntityId {
    let i = first_free(slots, 0);
    if 0 <= i < slots.len() {
        EntityId { index: i as usize, generation: slots[i].generation }
    } else {
        EntityId { index: slots.len() as usize, generation: 0 }
    }
}

/// The slot table after deleting `id`: the slot dies and its generation
/// advances, so stale handles to it miss. Deleting an absent entity changes
/// nothing.
pub open spec fn deleted_slots(slots: Seq<Slot>, id: EntityId) -> Seq<Slot> {
    if id_valid(slots, id) {
        let i = id.index as int;
        slots.update(
            i,
            Slot {
                generation: (slots[i].generation + 1) as u64,
                alive: false,
                comps: slots[i].comps,
            },
        )
    } else {
        slots
    }
}

/// The slot table after attaching the deflection marker to `id`, if it still
/// names a live entity.
pub open spec fn deflected_slots(slots: Seq<Slot>, id: EntityId) -> Seq<Slot> {
    if id_valid(slots, id) {
        let i = id.index as int;
        slots.update(
            i,
            Slot {
                generation: slots[i].generation,
                alive: slots[i].alive,
                comps: ComponentSet { deflected: Some(Deflected), ..slots[i].comps },
            },
        )
    } else {
        slots
    }
}

/// The first `n` queued deflection tags applied in order.
pub open spec fn deflects_applied(slots: Seq<Slot>, ids: Seq<EntityId>, n: int) -> Seq<Slot>
    decreases n,
{
    if n <= 0 {
        slots
    } else {
        deflected_slots(deflects_applied(slots, ids, n - 1), ids[n - 1])
    }
}

/// The first `n` queued deletions applied in order.
pub open spec fn deletes_applied(slots: Seq<Slot>, ids: Seq<EntityId>, n: int) -> Seq<Slot>
    decreases n,
{
    if n <= 0 {
        slots
    } else {
        deleted_slots(deletes_applied(slots, ids, n - 1), ids[n - 1])
    }
}

/// The first `n` queued creations applied in order.
pub open spec fn creates_applied(slots: Seq<Slot>, cs: Seq<ComponentSet>, n: int) -> Seq<Slot>
    decreases n,
{
    if n <= 0 {
        slots
    } else {
        created_slots(creates_applied(slots, cs, n - 1), cs[n - 1])
    }
}

/// What `commit` leaves in the slot table: queued deflection tags, then
/// queued deletions, then queued creations, each in the order queued.
pub open spec fn committed_slots(
    slots: Seq<Slot>,
    deflects: Seq<EntityId>,
    deletes: Seq<EntityId>,
    creates: Seq<ComponentSet>,
) -> Seq<Slot> {
    creates_applied(
        deletes_applied(deflects_applied(slots, deflects, deflects.len() as int), deletes, deletes.len() as int),
        creates,
        creates.len() as int,
    )
}

/// The entity table plus the per-frame buffers of deferred structural
/// changes.
pub struct Store {
    pub slots: Vec<Slot>,
    pub pending_creates: Vec<ComponentSet>,
    pub pending_deletes: Vec<EntityId>,
    pub pending_deflects: Vec<EntityId>,
}

impl Store {
    pub fn new() -> (r: Store)
        ensures
            r.slots@ == Seq::<Slot>::empty(),
            r.pending_creates@ == Seq::<ComponentSet>::empty(),
            r.pending_deletes@ == Seq::<EntityId>::empty(),
            r.pending_deflects@ == Seq::<EntityId>::empty(),
    {
        let r = Store {
            slots: Vec::new(),
            pending_creates: Vec::new(),
            pending_deletes: Vec::new(),
            pending_deflects: Vec::new(),
        };
        proof {
            assert(r.slots@ =~= Seq::<Slot>::empty());
            assert(r.pending_creates@ =~= Seq::<ComponentSet>::empty());
            assert(r.pending_deletes@ =~= Seq::<EntityId>::empty());
            assert(r.pending_deflects@ =~= Seq::<EntityId>::empty());
        }
        r
    }

    /// Whether `id` names a live entity.
    pub fn contains(&self, id: EntityId) -> (r: bool)
        ensures
            r == id_valid(self.slots@, id),
    {
        id.index < self.slots.len() && self.slots[id.index].generation == id.generation
            && self.slots[id.index].alive
    }

    /// Create an entity immediately and return its identity.
    #[verifier::loop_isolation(false)]
    pub fn create_entity(&mut self, comps: ComponentSet) -> (id: EntityId)
        ensures
            final(self).slots@ == created_slots(old(self).slots@, comps),
            id == created_id(old(self).slots@),
            id_valid(final(self).slots@, id),
            final(self).slots@[id.index as int].comps == comps,
            final(self).pending_creates@ == old(self).pending_creates@,
            final(self).pending_deletes@ == old(self).pending_deletes@,
            final(self).pending_deflects@ == old(self).pending_deflects@,
    {
        let ghost slots0 = self.slots@;
        let n = self.slots.len();
        let mut i: usize = 0;
        while i < n && self.slots[i].alive
            invariant
                0 <= i <= n,
                n == self.slots@.len(),
                self.slots@ == slots0,
                forall|j: int| 0 <= j < i ==> slots0[j].alive,
            decreases n - i,
        {
            i = i + 1;
        }
        proof {
            lemma_first_free_skip(slots0, i as int);
        }
        if i < n {
            let generation = self.slots[i].generation;
            self.slots[i] = Slot { generation, alive: true, comps };
            EntityId { index: i, generation }
        } else {
            self.slots.push(Slot { generation: 0, alive: true, comps });
            EntityId { index: i, generation: 0 }
        }
    }

    /// Delete an entity immediately. Fails, changing nothing, if `id` no
    /// longer names a live entity.
    pub fn delete_entity(&mut self, id: EntityId) -> (r: Result<(), StoreError>)
        requires
            id_valid(old(self).slots@, id) ==> old(self).slots@[id.index as int].generation
                < u64::MAX,
        ensures
            final(self).slots@ == deleted_slots(old(self).slots@, id),
            r is Ok <==> id_valid(old(self).slots@, id),
            final(self).pending_creates@ == old(self).pending_creates@,
            final(self).pending_deletes@ == old(self).pending_deletes@,
            final(self).pending_deflects@ == old(self).pending_deflects@,
    {
        if self.contains(id) {
            let i = id.index;
            let s = self.slots[i];
            self.slots[i] = Slot { generation: s.generation + 1, alive: false, comps: s.comps };
            Ok(())
        } else {
            Err(StoreError::EntityNotFound)
        }
    }

    /// Buffer an entity creation for the end of the frame.
    pub fn queue_create(&mut self, comps: ComponentSet)
        ensures
            final(self).pending_creates@ == old(self).pending_creates@.push(comps),
            final(self).slots@ == old(self).slots@,
            final(self).pending_deletes@ == old(self).pending_deletes@,
            final(self).pending_deflects@ == old(self).pending_deflects@,
    {
        self.pending_creates.push(comps);
    }

    /// Buffer an entity deletion for the end of the frame. Fails, queueing
    /// nothing, if `id` does not currently name a live entity.
    pub fn queue_delete(&mut self, id: EntityId) -> (r: Result<(), StoreError>)
        ensures
            r is Ok <==> id_valid(old(self).slots@, id),
            final(self).pending_deletes@ == if id_valid(old(self).slots@, id) {
                old(self).pending_deletes@.push(id)
            } else {
                old(self).pending_deletes@
            },
            final(self).slots@ == old(self).slots@,
            final(self).pending_creates@ == old(self).pending_creates@,
            final(self).pending_deflects@ == old(self).pending_deflects@,
    {
        if self.contains(id) {
            self.pending_deletes.push(id);
            Ok(())
        } else {
            Err(StoreError::EntityNotFound)
        }
    }

    /// Buffer attaching the deflection marker to `id` for the end of the
    /// frame; a tag whose entity has meanwhile died is dropped at commit.
    pub fn queue_deflect(&mut self, id: EntityId)
        ensures
            final(self).pending_deflects@ == old(self).pending_deflects@.push(id),
            final(self).slots@ == old(self).slots@,
            final(self).pending_creates@ == old(self).pending_creates@,
            final(self).pending_deletes@ == old(self).pending_deletes@,
    {
        self.pending_deflects.push(id);
    }

    /// Apply every buffered structural change: deflection tags, then
    /// deletions, then creations, each in the order queued. The buffers are
    /// left empty.
    #[verifier::loop_isolation(false)]
    pub fn commit(&mut self)
        requires
            forall|j: int|
                0 <= j < old(self).slots@.len() ==> (#[trigger] old(self).slots@[j]).generation
                    < u64::MAX,
        ensures
            final(self).slots@ == committed_slots(
                old(self).slots@,
                old(self).pending_deflects@,
                old(self).pending_deletes@,
                old(self).pending_creates@,
            ),
            final(self).pending_creates@ == Seq::<ComponentSet>::empty(),
            final(self).pending_deletes@ == Seq::<EntityId>::empty(),
            final(self).pending_deflects@ == Seq::<EntityId>::empty(),
    {
        let ghost slots0 = self.slots@;
        let ghost deflects0 = self.pending_deflects@;
        let ghost deletes0 = self.pending_deletes@;
        let ghost creates0 = self.pending_creates@;

        let n_deflects = self.pending_deflects.len();
        let mut i: usize = 0;
        while i < n_deflects
            invariant
                0 <= i <= n_deflects,
                n_deflects == deflects0.len(),
                self.pending_deflects@ == deflects0,
                self.pending_creates@ == creates0,
                self.pending_deletes@ == deletes0,
                self.slots@ == deflects_applied(slots0, deflects0, i as int),
                self.slots@.len() == slots0.len(),
                forall|j: int|
                    0 <= j < slots0.len() ==> (#[trigger] self.slots@[j]).generation
                        == slots0[j].generation && self.slots@[j].alive == slots0[j].alive,
            decreases n_deflects - i,
        {
            let id = self.pending_deflects[i];
            if self.contains(id) {
                let k = id.index;
                let s = self.slots[k];
                self.slots[k] = Slot {
                    generation: s.generation,
                    alive: s.alive,
                    comps: ComponentSet { deflected: Some(Deflected), ..s.comps },
                };
            }
            i = i + 1;
        }

        let ghost slots1 = self.slots@;
        let n_deletes = self.pending_deletes.len();
        let mut i: usize = 0;
        while i < n_deletes
            invariant
                0 <= i <= n_deletes,
                n_deletes == deletes0.len(),
                self.pending_deflects@ == deflects0,
                self.pending_creates@ == creates0,
                self.pending_deletes@ == deletes0,
                self.slots@ == deletes_applied(slots1, deletes0, i as int),
                self.slots@.len() == slots1.len(),
                forall|j: int|
                    0 <= j < slots1.len() ==> (#[trigger] self.slots@[j]).alive
                        ==> self.slots@[j].generation == slots1[j].generation,
                forall|j: int|
                    0 <= j < slots1.len() ==> (#[trigger] self.slots@[j]).generation
                        <= slots1[j].generation + 1,
            decreases n_deletes - i,
        {
            let id = self.pending_deletes[i];
            if self.contains(id) {
                let k = id.index;
                let s = self.slots[k];
                assert(s.generation == slots1[k as int].generation);
                assert(slots1[k as int].generation == slots0[k as int].generation);
                self.slots[k] = Slot {
                    generation: s.generation + 1,
                    alive: false,
                    comps: s.comps,
                };
            }
            i = i + 1;
        }

        let ghost slots2 = self.slots@;
        let n_creates = self.pending_creates.len();
        let mut i: usize = 0;
        while i < n_creates
            invariant
                0 <= i <= n_creates,
                n_creates == creates0.len(),
                self.pending_deflects@ == deflects0,
                self.pending_creates@ == creates0,
                self.pending_deletes@ == deletes0,
                self.slots@ == creates_applied(slots2, creates0, i as int),
                slots2.len() <= self.slots@.len() <= slots2.len() + i,
            decreases n_creates - i,
        {
            let c = self.pending_creates[i];
            let ghost prev = self.slots@;
            let _ = self.create_entity(c);
            proof {
                assert(self.slots@ == created_slots(prev, c));
                assert(self.slots@.len() <= prev.len() + 1);
            }
            i = i + 1;
        }

        self.pending_creates.clear();
        self.pending_deletes.clear();
        self.pending_deflects.clear();
        proof {
            assert(self.pending_creates@ =~= Seq::<ComponentSet>::empty());
            assert(self.pending_deletes@ =~= Seq::<EntityId>::empty());
            assert(self.pending_deflects@ =~= Seq::<EntityId>::empty());
        }
    }
}

/// While every slot before `k` is alive, the first free slot from 0 is the
/// first free slot from `k`.
proof fn lemma_first_free_skip(slots: Seq<Slot>, k: int)
    requires
        0 <= k <= slots.len(),
        forall|j: int| 0 <= j < k ==> (#[trigger] slots[j]).alive,
    ensures
        first_free(slots, 0) == first_free(slots, k),
    decreases k,
{
    if k > 0 {
        lemma_first_free_skip(slots, k - 1);
    }
}

/// Attach an enemy's components (and its sprite) to a new entity.
pub fn create_enemy(store: &mut Store, enemy: &EnemyTuple, sprite: Sprite) -> (id: EntityId)
    ensures
        final(store).slots@ == created_slots(old(store).slots@, enemy_components(*enemy, sprite)),
        id == created_id(old(store).slots@),
        id_valid(final(store).slots@, id),
        final(store).pending_creates@ == old(store).pending_creates@,
        final(store).pending_deletes@ == old(store).pending_deletes@,
        final(store).pending_deflects@ == old(store).pending_deflects@,
{
    let mut comps = ComponentSet::empty();
    comps.position = Some(enemy.0);
    comps.velocity = Some(enemy.1);
    comps.enemy = Some(enemy.2);
    comps.hp = Some(enemy.3);
    comps.sprite = Some(sprite);
    store.create_entity(comps)
}

/// The component set `create_enemy` attaches.
pub open spec fn enemy_components(enemy: EnemyTuple, sprite: Sprite) -> ComponentSet {
    ComponentSet {
        position: Some(enemy.0),
        velocity: Some(enemy.1),
        enemy: Some(enemy.2),
        hp: Some(enemy.3),
        sprite: Some(sprite),
        ..ComponentSet::empty_spec()
    }
}

/// Attach the player's components to a new entity.
pub fn create_player(store: &mut Store, player: PlayerTuple) -> (id: EntityId)
    ensures
        final(store).slots@ == created_slots(old(store).slots@, player_components(player)),
        id == created_id(old(store).slots@),
        id_valid(final(store).slots@, id),
        final(store).pending_creates@ == old(store).pending_creates@,
        final(store).pending_deletes@ == old(store).pending_deletes@,
        final(store).pending_deflects@ == old(store).pending_deflects@,
{
    let mut comps = ComponentSet::empty();
    comps.position = Some(player.0);
    comps.velocity = Some(player.1);
    comps.hp = Some(player.2);
    comps.sprite = Some(player.3);
    comps.player = Some(player.4);
    store.create_entity(comps)
}

/// The component set `create_player` attaches.
pub open spec fn player_components(player: PlayerTuple) -> ComponentSet {
    ComponentSet {
        position: Some(player.0),
        velocity: Some(player.1),
        hp: Some(player.2),
        sprite: Some(player.3),
        player: Some(player.4),
        ..ComponentSet::empty_spec()
    }
}

} // verus!
