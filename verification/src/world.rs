use vstd::prelude::*;

use crate::components::{Player, Position, Renderable, RenderableV, Ringwraith};

verus! {

/// Identifies one entity of a [`World`]. Ids are dense small integers
/// handed out in creation order.
pub type EntityId = usize;

/// The entity store: one column per component type, all indexed by
/// entity id. An entity has a component exactly where its column holds
/// `Some`. Entities are never destroyed, so ids stay valid for the
/// lifetime of the store.
pub struct World {
    pub positions: Vec<Option<Position>>,
    pub renderables: Vec<Option<Renderable>>,
    pub players: Vec<Option<Player>>,
    pub wraiths: Vec<Option<Ringwraith>>,
}

impl World {
    /// All four columns cover the same set of entity ids.
    pub open spec fn wf(self) -> bool {
        &&& self.renderables@.len() == self.positions@.len()
        &&& self.players@.len() == self.positions@.len()
        &&& self.wraiths@.len() == self.positions@.len()
    }

    /// How many entities have been created so far.
    pub open spec fn num_entities(self) -> nat {
        self.positions@.len()
    }

    /// The entities with both a position and a renderable, in id order,
    /// as the render stage visits them.
    pub open spec fn render_items_upto(self, k: int) -> Seq<(EntityId, Position, RenderableV)>
        decreases k,
    {
        if k <= 0 {
            Seq::empty()
        } else {
            let rest = self.render_items_upto(k - 1);
            if self.positions@[k - 1] is Some && self.renderables@[k - 1] is Some {
                rest.push(
                    (((k - 1) as usize), self.positions@[k - 1]->0, self.renderables@[k - 1]->0@),
                )
            } else {
                rest
            }
        }
    }

    /// Every entity the render stage visits, in visiting order.
    pub open spec fn render_items(self) -> Seq<(EntityId, Position, RenderableV)> {
        self.render_items_upto(self.num_entities() as int)
    }

    /// An empty store.
    pub fn new() -> (w: World)
        ensures
            w.wf(),
            w.num_entities() == 0,
    {
        World {
            positions: Vec::new(),
            renderables: Vec::new(),
            players: Vec::new(),
            wraiths: Vec::new(),
        }
    }

    /// Allocates a fresh entity id and attaches the given components to
    /// it. Never fails; existing entities are untouched.
    pub fn create_entity(
        &mut self,
        pos: Option<Position>,
        rend: Option<Renderable>,
        player: Option<Player>,
        wraith: Option<Ringwraith>,
    ) -> (id: EntityId)
        requires
            old(self).wf(),
        ensures
            final(self).wf(),
            id == old(self).num_entities(),
            final(self).num_entities() == old(self).num_entities() + 1,
            final(self).positions@ == old(self).positions@.push(pos),
            final(self).renderables@ =~= old(self).renderables@.push(rend),
            final(self).players@ == old(self).players@.push(player),
            final(self).wraiths@ == old(self).wraiths@.push(wraith),
    {
        let id = self.positions.len();
        self.positions.push(pos);
        self.renderables.push(rend);
        self.players.push(player);
        self.wraiths.push(wraith);
        id
    }

    /// The position component of one entity, if it has one.
    pub fn position_of(&self, id: EntityId) -> (p: Option<Position>)
        requires
            id < self.num_entities(),
        ensures
            p == self.positions@[id as int],
    {
        self.positions[id]
    }

    /// Replaces the position component of one entity, leaving every
    /// other entity and every other column unchanged. This is the
    /// mutable access the movement stage uses.
    pub fn set_position(&mut self, id: EntityId, p: Position)
        requires
            id < old(self).num_entities(),
        ensures
            final(self).positions@ == old(self).positions@.update(id as int, Some(p)),
            final(self).renderables@ == old(self).renderables@,
            final(self).players@ == old(self).players@,
            final(self).wraiths@ == old(self).wraiths@,
    {
        self.positions[id] = Some(p);
    }

    /// The join query the render stage runs: every entity that has both
    /// a position and a renderable, with copies of those components, in
    /// id order. The order is stable within one call.
    pub fn query_render(&self) -> (r: Vec<(EntityId, Position, Renderable)>)
        requires
            self.wf(),
        ensures
            r@.len() == self.render_items().len(),
            forall|j: int|
                0 <= j < r@.len() ==> {
                    &&& r@[j].0 == self.render_items()[j].0
                    &&& r@[j].1 == self.render_items()[j].1
                    &&& r@[j].2@ == self.render_items()[j].2
                },
    {
        let mut r: Vec<(EntityId, Position, Renderable)> = Vec::new();
        let n = self.positions.len();
        let mut i: usize = 0;
        while i < n
            invariant
                self.wf(),
                n == self.num_entities(),
                i <= n,
                r@.len() == self.render_items_upto(i as int).len(),
                forall|j: int|
                    0 <= j < r@.len() ==> {
                        &&& r@[j].0 == self.render_items_upto(i as int)[j].0
                        &&& r@[j].1 == self.render_items_upto(i as int)[j].1
                        &&& r@[j].2@ == self.render_items_upto(i as int)[j].2
                    },
            decreases n - i,
        {
            if self.positions[i].is_some() && self.renderables[i].is_some() {
                let p = self.positions[i].unwrap();
                let rend = match &self.renderables[i] {
                    Some(rd) => rd.clone(),
                    None => unreached(),
                };
                r.push((i, p, rend));
            }
            i += 1;
        }
        r
    }
}

} // verus!
