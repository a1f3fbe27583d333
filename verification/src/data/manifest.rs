use crate::table::Table;
use vstd::prelude::*;
use vstd::string::*;

verus! {

/// The part an NPC plays.
#[derive(Debug, Clone, Copy, PartialEq, Eq, Structural)]
pub enum NpcKind {
    Enemy,
    QuestGiver,
    Dialogue,
    Normal,
}

impl Default for NpcKind {
    fn default() -> (r: Self)
        ensures
            r == NpcKind::Normal,
    {
        NpcKind::Normal
    }
}

/// How an NPC is shown.
#[derive(Debug)]
pub struct NpcEntry {
    pub name: String,
    pub kind: NpcKind,
    pub image_path: Option<String>,
    pub image_paths: Option<Vec<String>>,
    pub frame_ms: Option<u64>,
}

/// How an item is shown.
#[derive(Debug)]
pub struct ItemEntry {
    pub name: String,
    pub description: String,
    pub image_path: Option<String>,
}

/// How a room is shown.
#[derive(Debug)]
pub struct RoomEntry {
    pub image_path: Option<String>,
    pub direction: Option<char>,
}

/// The display data of NPCs, items and rooms, by identifier.
#[derive(Debug)]
pub struct Manifest {
    pub npcs: Table<NpcEntry>,
    pub items: Table<ItemEntry>,
    pub rooms: Table<RoomEntry>,
}

impl Manifest {
    /// The name under which the NPC `id` is displayed.
    pub open spec fn npc_display(&self, id: Seq<char>) -> Seq<char> {
        if self.npcs@.contains_key(id) {
            self.npcs@[id].name@
        } else {
            id
        }
    }

    /// The name under which the item `id` is displayed.
    pub open spec fn item_display(&self, id: Seq<char>) -> Seq<char> {
        if self.items@.contains_key(id) {
            self.items@[id].name@
        } else {
            id
        }
    }

    /// A manifest that describes nothing.
    pub fn new() -> (r: Self)
        ensures
            r.npcs@ == Map::<Seq<char>, NpcEntry>::empty(),
            r.items@ == Map::<Seq<char>, ItemEntry>::empty(),
            r.rooms@ == Map::<Seq<char>, RoomEntry>::empty(),
    {
        Manifest { npcs: Table::new(), items: Table::new(), rooms: Table::new() }
    }

    /// The display name of an NPC, or its identifier when the manifest lacks it.
    pub fn npc_name(&self, id: &str) -> (r: String)
        ensures
            r@ == self.npc_display(id@),
    {
        match self.npcs.get(id) {
            Some(entry) => entry.name.clone(),
            None => String::from_str(id),
        }
    }

    /// The display name of an item, or its identifier when the manifest lacks it.
    pub fn item_name(&self, id: &str) -> (r: String)
        ensures
            r@ == self.item_display(id@),
    {
        match self.items.get(id) {
            Some(entry) => entry.name.clone(),
            None => String::from_str(id),
        }
    }
}

impl Default for Manifest {
    fn default() -> (r: Self)
        ensures
            r.npcs@ == Map::<Seq<char>, NpcEntry>::empty(),
            r.items@ == Map::<Seq<char>, ItemEntry>::empty(),
            r.rooms@ == Map::<Seq<char>, RoomEntry>::empty(),
    {
        Manifest::new()
    }
}

} // verus!
