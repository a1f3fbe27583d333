use crate::table::Table;
use crate::text::{same_text, views};
use vstd::prelude::*;
use vstd::string::*;

verus! {

/// An image shown for a room, an NPC, or both.
#[derive(Debug)]
pub struct MappingRule {
    pub room: Option<String>,
    pub npc: Option<String>,
    pub image: String,
}

/// The image rules and display names of the scene.
#[derive(Debug)]
pub struct Manifest {
    pub mappings: Vec<MappingRule>,
    pub display_names: Table<String>,
}

/// Whether a rule may apply in `room` with `npcs` present: its room, if any, is that
/// room or `"default"`, and its NPC, if any, is present.
pub open spec fn rule_applies(rule: MappingRule, room: Seq<char>, npcs: Seq<Seq<char>>) -> bool {
    &&& (rule.room matches Some(r) ==> (r@ == room || r@ == "default"@))
    &&& (rule.npc matches Some(n) ==> npcs.contains(n@))
}

/// How closely a rule matches: one point for naming the room, one for a present NPC.
pub open spec fn rule_score(rule: MappingRule, room: Seq<char>, npcs: Seq<Seq<char>>) -> int {
    (if rule.room matches Some(r) && r@ == room { 1int } else { 0int }) + (if rule.npc matches Some(n)
        && npcs.contains(n@) {
        1int
    } else {
        0int
    })
}

/// The best score among `rules` and the image of the first rule that reaches it;
/// `(-1, None)` when no rule applies.
pub open spec fn best_image(rules: Seq<MappingRule>, room: Seq<char>, npcs: Seq<Seq<char>>) -> (
    int,
    Option<Seq<char>>,
)
    decreases rules.len(),
{
    if rules.len() == 0 {
        (-1, None)
    } else {
        let prev = best_image(rules.drop_last(), room, npcs);
        let rule = rules.last();
        if rule_applies(rule, room, npcs) && rule_score(rule, room, npcs) > prev.0 {
            (rule_score(rule, room, npcs), Some(rule.image@))
        } else {
            prev
        }
    }
}

/// Whether the rule `rule` may show its image in `room` with `npcs` present, said
/// directly: a room that it names is that room or `"default"`, and an NPC that it names is
/// present.
pub open spec fn fits(rule: MappingRule, room: Seq<char>, npcs: Seq<Seq<char>>) -> bool {
    &&& forall|r: String| rule.room == Some(r) ==> (r@ == room || r@ == "default"@)
    &&& forall|n: String| rule.npc == Some(n) ==> npcs.contains(n@)
}

/// The image chosen, if any, is that of a rule that fits the room and the NPCs present:
/// a rule for an NPC that is not there, or for another room, is never shown.
pub proof fn law_selected_image_fits(rules: Seq<MappingRule>, room: Seq<char>, npcs: Seq<Seq<char>>)
    ensures
        best_image(rules, room, npcs).1 matches Some(p) ==> exists|i: int|
            0 <= i < rules.len() && #[trigger] rules[i].image@ == p && fits(rules[i], room, npcs),
        best_image(rules, room, npcs).1 is Some <==> best_image(rules, room, npcs).0 >= 0,
    decreases rules.len(),
{
    if rules.len() > 0 {
        let rest = rules.drop_last();
        law_selected_image_fits(rest, room, npcs);
        let prev = best_image(rest, room, npcs);
        let rule = rules.last();
        if rule_applies(rule, room, npcs) && rule_score(rule, room, npcs) > prev.0 {
            assert(rules[rules.len() - 1].image@ == rule.image@);
        } else if prev.1 is Some {
            let i = choose|i: int| 0 <= i < rest.len() && #[trigger] rest[i].image@ == prev.1->0 && fits(rest[i], room, npcs);
            assert(rules[i] == rest[i]);
        }
    }
}

/// Whenever some rule fits the room and the NPCs present, an image is chosen.
pub proof fn law_image_when_a_rule_fits(rules: Seq<MappingRule>, room: Seq<char>, npcs: Seq<Seq<char>>, i: int)
    requires
        0 <= i < rules.len(),
        fits(rules[i], room, npcs),
    ensures
        best_image(rules, room, npcs).1 is Some,
    decreases rules.len(),
{
    law_selected_image_fits(rules, room, npcs);
    let rest = rules.drop_last();
    if i < rules.len() - 1 {
        assert(rest[i] == rules[i]);
        law_image_when_a_rule_fits(rest, room, npcs, i);
        law_selected_image_fits(rest, room, npcs);
    }
}

/// Whether `name` is one of `names`.
fn contains_name(names: &Vec<String>, name: &str) -> (r: bool)
    ensures
        r == views(names@).contains(name@),
{
    let mut i: usize = 0;
    while i < names.len()
        invariant
            i <= names@.len(),
            forall|j: int| 0 <= j < i ==> names@[j]@ != name@,
        decreases names@.len() - i,
    {
        if same_text(names[i].as_str(), name) {
            proof {
                assert(views(names@)[i as int] == name@);
            }
            return true;
        }
        i = i + 1;
    }
    proof {
        if views(names@).contains(name@) {
            let j = choose|j: int| 0 <= j < views(names@).len() && views(names@)[j] == name@;
            assert(names@[j]@ == name@);
        }
    }
    false
}

impl Manifest {
    /// The name under which the identifier `id` is displayed.
    pub open spec fn display_of(&self, id: Seq<char>) -> Seq<char> {
        if self.display_names@.contains_key(id) {
            self.display_names@[id]@
        } else {
            id
        }
    }

    /// A manifest with no rule and no display name.
    pub fn new() -> (r: Self)
        ensures
            r.mappings@ == Seq::<MappingRule>::empty(),
            r.display_names@ == Map::<Seq<char>, String>::empty(),
    {
        Manifest { mappings: Vec::new(), display_names: Table::new() }
    }

    /// The display name of an identifier, or the identifier itself.
    pub fn display_name(&self, id: &str) -> (r: String)
        ensures
            r@ == self.display_of(id@),
    {
        match self.display_names.get(id) {
            Some(name) => name.clone(),
            None => String::from_str(id),
        }
    }

    /// The image for `room_name` with `npcs` present: among the rules that apply, the
    /// first of those with the highest score.
    pub fn select_image(&self, room_name: &str, npcs: &Vec<String>) -> (r: Option<String>)
        ensures
            r matches Some(p) ==> best_image(self.mappings@, room_name@, views(npcs@)).1 == Some(p@),
            r is None ==> best_image(self.mappings@, room_name@, views(npcs@)).1 is None,
            r matches Some(p) ==> exists|i: int|
                0 <= i < self.mappings@.len() && #[trigger] self.mappings@[i].image@ == p@ && fits(
                    self.mappings@[i],
                    room_name@,
                    views(npcs@),
                ),
            r is None ==> forall|i: int|
                0 <= i < self.mappings@.len() ==> !fits(#[trigger] self.mappings@[i], room_name@, views(npcs@)),
    {
        let mut selected: Option<String> = None;
        let mut best_score: i64 = -1;
        let mut i: usize = 0;
        let ghost npc_names = views(npcs@);
        while i < self.mappings.len()
            invariant
                i <= self.mappings@.len(),
                npc_names == views(npcs@),
                best_score as int == best_image(self.mappings@.subrange(0, i as int), room_name@, npc_names).0,
                -1 <= best_score <= 2,
                match selected {
                    Some(p) => best_image(self.mappings@.subrange(0, i as int), room_name@, npc_names).1
                        == Some(p@),
                    None => best_image(self.mappings@.subrange(0, i as int), room_name@, npc_names).1 is None,
                },
            decreases self.mappings@.len() - i,
        {
            let rule = &self.mappings[i];
            let ghost prefix = self.mappings@.subrange(0, i + 1);
            proof {
                assert(prefix.drop_last() =~= self.mappings@.subrange(0, i as int));
                assert(prefix.last() == *rule);
            }
            let mut match_score: i64 = 0;
            let mut possible = true;
            match &rule.room {
                Some(r) => {
                    if same_text(r.as_str(), room_name) {
                        match_score = match_score + 1;
                    } else if !same_text(r.as_str(), "default") {
                        possible = false;
                    }
                },
                None => {},
            }
            match &rule.npc {
                Some(n) => {
                    if contains_name(npcs, n.as_str()) {
                        match_score = match_score + 1;
                    } else {
                        possible = false;
                    }
                },
                None => {},
            }
            proof {
                assert(possible == rule_applies(*rule, room_name@, npc_names));
                assert(match_score == rule_score(*rule, room_name@, npc_names));
            }
            if possible && match_score > best_score {
                best_score = match_score;
                selected = Some(rule.image.clone());
            }
            i = i + 1;
        }
        proof {
            assert(self.mappings@.subrange(0, self.mappings@.len() as int) =~= self.mappings@);
            law_selected_image_fits(self.mappings@, room_name@, npc_names);
            if selected is None {
                assert forall|i: int| 0 <= i < self.mappings@.len() implies !fits(
                    #[trigger] self.mappings@[i],
                    room_name@,
                    npc_names,
                ) by {
                    if fits(self.mappings@[i], room_name@, npc_names) {
                        law_image_when_a_rule_fits(self.mappings@, room_name@, npc_names, i);
                    }
                }
            }
        }
        selected
    }
}

} // verus!
