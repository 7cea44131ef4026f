//! String-keyed classification, decoded once into closed enums.
//!
//! The map document drives behavior through strings: an object's class tag
//! selects whether it is the player spawn, a portal gate or a collectable; a
//! collectable's or portal's name selects the item kinds; a tile's user type
//! selects its obstacle classification. Every comparison is case-sensitive
//! and exact, unrecognized strings map to an explicit unknown variant, and
//! the string-to-enum mapping lives here and nowhere else.

use vstd::prelude::*;

use crate::inventory::{Collectable, Inventory, Potion, Weapon};

verus! {

/// Exact string equality, by character sequence.
pub fn str_eq(a: &str, b: &str) -> (r: bool)
    ensures
        r == (a@ == b@),
{
    let a_owned = a.to_owned();
    let b_owned = b.to_owned();
    a_owned == b_owned
}

/// Index of the first comma of `s`, or `s.len()` when `s` has none.
pub open spec fn spec_first_comma(s: Seq<char>) -> int
    decreases s.len(),
{
    if s.len() == 0 {
        0
    } else if s[0] == ',' {
        0
    } else {
        1 + spec_first_comma(s.skip(1))
    }
}

/// What `spec_first_comma` finds: the first comma, or the end.
pub proof fn lemma_first_comma(s: Seq<char>)
    ensures
        0 <= spec_first_comma(s) <= s.len(),
        forall|k: int| 0 <= k < spec_first_comma(s) ==> s[k] != ',',
        spec_first_comma(s) < s.len() ==> s[spec_first_comma(s)] == ',',
    decreases s.len(),
{
    if s.len() > 0 && s[0] != ',' {
        lemma_first_comma(s.skip(1));
        assert(forall|k: int| 1 <= k < spec_first_comma(s) ==> s[k] == s.skip(1)[k - 1]);
    }
}

/// A scan that saw no comma before `i`, and a comma (or the end) at `i`,
/// found the first comma.
pub proof fn lemma_first_comma_unique(s: Seq<char>, i: int)
    requires
        0 <= i <= s.len(),
        forall|k: int| 0 <= k < i ==> s[k] != ',',
        i < s.len() ==> s[i] == ',',
    ensures
        spec_first_comma(s) == i,
    decreases s.len(),
{
    if s.len() > 0 && s[0] != ',' {
        assert(forall|k: int| 0 <= k < i - 1 ==> s.skip(1)[k] == s[k + 1]);
        lemma_first_comma_unique(s.skip(1), i - 1);
    }
}

/// The comma-separated segments of `s`, in order. An empty string yields one
/// empty segment; adjacent commas yield empty segments.
pub open spec fn spec_split_commas(s: Seq<char>) -> Seq<Seq<char>>
    decreases s.len(),
{
    let i = spec_first_comma(s);
    if 0 <= i < s.len() {
        seq![s.take(i)] + spec_split_commas(s.skip(i + 1))
    } else {
        seq![s]
    }
}

/// Index of the first comma of `s` at or after `from`, or the character
/// length of `s` when there is none.
fn find_comma(s: &str, from: usize, char_len: usize) -> (r: usize)
    requires
        char_len == s@.len(),
        from <= char_len,
    ensures
        from <= r <= char_len,
        forall|k: int| from <= k < r ==> s@[k] != ',',
        r < char_len ==> s@[r as int] == ',',
{
    let mut i = from;
    while i < char_len
        invariant
            char_len == s@.len(),
            from <= i <= char_len,
            forall|k: int| from <= k < i ==> s@[k] != ',',
        decreases char_len - i,
    {
        if s.get_char(i) == ',' {
            return i;
        }
        i = i + 1;
    }
    i
}

/// Splits `s` at every comma, in order, keeping empty segments.
pub fn split_commas(s: &str) -> (r: Vec<String>)
    ensures
        r@.map_values(|t: String| t@) == spec_split_commas(s@),
    decreases s@.len(),
{
    let char_len = s.unicode_len();
    let comma = find_comma(s, 0, char_len);
    proof {
        lemma_first_comma_unique(s@, comma as int);
    }
    if comma == char_len {
        let mut r: Vec<String> = Vec::new();
        r.push(s.to_owned());
        proof {
            assert(r@.map_values(|t: String| t@) =~= spec_split_commas(s@));
        }
        r
    } else {
        let head = s.substring_char(0, comma).to_owned();
        let tail = s.substring_char(comma + 1, char_len);
        proof {
            assert(tail@ =~= s@.skip(comma as int + 1));
        }
        let mut rest = split_commas(tail);
        let mut r: Vec<String> = Vec::new();
        r.push(head);
        r.append(&mut rest);
        proof {
            assert(head@ =~= s@.take(comma as int));
            assert(r@.map_values(|t: String| t@) =~= spec_split_commas(s@));
        }
        r
    }
}

/// The consumable kind a collectable or requirement name denotes.
pub open spec fn spec_potion_of_name(s: Seq<char>) -> Option<Potion> {
    if s == "Green potion"@ {
        Some(Potion::Green)
    } else if s == "Red potion"@ {
        Some(Potion::Red)
    } else if s == "Blue potion"@ {
        Some(Potion::Blue)
    } else {
        None
    }
}

/// The equipment kind a collectable or requirement name denotes.
pub open spec fn spec_weapon_of_name(s: Seq<char>) -> Option<Weapon> {
    if s == "Hammer"@ {
        Some(Weapon::Hammer)
    } else if s == "Axe"@ {
        Some(Weapon::Axe)
    } else if s == "Sword"@ {
        Some(Weapon::Sword)
    } else {
        None
    }
}

/// Decodes a name into a consumable kind, exactly the recognized set.
pub fn parse_potion_name(name: &str) -> (r: Option<Potion>)
    ensures
        r == spec_potion_of_name(name@),
{
    if str_eq(name, "Green potion") {
        Some(Potion::Green)
    } else if str_eq(name, "Red potion") {
        Some(Potion::Red)
    } else if str_eq(name, "Blue potion") {
        Some(Potion::Blue)
    } else {
        None
    }
}

/// Decodes a name into an equipment kind, exactly the recognized set.
pub fn parse_weapon_name(name: &str) -> (r: Option<Weapon>)
    ensures
        r == spec_weapon_of_name(name@),
{
    if str_eq(name, "Hammer") {
        Some(Weapon::Hammer)
    } else if str_eq(name, "Axe") {
        Some(Weapon::Axe)
    } else if str_eq(name, "Sword") {
        Some(Weapon::Sword)
    } else {
        None
    }
}

/// A collectable of either category, as a name denotes it.
#[derive(Copy, Clone, Debug, PartialEq, Eq, Structural)]
pub enum CollectableKind {
    Consumable(Collectable<Potion>),
    Equipment(Collectable<Weapon>),
}

/// The collectable a name denotes, if the name is recognized.
pub open spec fn spec_collectable_of_name(s: Seq<char>) -> Option<CollectableKind> {
    match spec_potion_of_name(s) {
        Some(p) => Some(CollectableKind::Consumable(Collectable(p))),
        None => match spec_weapon_of_name(s) {
            Some(w) => Some(CollectableKind::Equipment(Collectable(w))),
            None => None,
        },
    }
}

/// Decodes a collectable object's name into the item it spawns; an
/// unrecognized name spawns nothing (the object stays decorative).
pub fn parse_collectable_name(name: &str) -> (r: Option<CollectableKind>)
    ensures
        r == spec_collectable_of_name(name@),
{
    match parse_potion_name(name) {
        Some(p) => Some(CollectableKind::Consumable(Collectable(p))),
        None => match parse_weapon_name(name) {
            Some(w) => Some(CollectableKind::Equipment(Collectable(w))),
            None => None,
        },
    }
}

/// What one requirement token adds to an inventory: a recognized potion name
/// fills the potion slot, a recognized weapon name the weapon slot, anything
/// else is ignored.
pub open spec fn spec_apply_requirement_token(inv: Inventory, tok: Seq<char>) -> Inventory {
    match spec_potion_of_name(tok) {
        Some(p) => Inventory { potion: Some(Collectable(p)), weapon: inv.weapon },
        None => match spec_weapon_of_name(tok) {
            Some(w) => Inventory { potion: inv.potion, weapon: Some(Collectable(w)) },
            None => inv,
        },
    }
}

/// The requirement tokens applied in order.
pub open spec fn spec_apply_requirement_tokens(inv: Inventory, toks: Seq<Seq<char>>) -> Inventory
    decreases toks.len(),
{
    if toks.len() == 0 {
        inv
    } else {
        spec_apply_requirement_tokens(spec_apply_requirement_token(inv, toks[0]), toks.skip(1))
    }
}

/// The inventory a portal's name demands: the name split at commas, each
/// recognized token filling its slot.
pub open spec fn spec_portal_requirement(s: Seq<char>) -> Inventory {
    spec_apply_requirement_tokens(
        Inventory { potion: None, weapon: None },
        spec_split_commas(s),
    )
}

/// Decodes a portal's name (a comma-separated list of item names) into the
/// inventory it requires.
pub fn parse_portal_requirement(name: &str) -> (r: Inventory)
    ensures
        r == spec_portal_requirement(name@),
{
    let tokens = split_commas(name);
    let ghost toks = tokens@.map_values(|t: String| t@);
    let mut inventory = Inventory::new();
    let ghost inv0 = inventory;
    proof {
        assert(toks.skip(0) =~= toks);
        assert(inv0 == (Inventory { potion: None, weapon: None }));
    }
    let mut i: usize = 0;
    while i < tokens.len()
        invariant
            0 <= i <= tokens@.len(),
            toks == tokens@.map_values(|t: String| t@),
            spec_apply_requirement_tokens(inventory, toks.skip(i as int))
                == spec_apply_requirement_tokens(inv0, toks),
        decreases tokens@.len() - i,
    {
        let token = &tokens[i];
        match parse_potion_name(token.as_str()) {
            Some(p) => {
                inventory.potion = Some(Collectable(p));
            },
            None => match parse_weapon_name(token.as_str()) {
                Some(w) => {
                    inventory.weapon = Some(Collectable(w));
                },
                None => {},
            },
        }
        proof {
            assert(toks.skip(i as int)[0] == toks[i as int]);
            assert(toks.skip(i as int).skip(1) =~= toks.skip(i as int + 1));
        }
        i = i + 1;
    }
    inventory
}

/// The role an object's class tag assigns it.
#[derive(Copy, Clone, Debug, PartialEq, Eq, Structural)]
pub enum ObjectClass {
    Player,
    Portal,
    Collectable,
    Unknown,
}

/// The role a class tag denotes. `Portal` and `PortalTunnel` both mark a
/// traversal gate; anything unrecognized is explicitly `Unknown`.
pub open spec fn spec_object_class(s: Seq<char>) -> ObjectClass {
    if s == "Player"@ {
        ObjectClass::Player
    } else if s == "Portal"@ || s == "PortalTunnel"@ {
        ObjectClass::Portal
    } else if s == "Collectable"@ {
        ObjectClass::Collectable
    } else {
        ObjectClass::Unknown
    }
}

/// Decodes an object's class tag; an absent tag is `Unknown`.
pub fn classify_object(class: &Option<String>) -> (r: ObjectClass)
    ensures
        r == match class {
            Some(c) => spec_object_class(c@),
            None => ObjectClass::Unknown,
        },
{
    match class {
        Some(c) => {
            if str_eq(c.as_str(), "Player") {
                ObjectClass::Player
            } else if str_eq(c.as_str(), "Portal") || str_eq(c.as_str(), "PortalTunnel") {
                ObjectClass::Portal
            } else if str_eq(c.as_str(), "Collectable") {
                ObjectClass::Collectable
            } else {
                ObjectClass::Unknown
            }
        },
        None => ObjectClass::Unknown,
    }
}

/// The closed set of obstacle classifications a tile's user type can carry.
#[derive(Copy, Clone, Debug, PartialEq, Eq, Structural)]
pub enum ObstacleType {
    Unclassified,
    Chest,
    Potion,
    Wall,
    Door,
    Tombstone,
    Grave,
    Fountain,
}

/// The obstacle classification a tile's user type denotes; an absent or
/// unrecognized tag is explicitly `Unclassified`.
pub open spec fn spec_obstacle_type(user_type: Option<Seq<char>>) -> ObstacleType {
    match user_type {
        Some(s) => {
            if s == "Chest"@ {
                ObstacleType::Chest
            } else if s == "Potion"@ {
                ObstacleType::Potion
            } else if s == "Door"@ {
                ObstacleType::Door
            } else if s == "Tombstone"@ {
                ObstacleType::Tombstone
            } else if s == "Grave"@ {
                ObstacleType::Grave
            } else if s == "Fountain"@ {
                ObstacleType::Fountain
            } else if s == "Wall"@ {
                ObstacleType::Wall
            } else {
                ObstacleType::Unclassified
            }
        },
        None => ObstacleType::Unclassified,
    }
}

/// Decodes a tile's user type into its obstacle classification.
pub fn tile_user_class_to_component(user_type: &Option<String>) -> (r: ObstacleType)
    ensures
        r == spec_obstacle_type(match user_type {
            Some(s) => Some(s@),
            None => None,
        }),
{
    match user_type {
        Some(s) => {
            if str_eq(s.as_str(), "Chest") {
                ObstacleType::Chest
            } else if str_eq(s.as_str(), "Potion") {
                ObstacleType::Potion
            } else if str_eq(s.as_str(), "Door") {
                ObstacleType::Door
            } else if str_eq(s.as_str(), "Tombstone") {
                ObstacleType::Tombstone
            } else if str_eq(s.as_str(), "Grave") {
                ObstacleType::Grave
            } else if str_eq(s.as_str(), "Fountain") {
                ObstacleType::Fountain
            } else if str_eq(s.as_str(), "Wall") {
                ObstacleType::Wall
            } else {
                ObstacleType::Unclassified
            }
        },
        None => ObstacleType::Unclassified,
    }
}

} // verus!
