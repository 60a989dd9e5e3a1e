use vstd::prelude::*;
use crate::text::string_of;

verus! {

/// What kind of game entity a repository represents.
#[derive(Clone, Copy, Debug, PartialEq, Eq, Structural)]
pub enum EntityType {
    Character,
    Place,
    Tool,
    Quest,
    World,
    Inventory,
}

impl EntityType {
    /// The word that names this kind of entity in messages and in the
    /// metadata file.
    pub open spec fn spec_kind_word(self) -> Seq<char> {
        match self {
            EntityType::Character => "character"@,
            EntityType::Place => "place"@,
            EntityType::Tool => "tool"@,
            EntityType::Quest => "quest"@,
            EntityType::World => "world"@,
            EntityType::Inventory => "inventory"@,
        }
    }

    /// The word that names this kind of entity in messages and in the
    /// metadata file.
    pub fn kind_word(&self) -> (w: &'static str)
        ensures
            w@ == self.spec_kind_word(),
    {
        match self {
            EntityType::Character => "character",
            EntityType::Place => "place",
            EntityType::Tool => "tool",
            EntityType::Quest => "quest",
            EntityType::World => "world",
            EntityType::Inventory => "inventory",
        }
    }

    /// The directory under a world root that holds entities of this kind.
    pub open spec fn spec_dir_name(self) -> Seq<char> {
        match self {
            EntityType::Character => "characters"@,
            EntityType::Place => "places"@,
            EntityType::Tool => "tools"@,
            EntityType::Quest => "quests"@,
            EntityType::World => "world"@,
            EntityType::Inventory => "inventories"@,
        }
    }

    /// Returns the directory name used under a world root for this entity type.
    pub fn dir_name(&self) -> (name: &'static str)
        ensures
            name@ == self.spec_dir_name(),
    {
        match self {
            EntityType::Character => "characters",
            EntityType::Place => "places",
            EntityType::Tool => "tools",
            EntityType::Quest => "quests",
            EntityType::World => "world",
            EntityType::Inventory => "inventories",
        }
    }
}

/// The kind of entity that a word names, if any.
pub open spec fn entity_type_named(word: Seq<char>) -> Option<EntityType> {
    if word == "character"@ {
        Some(EntityType::Character)
    } else if word == "place"@ {
        Some(EntityType::Place)
    } else if word == "tool"@ {
        Some(EntityType::Tool)
    } else if word == "quest"@ {
        Some(EntityType::Quest)
    } else if word == "world"@ {
        Some(EntityType::World)
    } else if word == "inventory"@ {
        Some(EntityType::Inventory)
    } else {
        None
    }
}

impl EntityType {
    /// The kind of entity that a word names: `None` for any other word.
    pub fn from_name(word: &str) -> (t: Option<EntityType>)
        ensures
            t == entity_type_named(word@),
    {
        let w = string_of(word);
        if w == string_of("character") {
            Some(EntityType::Character)
        } else if w == string_of("place") {
            Some(EntityType::Place)
        } else if w == string_of("tool") {
            Some(EntityType::Tool)
        } else if w == string_of("quest") {
            Some(EntityType::Quest)
        } else if w == string_of("world") {
            Some(EntityType::World)
        } else if w == string_of("inventory") {
            Some(EntityType::Inventory)
        } else {
            None
        }
    }
}

/// Reading back the word of a kind gives that kind, and a word names a kind
/// only when it is that kind's word.
pub proof fn lemma_kind_word_roundtrip(t: EntityType, word: Seq<char>)
    ensures
        entity_type_named(t.spec_kind_word()) == Some(t),
        entity_type_named(word) == Some(t) ==> word == t.spec_kind_word(),
        entity_type_named(Seq::empty()) is None,
{
    reveal_strlit("character");
    reveal_strlit("place");
    reveal_strlit("tool");
    reveal_strlit("quest");
    reveal_strlit("world");
    reveal_strlit("inventory");
    let c = "character"@;
    let p = "place"@;
    let to = "tool"@;
    let q = "quest"@;
    let wo = "world"@;
    let inv = "inventory"@;
    assert(c[0] == 'c' && p[0] == 'p' && to[0] == 't' && q[0] == 'q' && wo[0] == 'w' && inv[0] == 'i');
    assert(p != c);
    assert(to != c && to != p);
    assert(q != c && q != p && q != to);
    assert(wo != c && wo != p && wo != to && wo != q);
    assert(inv != c && inv != p && inv != to && inv != q && inv != wo);
    let e = Seq::<char>::empty();
    assert(e != c && e != p && e != to && e != q && e != wo && e != inv) by {
        assert(e.len() == 0);
    }
}

/// The word of each kind in the metadata file is the snake-case name of the
/// kind, the name that `serde` writes and reads for it; a word names a kind
/// exactly when it is that kind's word.
pub proof fn lemma_kind_words_are_snake_case(t: EntityType, word: Seq<char>)
    ensures
        t == EntityType::Character ==> t.spec_kind_word() == seq!['c', 'h', 'a', 'r', 'a', 'c', 't', 'e', 'r'],
        t == EntityType::Place ==> t.spec_kind_word() == seq!['p', 'l', 'a', 'c', 'e'],
        t == EntityType::Tool ==> t.spec_kind_word() == seq!['t', 'o', 'o', 'l'],
        t == EntityType::Quest ==> t.spec_kind_word() == seq!['q', 'u', 'e', 's', 't'],
        t == EntityType::World ==> t.spec_kind_word() == seq!['w', 'o', 'r', 'l', 'd'],
        t == EntityType::Inventory ==> t.spec_kind_word() == seq!['i', 'n', 'v', 'e', 'n', 't', 'o', 'r', 'y'],
        entity_type_named(word) == Some(t) <==> word == t.spec_kind_word(),
{
    reveal_strlit("character");
    reveal_strlit("place");
    reveal_strlit("tool");
    reveal_strlit("quest");
    reveal_strlit("world");
    reveal_strlit("inventory");
    lemma_kind_word_roundtrip(t, word);
    assert("character"@ =~= seq!['c', 'h', 'a', 'r', 'a', 'c', 't', 'e', 'r']);
    assert("place"@ =~= seq!['p', 'l', 'a', 'c', 'e']);
    assert("tool"@ =~= seq!['t', 'o', 'o', 'l']);
    assert("quest"@ =~= seq!['q', 'u', 'e', 's', 't']);
    assert("world"@ =~= seq!['w', 'o', 'r', 'l', 'd']);
    assert("inventory"@ =~= seq!['i', 'n', 'v', 'e', 'n', 't', 'o', 'r', 'y']);
}

/// Each kind of entity has a directory of its own: two different kinds never
/// share a directory name.
pub proof fn lemma_dir_name_injective(a: EntityType, b: EntityType)
    requires
        a != b,
    ensures
        a.spec_dir_name() != b.spec_dir_name(),
{
    reveal_strlit("characters");
    reveal_strlit("places");
    reveal_strlit("tools");
    reveal_strlit("quests");
    reveal_strlit("world");
    reveal_strlit("inventories");
    if a.spec_dir_name() == b.spec_dir_name() {
        assert(a.spec_dir_name()[0] == b.spec_dir_name()[0]);
        assert(a.spec_dir_name().len() == b.spec_dir_name().len());
    }
}

} // verus!
