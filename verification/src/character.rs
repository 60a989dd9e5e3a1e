use vstd::prelude::*;
use crate::text::{decimal, push_decimal, push_str, string_of};

verus! {

/// Character data stored as JSON.
#[derive(Debug, Clone, PartialEq)]
pub struct CharacterData {
    pub name: String,
    /// base64 voxel model
    pub appearance: String,
    pub personality_traits: Vec<String>,
    pub abilities: Vec<String>,
    pub level: u32,
    pub inventory: Vec<String>,
}

/// The model of a character: its texts as character sequences.
pub struct CharacterView {
    pub name: Seq<char>,
    pub appearance: Seq<char>,
    pub personality_traits: Seq<Seq<char>>,
    pub abilities: Seq<Seq<char>>,
    pub level: u32,
    pub inventory: Seq<Seq<char>>,
}

impl View for CharacterData {
    type V = CharacterView;

    open spec fn view(&self) -> CharacterView {
        CharacterView {
            name: self.name@,
            appearance: self.appearance@,
            personality_traits: self.personality_traits.deep_view(),
            abilities: self.abilities.deep_view(),
            level: self.level,
            inventory: self.inventory.deep_view(),
        }
    }
}

/// A new character named `name`: no appearance, traits, abilities or
/// inventory yet, and level 1.
pub open spec fn fresh_character(name: Seq<char>) -> CharacterView {
    CharacterView {
        name,
        appearance: Seq::empty(),
        personality_traits: Seq::empty(),
        abilities: Seq::empty(),
        level: 1,
        inventory: Seq::empty(),
    }
}

/// The character one level up.
pub open spec fn leveled_up(c: CharacterView) -> CharacterView
    recommends
        c.level < u32::MAX,
{
    CharacterView { level: (c.level + 1) as u32, ..c }
}

/// The character after learning `skill`: the skill is added at the end of
/// its abilities unless it already has it.
pub open spec fn learned(c: CharacterView, skill: Seq<char>) -> CharacterView {
    if c.abilities.contains(skill) {
        c
    } else {
        CharacterView { abilities: c.abilities.push(skill), ..c }
    }
}

/// The character after equipping `item`: the item is added at the end of its
/// inventory.
pub open spec fn equipped(c: CharacterView, item: Seq<char>) -> CharacterView {
    CharacterView { inventory: c.inventory.push(item), ..c }
}

/// The message of the commit that records a level-up to `level`.
pub open spec fn level_up_message(name: Seq<char>, level: nat) -> Seq<char> {
    "lau: "@ + name + " reached level "@ + decimal(level)
}

/// The message of the commit that records learning a skill.
pub open spec fn learn_message(name: Seq<char>, skill: Seq<char>) -> Seq<char> {
    "lau: "@ + name + " learned '"@ + skill + "'"@
}

/// The message of the commit that records equipping an item.
pub open spec fn equip_message(name: Seq<char>, item: Seq<char>) -> Seq<char> {
    "lau: "@ + name + " equipped '"@ + item + "'"@
}

/// The message of the commit that creates a character.
pub open spec fn character_creation_message(name: Seq<char>) -> Seq<char> {
    "lau: create character '"@ + name + "'"@
}

/// No text occurs twice.
pub open spec fn no_duplicates(s: Seq<Seq<char>>) -> bool {
    forall|i: int, j: int| 0 <= i < j < s.len() ==> s[i] != s[j]
}

/// `"lau: " + name + middle`, the start of every character message.
fn message_start(name: &String, middle: &str) -> (m: String)
    ensures
        m@ == "lau: "@ + name@ + middle@,
{
    let mut m = string_of("lau: ");
    push_str(&mut m, name.as_str());
    push_str(&mut m, middle);
    m
}

impl Default for CharacterData {
    fn default() -> (c: Self)
        ensures
            c@ == fresh_character(Seq::empty()),
    {
        let c = CharacterData {
            name: String::new(),
            appearance: String::new(),
            personality_traits: Vec::new(),
            abilities: Vec::new(),
            level: 1,
            inventory: Vec::new(),
        };
        assert(c@.personality_traits =~= Seq::<Seq<char>>::empty());
        assert(c@.abilities =~= Seq::<Seq<char>>::empty());
        assert(c@.inventory =~= Seq::<Seq<char>>::empty());
        c
    }
}

impl CharacterData {
    /// The data of a new character named `name`.
    pub fn named(name: &str) -> (c: Self)
        ensures
            c@ == fresh_character(name@),
    {
        let d = CharacterData::default();
        CharacterData { name: string_of(name), ..d }
    }

    /// The message of the commit that creates this character.
    pub fn creation_message(&self) -> (m: String)
        ensures
            m@ == character_creation_message(self.name@),
    {
        let mut m = string_of("lau: create character '");
        push_str(&mut m, self.name.as_str());
        push_str(&mut m, "'");
        m
    }

    /// Whether the character has learned `skill`.
    pub fn knows(&self, skill: &str) -> (b: bool)
        ensures
            b == self@.abilities.contains(skill@),
    {
        let wanted = string_of(skill);
        let mut i: usize = 0;
        while i < self.abilities.len()
            invariant
                i <= self.abilities.len(),
                wanted@ == skill@,
                forall|j: int| 0 <= j < i ==> self@.abilities[j] != skill@,
            decreases self.abilities.len() - i,
        {
            if self.abilities[i].eq(&wanted) {
                assert(self@.abilities[i as int] == skill@);
                return true;
            }
            i = i + 1;
        }
        assert(!self@.abilities.contains(skill@));
        false
    }

    /// Level the character up by one; returns the commit message.
    pub fn level_up(&mut self) -> (m: String)
        requires
            old(self).level < u32::MAX,
        ensures
            final(self)@ == leveled_up(old(self)@),
            final(self).level == old(self).level + 1,
            final(self)@.abilities == old(self)@.abilities,
            final(self)@.inventory == old(self)@.inventory,
            final(self)@.name == old(self)@.name,
            m@ == level_up_message(old(self).name@, (old(self).level + 1) as nat),
    {
        self.level = self.level + 1;
        let mut m = message_start(&self.name, " reached level ");
        push_decimal(&mut m, self.level);
        m
    }

    /// Learn a new skill, unless the character knows it already; returns the
    /// commit message, which is the same either way.
    pub fn learn_skill(&mut self, skill: &str) -> (m: String)
        ensures
            final(self)@ == learned(old(self)@, skill@),
            final(self)@.abilities.contains(skill@),
            old(self)@.abilities.contains(skill@) ==> final(self)@.abilities == old(self)@.abilities,
            !old(self)@.abilities.contains(skill@) ==> final(self)@.abilities.len() == old(self)@.abilities.len() + 1,
            forall|i: int| 0 <= i < old(self)@.abilities.len() ==> #[trigger] final(self)@.abilities[i]
                == old(self)@.abilities[i],
            final(self)@.inventory == old(self)@.inventory,
            final(self)@.level == old(self)@.level,
            m@ == learn_message(old(self).name@, skill@),
    {
        if !self.knows(skill) {
            self.abilities.push(string_of(skill));
            assert(self@.abilities =~= old(self)@.abilities.push(skill@));
            assert(self@.abilities[old(self)@.abilities.len() as int] == skill@);
        }
        let mut m = message_start(&self.name, " learned '");
        push_str(&mut m, skill);
        push_str(&mut m, "'");
        m
    }

    /// Add an item to the inventory; returns the commit message.
    pub fn equip(&mut self, item_path: &str) -> (m: String)
        ensures
            final(self)@ == equipped(old(self)@, item_path@),
            final(self)@.inventory.len() == old(self)@.inventory.len() + 1,
            forall|i: int| 0 <= i < old(self)@.inventory.len() ==> #[trigger] final(self)@.inventory[i]
                == old(self)@.inventory[i],
            final(self)@.inventory.last() == item_path@,
            final(self)@.name == old(self)@.name,
            final(self)@.abilities == old(self)@.abilities,
            final(self)@.level == old(self)@.level,
            m@ == equip_message(old(self).name@, item_path@),
    {
        self.inventory.push(string_of(item_path));
        assert(self@.inventory =~= old(self)@.inventory.push(item_path@));
        let mut m = message_start(&self.name, " equipped '");
        push_str(&mut m, item_path);
        push_str(&mut m, "'");
        m
    }
}

/// Learning a skill twice leaves the character as learning it once.
pub proof fn lemma_learn_idempotent(c: CharacterView, skill: Seq<char>)
    ensures
        learned(learned(c, skill), skill) == learned(c, skill),
{
    if !c.abilities.contains(skill) {
        assert(c.abilities.push(skill)[c.abilities.len() as int] == skill);
    }
}

/// After learning a skill the character has it, has every ability it had
/// before, and keeps all else; abilities that held no duplicates still hold
/// none.
pub proof fn lemma_learn_keeps_abilities_distinct(c: CharacterView, skill: Seq<char>)
    ensures
        learned(c, skill).abilities.contains(skill),
        forall|a: Seq<char>| c.abilities.contains(a) ==> #[trigger] learned(c, skill).abilities.contains(a),
        learned(c, skill).level == c.level,
        learned(c, skill).inventory == c.inventory,
        no_duplicates(c.abilities) ==> no_duplicates(learned(c, skill).abilities),
{
    let l = learned(c, skill);
    if !c.abilities.contains(skill) {
        assert(l.abilities[c.abilities.len() as int] == skill);
        assert forall|a: Seq<char>| c.abilities.contains(a) implies #[trigger] l.abilities.contains(a) by {
            let k = choose|k: int| 0 <= k < c.abilities.len() && c.abilities[k] == a;
            assert(l.abilities[k] == a);
        }
    }
}

/// Equipping an item adds it after everything already held: the inventory
/// grows by one, every item held before keeps its place, and the new item is
/// last; nothing but the inventory changes.
pub proof fn lemma_equip_appends(c: CharacterView, item: Seq<char>)
    ensures
        equipped(c, item).inventory.len() == c.inventory.len() + 1,
        forall|i: int| 0 <= i < c.inventory.len() ==> #[trigger] equipped(c, item).inventory[i]
            == c.inventory[i],
        equipped(c, item).inventory[c.inventory.len() as int] == item,
        equipped(c, item).name == c.name,
        equipped(c, item).abilities == c.abilities,
        equipped(c, item).level == c.level,
        equipped(c, item).personality_traits == c.personality_traits,
        equipped(c, item).appearance == c.appearance,
{
}

/// Equipping two items one after the other holds both, in that order, after
/// everything held before.
pub proof fn lemma_equip_twice(c: CharacterView, x: Seq<char>, y: Seq<char>)
    ensures
        equipped(equipped(c, x), y).inventory.len() == c.inventory.len() + 2,
        equipped(equipped(c, x), y).inventory[c.inventory.len() as int] == x,
        equipped(equipped(c, x), y).inventory[c.inventory.len() + 1int] == y,
        forall|i: int| 0 <= i < c.inventory.len() ==> #[trigger] equipped(equipped(c, x), y).inventory[i]
            == c.inventory[i],
{
}

/// Learning a skill it lacks adds it after the abilities it has; learning a
/// skill it has changes nothing; either way it has the skill afterwards and
/// keeps every earlier ability at its place.
pub proof fn lemma_learn_appends_once(c: CharacterView, skill: Seq<char>)
    ensures
        c.abilities.contains(skill) ==> learned(c, skill) == c,
        !c.abilities.contains(skill) ==> learned(c, skill).abilities.len() == c.abilities.len() + 1
            && learned(c, skill).abilities[c.abilities.len() as int] == skill,
        forall|i: int| 0 <= i < c.abilities.len() ==> #[trigger] learned(c, skill).abilities[i]
            == c.abilities[i],
        learned(c, skill).abilities.contains(skill),
        learned(c, skill).inventory == c.inventory,
        learned(c, skill).level == c.level,
        learned(c, skill).name == c.name,
{
    if !c.abilities.contains(skill) {
        assert(learned(c, skill).abilities[c.abilities.len() as int] == skill);
    }
}

/// Levelling up raises the level by exactly one and changes nothing else.
pub proof fn lemma_level_up_one(c: CharacterView)
    requires
        c.level < u32::MAX,
    ensures
        leveled_up(c).level == c.level + 1,
        leveled_up(c).name == c.name,
        leveled_up(c).abilities == c.abilities,
        leveled_up(c).inventory == c.inventory,
        leveled_up(c).personality_traits == c.personality_traits,
        leveled_up(c).appearance == c.appearance,
{
}

} // verus!
