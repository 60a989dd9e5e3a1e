use vstd::prelude::*;
use crate::text::string_of;

verus! {

/// The top-level world manifest listing all sub-repos.
#[derive(Debug, Clone, PartialEq)]
pub struct WorldManifest {
    pub name: String,
    pub characters: Vec<String>,
    pub places: Vec<String>,
    pub tools: Vec<String>,
    pub quests: Vec<String>,
}

/// The model of a manifest.
pub struct ManifestView {
    pub name: Seq<char>,
    pub characters: Seq<Seq<char>>,
    pub places: Seq<Seq<char>>,
    pub tools: Seq<Seq<char>>,
    pub quests: Seq<Seq<char>>,
}

impl View for WorldManifest {
    type V = ManifestView;

    open spec fn view(&self) -> ManifestView {
        ManifestView {
            name: self.name@,
            characters: self.characters.deep_view(),
            places: self.places.deep_view(),
            tools: self.tools.deep_view(),
            quests: self.quests.deep_view(),
        }
    }
}

/// A new manifest for the world `name`, which lists nothing yet.
pub open spec fn fresh_manifest(name: Seq<char>) -> ManifestView {
    ManifestView {
        name,
        characters: Seq::empty(),
        places: Seq::empty(),
        tools: Seq::empty(),
        quests: Seq::empty(),
    }
}

impl WorldManifest {
    /// The manifest of a new world named `name`.
    pub fn new(name: &str) -> (m: Self)
        ensures
            m@ == fresh_manifest(name@),
    {
        let m = WorldManifest {
            name: string_of(name),
            characters: Vec::new(),
            places: Vec::new(),
            tools: Vec::new(),
            quests: Vec::new(),
        };
        assert(m@.characters =~= Seq::<Seq<char>>::empty());
        assert(m@.places =~= Seq::<Seq<char>>::empty());
        assert(m@.tools =~= Seq::<Seq<char>>::empty());
        assert(m@.quests =~= Seq::<Seq<char>>::empty());
        m
    }

    /// Register a character repo at the end of the list.
    pub fn add_character(&mut self, repo_path: &str)
        ensures
            final(self)@ == (ManifestView {
                characters: old(self)@.characters.push(repo_path@),
                ..old(self)@
            }),
    {
        self.characters.push(string_of(repo_path));
        assert(self@.characters =~= old(self)@.characters.push(repo_path@));
    }

    /// Register a place repo at the end of the list.
    pub fn add_place(&mut self, repo_path: &str)
        ensures
            final(self)@ == (ManifestView { places: old(self)@.places.push(repo_path@), ..old(self)@ }),
    {
        self.places.push(string_of(repo_path));
        assert(self@.places =~= old(self)@.places.push(repo_path@));
    }

    /// Register a tool repo at the end of the list.
    pub fn add_tool(&mut self, repo_path: &str)
        ensures
            final(self)@ == (ManifestView { tools: old(self)@.tools.push(repo_path@), ..old(self)@ }),
    {
        self.tools.push(string_of(repo_path));
        assert(self@.tools =~= old(self)@.tools.push(repo_path@));
    }
}

} // verus!
