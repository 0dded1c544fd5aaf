//! Beatmap data attached to user profiles.
//!
//! A profile may feature maps; the rows stored locally carry this data as
//! an opaque blob from the core's point of view. The types here hold what
//! the application keeps of a beatmapset. Star ratings are not kept: they
//! are fractional display data the application never reads.

use vstd::prelude::*;

verus! {

/// Lifecycle state of a beatmap, as the provider classifies it.
#[derive(Clone, Copy, Debug, PartialEq, Eq, Structural)]
pub enum BeatmapType {
    Graveyard,
    Loved,
    /// Covers both pending and work-in-progress maps.
    Pending,
    Ranked,
    Guest,
    Nominated,
}

impl BeatmapType {
    pub open spec fn spec_name(self) -> Seq<char> {
        match self {
            BeatmapType::Graveyard => "graveyard"@,
            BeatmapType::Loved => "loved"@,
            BeatmapType::Pending => "pending"@,
            BeatmapType::Ranked => "ranked"@,
            BeatmapType::Guest => "guest"@,
            BeatmapType::Nominated => "nominated"@,
        }
    }

    /// Whether the provider serves a beatmapset listing for this kind:
    /// only graveyard, loved, pending and ranked listings exist, so a
    /// listing request for any other kind is refused before any call is
    /// made.
    pub open spec fn spec_listable(self) -> bool {
        match self {
            BeatmapType::Guest => false,
            BeatmapType::Nominated => false,
            _ => true,
        }
    }

    pub fn listable(&self) -> (r: bool)
        ensures
            r == self.spec_listable(),
    {
        match self {
            BeatmapType::Guest => false,
            BeatmapType::Nominated => false,
            _ => true,
        }
    }

    /// The lowercase name under which the provider serves this kind.
    pub fn name(&self) -> (r: &'static str)
        ensures
            r@ == self.spec_name(),
    {
        match self {
            BeatmapType::Graveyard => "graveyard",
            BeatmapType::Loved => "loved",
            BeatmapType::Pending => "pending",
            BeatmapType::Ranked => "ranked",
            BeatmapType::Guest => "guest",
            BeatmapType::Nominated => "nominated",
        }
    }
}

/// One difficulty of a beatmapset.
#[derive(Clone, Debug)]
pub struct Beatmap {
    pub id: i64,
    pub url: String,
    pub name: String,
}

impl Beatmap {
    /// Field-for-field equality.
    pub open spec fn same(self, other: Beatmap) -> bool {
        self.id == other.id && self.url@ == other.url@ && self.name@ == other.name@
    }

    pub fn duplicate(&self) -> (r: Beatmap)
        ensures
            r.same(*self),
    {
        Beatmap { id: self.id, url: self.url.clone(), name: self.name.clone() }
    }
}

/// Beatmapset cover image links.
#[derive(Clone, Debug)]
pub struct Covers {
    pub cover: String,
    pub card: String,
    pub list: String,
    pub slimcover: String,
}

impl Covers {
    /// Field-for-field equality.
    pub open spec fn same(self, other: Covers) -> bool {
        self.cover@ == other.cover@ && self.card@ == other.card@ && self.list@ == other.list@
            && self.slimcover@ == other.slimcover@
    }

    pub fn duplicate(&self) -> (r: Covers)
        ensures
            r.same(*self),
    {
        Covers {
            cover: self.cover.clone(),
            card: self.card.clone(),
            list: self.list.clone(),
            slimcover: self.slimcover.clone(),
        }
    }
}

/// Beatmapset name data: title and artist, plus their original-script
/// forms.
#[derive(Clone, Debug)]
pub struct BeatmapsetNames {
    pub artist: String,
    pub artist_unicode: String,
    pub title: String,
    pub title_unicode: String,
}

impl BeatmapsetNames {
    /// Field-for-field equality.
    pub open spec fn same(self, other: BeatmapsetNames) -> bool {
        self.artist@ == other.artist@ && self.artist_unicode@ == other.artist_unicode@
            && self.title@ == other.title@ && self.title_unicode@ == other.title_unicode@
    }

    pub fn duplicate(&self) -> (r: BeatmapsetNames)
        ensures
            r.same(*self),
    {
        BeatmapsetNames {
            artist: self.artist.clone(),
            artist_unicode: self.artist_unicode.clone(),
            title: self.title.clone(),
            title_unicode: self.title_unicode.clone(),
        }
    }
}

/// A beatmapset: a set of difficulties published together, with its
/// lifecycle state, mapper name and display data.
#[derive(Clone, Debug)]
pub struct Beatmapset {
    pub id: i64,
    pub status: BeatmapType,
    pub creator: String,
    pub beatmaps: Vec<Beatmap>,
    pub covers: Covers,
    pub names: BeatmapsetNames,
}

impl Beatmapset {
    /// Field-for-field equality, difficulty by difficulty.
    pub open spec fn same(self, other: Beatmapset) -> bool {
        &&& self.id == other.id
        &&& self.status == other.status
        &&& self.creator@ == other.creator@
        &&& self.beatmaps@.len() == other.beatmaps@.len()
        &&& (forall|i: int|
            0 <= i < self.beatmaps@.len() ==> (#[trigger] self.beatmaps@[i]).same(
                other.beatmaps@[i],
            ))
        &&& self.covers.same(other.covers)
        &&& self.names.same(other.names)
    }

    pub fn duplicate(&self) -> (r: Beatmapset)
        ensures
            r.same(*self),
    {
        let mut beatmaps: Vec<Beatmap> = Vec::new();
        let mut i: usize = 0;
        while i < self.beatmaps.len()
            invariant
                0 <= i <= self.beatmaps@.len(),
                beatmaps@.len() == i,
                forall|j: int|
                    0 <= j < i ==> (#[trigger] beatmaps@[j]).same(self.beatmaps@[j]),
            decreases self.beatmaps@.len() - i,
        {
            beatmaps.push(self.beatmaps[i].duplicate());
            i = i + 1;
        }
        Beatmapset {
            id: self.id,
            status: self.status,
            creator: self.creator.clone(),
            beatmaps,
            covers: self.covers.duplicate(),
            names: self.names.duplicate(),
        }
    }
}

/// Failures specific to beatmap listings.
#[derive(Debug)]
pub enum BeatmapError {
    /// A listing was requested for a beatmap kind the provider does not
    /// serve.
    InvalidBeatmapType,
    /// The HTTP client failed; carries its message.
    RequestError(String),
}

} // verus!
