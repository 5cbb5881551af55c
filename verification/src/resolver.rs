//! Which episode is meant: the one named outright, or the one that the newest
//! file of a directory was named after.

use vstd::prelude::*;
use vstd::string::*;
use crate::failure::{Failure, IoStage, Missing, Segment};
use crate::text::{find_char, first_at, parse_i32, parse_i32_spec};

verus! {

/// A show and one of its episodes.
#[derive(Clone, Copy, Debug, PartialEq, Eq, Structural)]
pub struct EpisodeId {
    pub show: i32,
    pub episode: i32,
}

/// One regular file of a directory: its name without extension, and its
/// creation time in nanoseconds since the Unix epoch.
#[derive(Clone, Debug, PartialEq, Eq)]
pub struct DirectoryEntry {
    pub file_stem: String,
    pub created: i128,
}

/// A `DirectoryEntry` as a text and an integer.
pub struct EntryModel {
    pub stem: Seq<char>,
    pub created: int,
}

impl View for DirectoryEntry {
    type V = EntryModel;

    open spec fn view(&self) -> EntryModel {
        EntryModel { stem: self.file_stem@, created: self.created as int }
    }
}

/// The models of a listing's files, in listing order.
pub open spec fn files_view(files: Seq<DirectoryEntry>) -> Seq<EntryModel> {
    files.map_values(|entry: DirectoryEntry| entry@)
}

/// What listing the directory gave: its regular files in the order in which
/// they were listed, or the stage at which the listing failed.
#[derive(Clone, Debug, PartialEq, Eq)]
pub enum Listing {
    Files(Vec<DirectoryEntry>),
    Unreadable(IoStage),
}

/// A `Listing` with its files as models.
pub enum ListingModel {
    Files(Seq<EntryModel>),
    Unreadable(IoStage),
}

impl View for Listing {
    type V = ListingModel;

    open spec fn view(&self) -> ListingModel {
        match *self {
            Listing::Files(files) => ListingModel::Files(files_view(files@)),
            Listing::Unreadable(stage) => ListingModel::Unreadable(stage),
        }
    }
}

/// Whether entry `i` is the newest: none is newer, and every earlier entry is
/// strictly older.
pub open spec fn is_latest(entries: Seq<EntryModel>, i: int) -> bool {
    &&& 0 <= i < entries.len()
    &&& forall|j: int| 0 <= j < entries.len() ==> (#[trigger] entries[j]).created <= entries[i].created
    &&& forall|j: int| 0 <= j < i ==> (#[trigger] entries[j]).created < entries[i].created
}

/// The index of the newest entry, the first of them where several share the
/// newest creation time; 0 for an empty listing.
pub open spec fn latest(entries: Seq<EntryModel>) -> int
    decreases entries.len(),
{
    if entries.len() <= 1 {
        0
    } else {
        let before = latest(entries.drop_last());
        if entries.last().created > entries[before].created {
            entries.len() - 1
        } else {
            before
        }
    }
}

/// `latest` is the newest entry of a listing that has one.
pub proof fn lemma_latest(entries: Seq<EntryModel>)
    requires
        entries.len() > 0,
    ensures
        is_latest(entries, latest(entries)),
    decreases entries.len(),
{
    if entries.len() > 1 {
        let shorter = entries.drop_last();
        lemma_latest(shorter);
        let before = latest(shorter);
        if entries.last().created > entries[before].created {
            assert forall|j: int| 0 <= j < entries.len() - 1 implies (#[trigger] entries[j]).created
                < entries.last().created by {
                assert(shorter[j].created <= shorter[before].created);
            }
        } else {
            assert forall|j: int| 0 <= j < entries.len() implies (#[trigger] entries[j]).created
                <= entries[before].created by {
                if j < entries.len() - 1 {
                    assert(shorter[j].created <= shorter[before].created);
                }
            }
            assert forall|j: int| 0 <= j < before implies (#[trigger] entries[j]).created
                < entries[before].created by {
                assert(shorter[j].created < shorter[before].created);
            }
        }
    }
}

/// At most one entry is the newest.
pub proof fn lemma_latest_unique(entries: Seq<EntryModel>, i: int, j: int)
    requires
        is_latest(entries, i),
        is_latest(entries, j),
    ensures
        i == j,
{
    if i < j {
        assert(entries[j].created <= entries[i].created);
    } else if j < i {
        assert(entries[i].created <= entries[j].created);
    }
}

/// Picks the newest entry of a listing, the first-listed among equals.
pub fn pick_latest(entries: &Vec<DirectoryEntry>) -> (found: Option<usize>)
    ensures
        entries@.len() == 0 <==> found is None,
        found matches Some(i) ==> i == latest(files_view(entries@)) && is_latest(
            files_view(entries@),
            i as int,
        ),
{
    let n: usize = entries.len();
    if n == 0 {
        return None;
    }
    let ghost models = files_view(entries@);
    let mut best: usize = 0;
    let mut i: usize = 1;
    while i < n
        invariant
            1 <= i <= n,
            n == entries@.len(),
            best < i,
            models == files_view(entries@),
            best == latest(models.subrange(0, i as int)),
        decreases n - i,
    {
        proof {
            let next = models.subrange(0, i + 1);
            assert(next.drop_last() =~= models.subrange(0, i as int));
        }
        if entries[i].created > entries[best].created {
            best = i;
        }
        i += 1;
    }
    proof {
        assert(models.subrange(0, n as int) =~= models);
        lemma_latest(models);
    }
    Some(best)
}

/// What a file stem stands for: the integers before and after its first
/// hyphen.
pub open spec fn stem_outcome(stem: Seq<char>) -> Result<EpisodeId, Failure> {
    let pos = first_at(stem, '-', 0);
    if pos >= stem.len() {
        Err(Failure::NotFound(Missing::Hyphen))
    } else {
        match parse_i32_spec(stem.subrange(0, pos)) {
            None => Err(Failure::Format(Segment::Show)),
            Some(show) => match parse_i32_spec(stem.subrange(pos + 1, stem.len() as int)) {
                None => Err(Failure::Format(Segment::Episode)),
                Some(episode) => Ok(EpisodeId { show, episode }),
            },
        }
    }
}

/// Reads a show and an episode out of a file stem of the shape `show-episode`.
pub fn parse_stem(stem: &str) -> (r: Result<EpisodeId, Failure>)
    ensures
        r == stem_outcome(stem@),
{
    let n: usize = stem.unicode_len();
    let pos: usize = find_char(stem, '-', 0);
    if pos >= n {
        return Err(Failure::NotFound(Missing::Hyphen));
    }
    match parse_i32(stem.substring_char(0, pos)) {
        None => Err(Failure::Format(Segment::Show)),
        Some(show) => match parse_i32(stem.substring_char(pos + 1, n)) {
            None => Err(Failure::Format(Segment::Episode)),
            Some(episode) => Ok(EpisodeId { show, episode }),
        },
    }
}

/// What inference gives on a listing of regular files.
pub open spec fn infer_outcome(entries: Seq<EntryModel>) -> Result<EpisodeId, Failure> {
    if entries.len() == 0 {
        Err(Failure::NotFound(Missing::File))
    } else {
        stem_outcome(entries[latest(entries)].stem)
    }
}

/// Infers the episode from the newest file of a listing.
pub fn guess_episode(entries: &Vec<DirectoryEntry>) -> (r: Result<EpisodeId, Failure>)
    ensures
        r == infer_outcome(files_view(entries@)),
{
    match pick_latest(entries) {
        None => Err(Failure::NotFound(Missing::File)),
        Some(i) => parse_stem(entries[i].file_stem.as_str()),
    }
}

/// Whether the directory has to be listed: only where a number is missing.
pub open spec fn needs_listing_spec(show: Option<i32>, episode: Option<i32>) -> bool {
    show is None || episode is None
}

/// Says whether resolution will read the listing at all.
pub fn needs_listing(show: Option<i32>, episode: Option<i32>) -> (b: bool)
    ensures
        b == needs_listing_spec(show, episode),
{
    show.is_none() || episode.is_none()
}

/// What resolution gives: the two numbers where both are there, else what the
/// listing gives.
pub open spec fn resolve_outcome(
    show: Option<i32>,
    episode: Option<i32>,
    listing: ListingModel,
) -> Result<EpisodeId, Failure> {
    if show is Some && episode is Some {
        Ok(EpisodeId { show: show->Some_0, episode: episode->Some_0 })
    } else {
        match listing {
            ListingModel::Unreadable(stage) => Err(Failure::Io(stage)),
            ListingModel::Files(entries) => infer_outcome(entries),
        }
    }
}

/// Resolves the episode. With both numbers given the listing is not looked
/// at, whatever it holds.
pub fn resolve(show: Option<i32>, episode: Option<i32>, listing: &Listing) -> (r: Result<
    EpisodeId,
    Failure,
>)
    ensures
        r == resolve_outcome(show, episode, listing@),
        show is Some && episode is Some ==> r == Ok::<EpisodeId, Failure>(
            (EpisodeId { show: show->Some_0, episode: episode->Some_0 }),
        ),
{
    match (show, episode) {
        (Some(s), Some(e)) => Ok(EpisodeId { show: s, episode: e }),
        _ => match listing {
            Listing::Unreadable(stage) => Err(Failure::Io(*stage)),
            Listing::Files(entries) => guess_episode(entries),
        },
    }
}

} // verus!
