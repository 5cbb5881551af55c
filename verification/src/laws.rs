//! Laws that relate the functions of this crate, stated over their outcomes.

use vstd::prelude::*;
use crate::failure::{Failure, FailureKind, Malformed, Missing};
use crate::locator::{
    descriptor_outcome, lookup_outcome, page_descriptor_outcome, page_outcome, SourceModel,
};
use crate::resolver::{
    infer_outcome, is_latest, latest, lemma_latest, lemma_latest_unique, resolve_outcome,
    stem_outcome, EntryModel, EpisodeId, ListingModel,
};
use crate::text::{
    all_digits, decimal, digits_value, first_at, lemma_first_at,
    parse_i32_spec, signed_decimal,
};

verus! {

/// A stem is eligible where it splits at its first hyphen into two integers.
pub open spec fn eligible(stem: Seq<char>) -> bool {
    stem_outcome(stem) is Ok
}

/// `first_at` finds a character exactly where the text holds it.
pub proof fn lemma_first_at_contains(s: Seq<char>, c: char)
    ensures
        first_at(s, c, 0) < s.len() <==> s.contains(c),
{
    lemma_first_at(s, c, 0);
}

/// Where an eligible file is newer than every other eligible file, and no
/// ineligible file is picked before it (each is older, or as old and listed
/// later), inference gives that file's show and episode.
pub proof fn law_newest_eligible_is_inferred(entries: Seq<EntryModel>, k: int)
    requires
        0 <= k < entries.len(),
        eligible(entries[k].stem),
        forall|j: int|
            0 <= j < entries.len() && j != k && eligible((#[trigger] entries[j]).stem)
                ==> entries[j].created < entries[k].created,
        forall|j: int|
            0 <= j < entries.len() && !eligible((#[trigger] entries[j]).stem)
                ==> entries[j].created < entries[k].created || (entries[j].created
                == entries[k].created && k < j),
    ensures
        latest(entries) == k,
        infer_outcome(entries) is Ok,
        infer_outcome(entries) == stem_outcome(entries[k].stem),
{
    assert(is_latest(entries, k));
    lemma_latest(entries);
    lemma_latest_unique(entries, k, latest(entries));
}

/// A listing without files gives "not found".
pub proof fn law_empty_listing_not_found(entries: Seq<EntryModel>)
    requires
        entries.len() == 0,
    ensures
        infer_outcome(entries) == Err::<EpisodeId, Failure>(Failure::NotFound(Missing::File)),
{
}

/// A stem without a hyphen is "not found", and only such a stem; a stem with
/// a hyphen fails, if it fails, as a format error.
pub proof fn law_stem_shape(stem: Seq<char>)
    ensures
        !stem.contains('-') <==> stem_outcome(stem) == Err::<EpisodeId, Failure>(
            Failure::NotFound(Missing::Hyphen),
        ),
        stem.contains('-') ==> stem_outcome(stem) is Ok || stem_outcome(stem)->Err_0.spec_kind()
            == FailureKind::FormatError,
{
    lemma_first_at_contains(stem, '-');
}

/// Where no file of a listing is eligible, inference fails: as "not found"
/// where the listing is empty or the newest stem has no hyphen, else as a
/// format error.
pub proof fn law_ineligible_listing_fails(entries: Seq<EntryModel>)
    requires
        forall|j: int| 0 <= j < entries.len() ==> !eligible((#[trigger] entries[j]).stem),
    ensures
        infer_outcome(entries) is Err,
        entries.len() == 0 || !entries[latest(entries)].stem.contains('-')
            ==> infer_outcome(entries)->Err_0.spec_kind() == FailureKind::NotFound,
        entries.len() > 0 && entries[latest(entries)].stem.contains('-')
            ==> infer_outcome(entries)->Err_0.spec_kind() == FailureKind::FormatError,
{
    if entries.len() > 0 {
        lemma_latest(entries);
        let newest = entries[latest(entries)];
        law_stem_shape(newest.stem);
    }
}

/// With both numbers given, resolution gives them back whatever the listing
/// holds, also where the directory could not be read.
pub proof fn law_explicit_ignores_listing(show: i32, episode: i32, listing: ListingModel)
    ensures
        resolve_outcome(Some(show), Some(episode), listing) == Ok::<EpisodeId, Failure>(
            (EpisodeId { show, episode }),
        ),
{
}

/// A descriptor is well formed exactly where it holds a `$`. Its two parts
/// hold none, and the descriptor is the address, a `$`, the extension, and
/// then either nothing or a `$` and more.
pub proof fn law_descriptor_parts(raw: Seq<char>)
    ensures
        descriptor_outcome(raw) is Ok <==> raw.contains('$'),
        descriptor_outcome(raw) is Err ==> descriptor_outcome(raw) == Err::<SourceModel, Failure>(
            Failure::Parse(Malformed::Descriptor),
        ),
        descriptor_outcome(raw) matches Ok(source) ==> {
            let used = (source.stream_url.len() + 1 + source.extension.len()) as int;
            &&& !source.stream_url.contains('$')
            &&& !source.extension.contains('$')
            &&& used <= raw.len()
            &&& raw.subrange(0, used) == source.stream_url + seq!['$'] + source.extension
            &&& used < raw.len() ==> raw[used] == '$'
        },
{
    lemma_first_at_contains(raw, '$');
    lemma_first_at(raw, '$', 0);
    let first = first_at(raw, '$', 0);
    if first < raw.len() {
        lemma_first_at(raw, '$', first + 1);
    }
}

/// The decimal digits of a number are digits, at least one, and denote it.
pub proof fn lemma_decimal_denotes(n: nat)
    ensures
        decimal(n).len() > 0,
        all_digits(decimal(n)),
        digits_value(decimal(n)) == n,
    decreases n,
{
    let text = decimal(n);
    if n < 10 {
        assert(digits_value(text.drop_last()) == 0);
    } else {
        lemma_decimal_denotes(n / 10);
        assert(text.drop_last() =~= decimal(n / 10));
    }
}

/// The decimal text of a 32-bit integer parses back to that integer.
pub proof fn law_decimal_parses_back(n: i32)
    ensures
        parse_i32_spec(signed_decimal(n as int)) == Some(n),
{
    let text = signed_decimal(n as int);
    if n < 0 {
        let digits = decimal((-n) as nat);
        lemma_decimal_denotes((-n) as nat);
        assert(text.subrange(1, text.len() as int) =~= digits);
    } else {
        lemma_decimal_denotes(n as nat);
    }
}

/// A stem written as a show that is not negative, a hyphen and an episode
/// reads back as that show and that episode.
pub proof fn law_written_stem_reads_back(show: i32, episode: i32)
    requires
        show >= 0,
    ensures
        stem_outcome(signed_decimal(show as int) + seq!['-'] + signed_decimal(episode as int))
            == Ok::<EpisodeId, Failure>((EpisodeId { show, episode })),
{
    let left = signed_decimal(show as int);
    let right = signed_decimal(episode as int);
    let stem = left + seq!['-'] + right;
    let cut = left.len() as int;
    lemma_decimal_denotes(show as nat);
    lemma_first_at(stem, '-', 0);
    assert(stem[cut] == '-');
    assert(stem.subrange(0, cut) =~= left);
    assert(stem.subrange(cut + 1, stem.len() as int) =~= right);
    law_decimal_parses_back(show);
    law_decimal_parses_back(episode);
}

/// Where a page fails because its descriptor cannot be split, the page has a
/// raw descriptor, and that text holds no `$`: the input that the failure
/// speaks of can be had.
pub proof fn law_unsplit_descriptor_is_given(html: Seq<char>)
    requires
        page_outcome(html) == Err::<SourceModel, Failure>(Failure::Parse(Malformed::Descriptor)),
    ensures
        page_descriptor_outcome(html) is Ok,
        !page_descriptor_outcome(html)->Ok_0.contains('$'),
{
    law_descriptor_parts(page_descriptor_outcome(html)->Ok_0);
}

/// A page without a player box is "no playbox"; a player box without the
/// descriptor attribute is "no VID".
pub proof fn law_absent_lookup()
    ensures
        lookup_outcome(None) == Err::<SourceModel, Failure>(Failure::NotFound(Missing::Playbox)),
        lookup_outcome(Some(None)) == Err::<SourceModel, Failure>(
            Failure::NotFound(Missing::Vid),
        ),
{
}

} // verus!
