use yh::failure::{Failure, FailureKind, IoStage, Missing, Segment};
use yh::resolver::{
    guess_episode, needs_listing, parse_stem, pick_latest, resolve, DirectoryEntry, EpisodeId,
    Listing,
};

fn entry(stem: &str, created: i128) -> DirectoryEntry {
    DirectoryEntry { file_stem: stem.to_string(), created }
}

fn id(show: i32, episode: i32) -> EpisodeId {
    EpisodeId { show, episode }
}

#[test]
fn infer_takes_the_newest_file() {
    let entries = vec![entry("1-2", 10), entry("3-4", 30), entry("5-6", 20)];
    assert_eq!(guess_episode(&entries), Ok(id(3, 4)));
}

#[test]
fn infer_takes_the_newest_file_when_listed_last() {
    let entries = vec![entry("1-2", 10), entry("3-4", 20), entry("0100-0005", 21)];
    assert_eq!(guess_episode(&entries), Ok(id(100, 5)));
}

#[test]
fn infer_single_file() {
    assert_eq!(guess_episode(&vec![entry("7-9", 1_700_000_000_000_000_000)]), Ok(id(7, 9)));
}

#[test]
fn infer_keeps_the_first_of_equally_new_files() {
    let entries = vec![entry("1-1", 5), entry("2-2", 9), entry("3-3", 9), entry("4-4", 9)];
    assert_eq!(pick_latest(&entries), Some(1));
    assert_eq!(guess_episode(&entries), Ok(id(2, 2)));
}

#[test]
fn infer_handles_times_before_the_epoch() {
    let entries = vec![entry("1-1", -50), entry("2-2", -10), entry("3-3", -30)];
    assert_eq!(pick_latest(&entries), Some(1));
    assert_eq!(guess_episode(&entries), Ok(id(2, 2)));
    assert_eq!(guess_episode(&vec![entry("8-3", 0)]), Ok(id(8, 3)));
}

#[test]
fn infer_on_empty_listing_is_not_found() {
    let entries: Vec<DirectoryEntry> = Vec::new();
    assert_eq!(pick_latest(&entries), None);
    assert_eq!(guess_episode(&entries), Err(Failure::NotFound(Missing::File)));
    assert_eq!(guess_episode(&entries).unwrap_err().kind(), FailureKind::NotFound);
}

#[test]
fn infer_on_stem_without_hyphen_is_not_found() {
    assert_eq!(guess_episode(&vec![entry("abc", 1)]), Err(Failure::NotFound(Missing::Hyphen)));
    assert_eq!(guess_episode(&vec![entry("12", 1)]), Err(Failure::NotFound(Missing::Hyphen)));
    assert_eq!(guess_episode(&vec![entry("", 1)]), Err(Failure::NotFound(Missing::Hyphen)));
}

#[test]
fn infer_on_stem_with_bad_number_is_format_error() {
    assert_eq!(guess_episode(&vec![entry("12-xy", 1)]), Err(Failure::Format(Segment::Episode)));
    assert_eq!(guess_episode(&vec![entry("xy-12", 1)]), Err(Failure::Format(Segment::Show)));
    assert_eq!(
        guess_episode(&vec![entry("12-xy", 1)]).unwrap_err().kind(),
        FailureKind::FormatError
    );
}

#[test]
fn infer_on_only_ineligible_files() {
    let entries = vec![entry("abc", 3), entry("12", 2), entry("12-xy", 1)];
    assert_eq!(guess_episode(&entries), Err(Failure::NotFound(Missing::Hyphen)));
    let entries = vec![entry("abc", 1), entry("12", 2), entry("12-xy", 3)];
    assert_eq!(guess_episode(&entries), Err(Failure::Format(Segment::Episode)));
}

#[test]
fn infer_does_not_fall_back_to_an_older_eligible_file() {
    let entries = vec![entry("1-2", 10), entry("notes", 20)];
    assert_eq!(guess_episode(&entries), Err(Failure::NotFound(Missing::Hyphen)));
    let entries = vec![entry("1-2", 10), entry("notes", 10)];
    assert_eq!(guess_episode(&entries), Ok(id(1, 2)));
}

#[test]
fn parse_stem_splits_at_the_first_hyphen() {
    assert_eq!(parse_stem("0100-0005"), Ok(id(100, 5)));
    assert_eq!(parse_stem("5--3"), Ok(id(5, -3)));
    assert_eq!(parse_stem("+7-+8"), Ok(id(7, 8)));
    assert_eq!(parse_stem("1-2-3"), Err(Failure::Format(Segment::Episode)));
    assert_eq!(parse_stem("-5"), Err(Failure::Format(Segment::Show)));
    assert_eq!(parse_stem("5-"), Err(Failure::Format(Segment::Episode)));
    assert_eq!(parse_stem("-"), Err(Failure::Format(Segment::Show)));
    assert_eq!(parse_stem("x-y"), Err(Failure::Format(Segment::Show)));
    assert_eq!(parse_stem("2147483648-1"), Err(Failure::Format(Segment::Show)));
    assert_eq!(parse_stem("1-2147483647"), Ok(id(1, 2147483647)));
    assert_eq!(parse_stem("\u{756a}\u{5267}-12"), Err(Failure::Format(Segment::Show)));
    assert_eq!(parse_stem("no hyphen"), Err(Failure::NotFound(Missing::Hyphen)));
}

#[test]
fn resolve_explicit_pair_skips_the_listing() {
    let unreadable = Listing::Unreadable(IoStage::Listing);
    assert_eq!(resolve(Some(100), Some(5), &unreadable), Ok(id(100, 5)));
    let empty = Listing::Files(Vec::new());
    assert_eq!(resolve(Some(100), Some(5), &empty), Ok(id(100, 5)));
    let other = Listing::Files(vec![entry("1-2", 10)]);
    assert_eq!(resolve(Some(100), Some(5), &other), Ok(id(100, 5)));
    assert!(!needs_listing(Some(100), Some(5)));
}

#[test]
fn resolve_with_a_missing_number_infers() {
    let files = Listing::Files(vec![entry("1-2", 10), entry("3-4", 30)]);
    assert_eq!(resolve(None, None, &files), Ok(id(3, 4)));
    assert_eq!(resolve(Some(9), None, &files), Ok(id(3, 4)));
    assert_eq!(resolve(None, Some(9), &files), Ok(id(3, 4)));
    assert!(needs_listing(None, None));
    assert!(needs_listing(Some(9), None));
    assert!(needs_listing(None, Some(9)));
}

#[test]
fn resolve_reports_an_unreadable_directory() {
    assert_eq!(
        resolve(None, None, &Listing::Unreadable(IoStage::Listing)),
        Err(Failure::Io(IoStage::Listing))
    );
    assert_eq!(
        resolve(Some(1), None, &Listing::Unreadable(IoStage::Metadata)),
        Err(Failure::Io(IoStage::Metadata))
    );
    assert_eq!(Failure::Io(IoStage::Metadata).kind(), FailureKind::IoError);
    assert_eq!(
        resolve(None, None, &Listing::Files(Vec::new())),
        Err(Failure::NotFound(Missing::File))
    );
}

#[test]
fn written_stems_read_back() {
    for (show, episode) in [(0, 0), (100, 5), (7, -3), (i32::MAX, i32::MIN), (12, i32::MAX)] {
        let stem = format!("{}-{}", show, episode);
        assert_eq!(parse_stem(&stem), Ok(id(show, episode)));
        let padded = format!("{:04}-{:04}", show, episode);
        assert_eq!(parse_stem(&padded), Ok(id(show, episode)));
    }
    assert_eq!(parse_stem("-1-2"), Err(Failure::Format(Segment::Show)));
}
