use vstd::prelude::*;

use crate::api::get_metadata_queue::response::Metadata;
use crate::text::decimal_text;

verus! {

/// The tags that are written into a song file.
#[derive(Clone, Copy, Debug, PartialEq, Eq, Structural)]
pub enum MetaKind {
    Album,
    AlbumArtist,
    Artist,
    Date,
    Disc,
    Genre,
    Title,
    Track,
    TrackCount,
    DiscCount,
}

/// The value written into a tag: a text or a number.
#[derive(Clone, Debug)]
pub enum MetaValue {
    Text(String),
    Number(i32),
}

pub enum MetaValueView {
    Text(Seq<char>),
    Number(i32),
}

impl View for MetaValue {
    type V = MetaValueView;

    open spec fn view(&self) -> MetaValueView {
        match self {
            MetaValue::Text(s) => MetaValueView::Text(s@),
            MetaValue::Number(n) => MetaValueView::Number(*n),
        }
    }
}

/// Every tag, in the order in which they are written.
pub open spec fn metadata_kinds() -> Seq<MetaKind> {
    seq![
        MetaKind::Album,
        MetaKind::AlbumArtist,
        MetaKind::Artist,
        MetaKind::Date,
        MetaKind::Disc,
        MetaKind::Genre,
        MetaKind::Title,
        MetaKind::Track,
        MetaKind::TrackCount,
        MetaKind::DiscCount,
    ]
}

/// The value of tag `kind` for a song with `metadata`: its texts as they are,
/// its year as decimal text, and its disc and track numbers and counts as
/// numbers.
pub open spec fn meta_value_of(kind: MetaKind, metadata: Metadata) -> MetaValueView {
    match kind {
        MetaKind::Album => MetaValueView::Text(metadata.album@),
        MetaKind::AlbumArtist => MetaValueView::Text(metadata.album_artist@),
        MetaKind::Artist => MetaValueView::Text(metadata.artist@),
        MetaKind::Date => MetaValueView::Text(decimal_text(metadata.year as int)),
        MetaKind::Disc => MetaValueView::Number(metadata.disc),
        MetaKind::Genre => MetaValueView::Text(metadata.genre@),
        MetaKind::Title => MetaValueView::Text(metadata.title@),
        MetaKind::Track => MetaValueView::Number(metadata.track),
        MetaKind::TrackCount => MetaValueView::Number(metadata.track_count),
        MetaKind::DiscCount => MetaValueView::Number(metadata.disc_count),
    }
}

/// The number of tags.
pub const METADATA_TYPE_COUNT: usize = 10;

/// Every tag, in the order in which they are written.
pub fn all_metadata_types() -> (res: Vec<MetaKind>)
    ensures
        res@ == metadata_kinds(),
{
    let res = vec![
        MetaKind::Album,
        MetaKind::AlbumArtist,
        MetaKind::Artist,
        MetaKind::Date,
        MetaKind::Disc,
        MetaKind::Genre,
        MetaKind::Title,
        MetaKind::Track,
        MetaKind::TrackCount,
        MetaKind::DiscCount,
    ];
    assert(res@ =~= metadata_kinds());
    res
}

/// The tag written at step `index`.
pub fn metadata_type_at(index: usize) -> (res: MetaKind)
    requires
        index < METADATA_TYPE_COUNT,
    ensures
        res == metadata_kinds()[index as int],
{
    match index {
        0 => MetaKind::Album,
        1 => MetaKind::AlbumArtist,
        2 => MetaKind::Artist,
        3 => MetaKind::Date,
        4 => MetaKind::Disc,
        5 => MetaKind::Genre,
        6 => MetaKind::Title,
        7 => MetaKind::Track,
        8 => MetaKind::TrackCount,
        _ => MetaKind::DiscCount,
    }
}

/// The value of tag `kind` taken from `metadata`.
pub fn metadata_value(kind: MetaKind, metadata: &Metadata) -> (res: MetaValue)
    ensures
        res@ == meta_value_of(kind, *metadata),
{
    match kind {
        MetaKind::Album => MetaValue::Text(metadata.album.clone()),
        MetaKind::AlbumArtist => MetaValue::Text(metadata.album_artist.clone()),
        MetaKind::Artist => MetaValue::Text(metadata.artist.clone()),
        MetaKind::Date => MetaValue::Text(crate::text::i32_to_decimal(metadata.year)),
        MetaKind::Disc => MetaValue::Number(metadata.disc),
        MetaKind::Genre => MetaValue::Text(metadata.genre.clone()),
        MetaKind::Title => MetaValue::Text(metadata.title.clone()),
        MetaKind::Track => MetaValue::Number(metadata.track),
        MetaKind::TrackCount => MetaValue::Number(metadata.track_count),
        MetaKind::DiscCount => MetaValue::Number(metadata.disc_count),
    }
}

/// Whether setting the cover art went through: the tagging library answers
/// with the picture it wrote, and an empty answer means nothing was written.
pub fn coverart_applied(written: &Vec<u8>) -> (res: bool)
    ensures
        res == (written@.len() > 0),
{
    written.len() > 0
}

} // verus!
