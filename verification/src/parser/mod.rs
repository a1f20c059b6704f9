use vstd::prelude::*;

use crate::models::{CoverArt, CoverArtType, Song};
use crate::queued_item::{QueuedCoverArt, QueuedSong};

verus! {

/// The file type name of PNG pictures.
pub open spec fn png_type() -> Seq<char> {
    "png"@
}

/// The file type name of JPEG pictures.
pub open spec fn jpeg_type() -> Seq<char> {
    "jpeg"@
}

/// The file type name of pictures with the `jpg` extension.
pub open spec fn jpg_type() -> Seq<char> {
    "jpg"@
}

/// The audio type of the songs this service handles.
pub open spec fn flac_type() -> Seq<char> {
    "flac"@
}

/// The kind of file that a queued cover art of type `file_type` is saved as:
/// PNG, JPEG or JPG where the type names one of them, none otherwise.
pub open spec fn coverart_type_of(file_type: Seq<char>) -> CoverArtType {
    if file_type == png_type() {
        CoverArtType::PngExtension
    } else if file_type == jpeg_type() {
        CoverArtType::JpegExtension
    } else if file_type == jpg_type() {
        CoverArtType::JpgExtension
    } else {
        CoverArtType::Unspecified
    }
}

/// The kind of file that a queued cover art of type `file_type` is saved as.
pub fn coverart_type(file_type: &String) -> (res: CoverArtType)
    ensures
        res == coverart_type_of(file_type@),
{
    let png = String::from_str("png");
    let jpeg = String::from_str("jpeg");
    let jpg = String::from_str("jpg");
    if *file_type == png {
        CoverArtType::PngExtension
    } else if *file_type == jpeg {
        CoverArtType::JpegExtension
    } else if *file_type == jpg {
        CoverArtType::JpgExtension
    } else {
        CoverArtType::Unspecified
    }
}

/// The audio type of the songs this service handles, `flac`.
pub fn song_type() -> (res: String)
    ensures
        res@ == flac_type(),
{
    String::from_str("flac")
}

/// The queued song once its file has been written: the song at `path` under
/// the queue item `id` where saving went through, the empty queued song
/// (nil id, no file) where it did not.
pub fn queued_song_after_save(id: u128, song: Song, path: String, saved: bool) -> (res: QueuedSong)
    ensures
        saved ==> res == (QueuedSong { id, song, path }),
        !saved ==> res.is_empty(),
{
    if saved {
        QueuedSong { id, song, path }
    } else {
        QueuedSong::default()
    }
}

/// The queued cover art once its file has been written at `path`.
pub fn init_queued_coverart(coverart_queue_id: u128, coverart: CoverArt, path: String) -> (res: QueuedCoverArt)
    ensures
        res == (QueuedCoverArt { id: coverart_queue_id, coverart, path }),
{
    QueuedCoverArt { id: coverart_queue_id, coverart, path }
}

/// The created song record, kept where the queued song's file is kept.
pub fn created_song(created: Song, queued_song: &QueuedSong) -> (res: Song)
    ensures
        res == created.placed(queued_song.song.directory, queued_song.song.filename),
{
    created.place(queued_song.song.directory.clone(), queued_song.song.filename.clone())
}

/// The created cover art record, kept where the queued cover art's file is kept.
pub fn created_coverart(created: CoverArt, queued_coverart: &QueuedCoverArt) -> (res: CoverArt)
    ensures
        res == created.placed(queued_coverart.coverart.directory, queued_coverart.coverart.filename),
{
    created.place(queued_coverart.coverart.directory.clone(), queued_coverart.coverart.filename.clone())
}

} // verus!
