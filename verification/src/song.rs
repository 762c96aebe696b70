//! A song as the player knows it: the catalogue's facts about a track, and where a local one
//! plays from.
use vstd::prelude::*;

verus! {

/// Whether, and how, the catalogue lets a song be played.
#[derive(Debug, Clone, Copy, PartialEq, Eq, Structural)]
pub enum SongCopyright {
    /// The catalogue did not say.
    Unknown,
    /// Only members can stream it.
    VipOnly,
    /// Free to play; local files are filed this way.
    Free,
}

/// One song.
#[derive(Debug)]
pub struct SongInfo {
    pub id: u64,
    pub name: String,
    pub singer: String,
    pub artist_id: u64,
    /// The album; for songs from before local files carried tags, the file's path.
    pub album: String,
    pub album_id: u64,
    pub pic_url: String,
    /// Length in milliseconds; 0 when unknown.
    pub duration: u64,
    /// Id of the song's music video; 0 when it has none.
    pub mv: u64,
    pub copyright: SongCopyright,
    /// The file a local song plays from.
    pub local_path: Option<String>,
}

impl SongInfo {
    /// A copy of the song, field for field.
    pub fn duplicate(&self) -> (r: SongInfo)
        ensures
            r.id == self.id,
            r.name@ == self.name@,
            r.singer@ == self.singer@,
            r.artist_id == self.artist_id,
            r.album@ == self.album@,
            r.album_id == self.album_id,
            r.pic_url@ == self.pic_url@,
            r.duration == self.duration,
            r.mv == self.mv,
            r.copyright == self.copyright,
            match (r.local_path, self.local_path) {
                (Some(a), Some(b)) => a@ == b@,
                (None, None) => true,
                _ => false,
            },
    {
        SongInfo {
            id: self.id,
            name: self.name.clone(),
            singer: self.singer.clone(),
            artist_id: self.artist_id,
            album: self.album.clone(),
            album_id: self.album_id,
            pic_url: self.pic_url.clone(),
            duration: self.duration,
            mv: self.mv,
            copyright: self.copyright,
            local_path: match &self.local_path {
                Some(p) => Some(p.clone()),
                None => None,
            },
        }
    }
}

} // verus!
