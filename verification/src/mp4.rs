//! What decoding a whole file yields.
use crate::boxes::ftyp::{Ftyp, FtypView};
use crate::boxes::moov::{MovieBox, MovieView};
use vstd::prelude::*;

verus! {

/// The boxes of a file that the decoder knows, each one present where the
/// file holds such a box. A file with a file type box and no movie box, or
/// with neither, is a file like any other.
#[derive(Debug)]
pub struct MP4 {
    pub ftyp: Option<Ftyp>,
    pub moov: Option<MovieBox>,
}

/// What an `MP4` holds, as plain values.
pub struct MP4View {
    pub ftyp: Option<FtypView>,
    pub moov: Option<MovieView>,
}

impl MP4View {
    /// The movie box, where there is one, is well-formed.
    pub open spec fn wf(self) -> bool {
        self.moov matches Some(moov) ==> moov.wf()
    }
}

impl View for MP4 {
    type V = MP4View;

    open spec fn view(&self) -> MP4View {
        MP4View {
            ftyp: match self.ftyp {
                Some(ftyp) => Some(ftyp@),
                None => None,
            },
            moov: match self.moov {
                Some(moov) => Some(moov@),
                None => None,
            },
        }
    }
}

impl MP4 {
    /// The result that holds both boxes.
    pub fn new(ftyp: Ftyp, moov: MovieBox) -> (mp4: Self)
        ensures
            mp4.ftyp == Some(ftyp),
            mp4.moov == Some(moov),
            mp4@ == (MP4View { ftyp: Some(ftyp@), moov: Some(moov@) }),
    {
        MP4 { ftyp: Some(ftyp), moov: Some(moov) }
    }
}

impl Default for MP4 {
    /// The result that holds no box.
    fn default() -> (mp4: Self)
        ensures
            mp4.ftyp is None,
            mp4.moov is None,
            mp4@ == (MP4View { ftyp: None, moov: None }),
    {
        MP4 { ftyp: None, moov: None }
    }
}

} // verus!
