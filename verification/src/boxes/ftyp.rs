//! The file type box: the brand of the file and the brands it is
//! compatible with.
use crate::boxes::header::{BoxHeader, BoxHeaderView};
use crate::bytes::{be_u32, read_bytes, read_u32};
use crate::error::{view_of, ParseError};
use crate::text::{all_ascii, ascii_text, bytes_to_text, is_ascii_bytes, utf8_lossy};
use vstd::prelude::*;

verus! {

/// The type of the file type box, as text.
pub const HEADER_FTYP: &'static str = "ftyp";

/// A file type box.
#[derive(Debug, Clone)]
pub struct Ftyp {
    header: BoxHeader,
    major_brand: [u8; 4],
    minor_version: u32,
    compatible_brands: Vec<[u8; 4]>,
}

/// What a file type box holds, as plain values.
pub struct FtypView {
    pub header: BoxHeaderView,
    /// The four bytes of the major brand.
    pub major_brand: Seq<u8>,
    pub minor_version: u32,
    /// The compatible brands, four bytes each, in file order.
    pub compatible_brands: Seq<Seq<u8>>,
}

impl FtypView {
    /// Every brand has four bytes, all of them ASCII.
    pub open spec fn wf(self) -> bool {
        &&& self.major_brand.len() == 4
        &&& is_ascii_bytes(self.major_brand)
        &&& forall|i: int|
            0 <= i < self.compatible_brands.len() ==> (#[trigger] self.compatible_brands[i]).len()
                == 4 && is_ascii_bytes(self.compatible_brands[i])
    }

    /// The number of compatible brands: as many as fit, whole, between the
    /// minor version and the end that the box declares.
    pub open spec fn brand_count(header: BoxHeaderView) -> nat {
        let first = header.header_len() + 8;
        if header.box_size() > first {
            ((header.box_size() - first) / 4) as nat
        } else {
            0
        }
    }

    /// The four bytes of the compatible brand with index `i`.
    pub open spec fn brand_at(bytes: Seq<u8>, header: BoxHeaderView, i: int) -> Seq<u8> {
        let at = header.header_len() + 8 + 4 * i;
        bytes.subrange(at, at + 4)
    }

    /// The file type box at the start of `bytes`.
    pub open spec fn decode(bytes: Seq<u8>) -> Result<FtypView, ParseError> {
        match BoxHeaderView::decode_box(bytes) {
            Err(error) => Err(error),
            Ok(header) => {
                let start = header.header_len() as int;
                let count = Self::brand_count(header);
                if bytes.len() < start + 8 {
                    Err(ParseError::TruncatedPayload)
                } else if !is_ascii_bytes(bytes.subrange(start, start + 4)) || exists|i: int|
                    0 <= i < count && !is_ascii_bytes(#[trigger] Self::brand_at(bytes, header, i)) {
                    Err(ParseError::InvalidTag)
                } else {
                    Ok(
                        FtypView {
                            header,
                            major_brand: bytes.subrange(start, start + 4),
                            minor_version: be_u32(bytes, start + 4),
                            compatible_brands: Seq::new(
                                count,
                                |i: int| Self::brand_at(bytes, header, i),
                            ),
                        },
                    )
                }
            },
        }
    }
}

impl View for Ftyp {
    type V = FtypView;

    closed spec fn view(&self) -> FtypView {
        FtypView {
            header: self.header@,
            major_brand: self.major_brand@,
            minor_version: self.minor_version,
            compatible_brands: Seq::new(
                self.compatible_brands@.len(),
                |i: int| self.compatible_brands@[i]@,
            ),
        }
    }
}

impl Ftyp {
    /// Decodes the file type box at the start of `buffer`.
    pub fn from_buffer(buffer: &[u8]) -> (decoded: Result<Self, ParseError>)
        ensures
            view_of(decoded) == FtypView::decode(buffer@),
            decoded matches Ok(ftyp) ==> ftyp@.wf(),
    {
        let header = match BoxHeader::from_box(buffer) {
            Ok(header) => header,
            Err(error) => return Err(error),
        };
        let start = header.total_size();
        if buffer.len() - start < 8 {
            return Err(ParseError::TruncatedPayload);
        }
        let major_brand: [u8; 4] = read_bytes(buffer, start);
        if !all_ascii(major_brand.as_slice()) {
            return Err(ParseError::InvalidTag);
        }
        let minor_version = read_u32(buffer, start + 4);
        let first = start + 8;
        let box_size = header.box_size() as usize;
        let count = if box_size > first {
            (box_size - first) / 4
        } else {
            0
        };
        let mut compatible_brands: Vec<[u8; 4]> = Vec::new();
        let mut i: usize = 0;
        while i < count
            invariant
                i <= count,
                first == header@.header_len() + 8,
                first + 4 * count <= buffer.len(),
                count == FtypView::brand_count(header@),
                BoxHeaderView::decode_box(buffer@) == Ok::<BoxHeaderView, ParseError>(header@),
                compatible_brands@.len() == i,
                forall|k: int|
                    0 <= k < i ==> (#[trigger] compatible_brands@[k])@ == FtypView::brand_at(
                        buffer@,
                        header@,
                        k,
                    ),
                forall|k: int|
                    0 <= k < i ==> is_ascii_bytes(
                        #[trigger] FtypView::brand_at(buffer@, header@, k),
                    ),
            decreases count - i,
        {
            let brand: [u8; 4] = read_bytes(buffer, first + 4 * i);
            if !all_ascii(brand.as_slice()) {
                assert(!is_ascii_bytes(FtypView::brand_at(buffer@, header@, i as int)));
                return Err(ParseError::InvalidTag);
            }
            compatible_brands.push(brand);
            i = i + 1;
        }
        let decoded = Ftyp { header, major_brand, minor_version, compatible_brands };
        assert(decoded@.compatible_brands =~= Seq::new(
            count as nat,
            |i: int| FtypView::brand_at(buffer@, decoded.header@, i),
        ));
        Ok(decoded)
    }

    /// The major brand as text. A decoded brand is ASCII and reads as its
    /// four characters.
    pub fn major_brand(&self) -> (text: String)
        ensures
            text@ == utf8_lossy(self@.major_brand),
            is_ascii_bytes(self@.major_brand) ==> text@ == ascii_text(self@.major_brand),
    {
        bytes_to_text(self.major_brand.as_slice())
    }

    pub fn minor_version(&self) -> (version: u32)
        ensures
            version == self@.minor_version,
    {
        self.minor_version
    }

    /// The header of the box.
    pub fn header(&self) -> (header: &BoxHeader)
        ensures
            header@ == self@.header,
    {
        &self.header
    }

    /// The compatible brands as text, in file order. A decoded brand is
    /// ASCII and reads as its four characters.
    pub fn compatible_brands(&self) -> (texts: Vec<String>)
        ensures
            texts@.len() == self@.compatible_brands.len(),
            forall|i: int|
                0 <= i < texts@.len() ==> (#[trigger] texts@[i])@ == utf8_lossy(
                    self@.compatible_brands[i],
                ),
            forall|i: int|
                0 <= i < texts@.len() && is_ascii_bytes(self@.compatible_brands[i]) ==> (
                #[trigger] texts@[i])@ == ascii_text(self@.compatible_brands[i]),
    {
        let mut texts: Vec<String> = Vec::new();
        let mut i: usize = 0;
        while i < self.compatible_brands.len()
            invariant
                i <= self.compatible_brands@.len(),
                texts@.len() == i,
                forall|k: int|
                    0 <= k < i ==> (#[trigger] texts@[k])@ == utf8_lossy(
                        self@.compatible_brands[k],
                    ),
                forall|k: int|
                    0 <= k < i && is_ascii_bytes(self@.compatible_brands[k]) ==> (
                    #[trigger] texts@[k])@ == ascii_text(self@.compatible_brands[k]),
            decreases self.compatible_brands@.len() - i,
        {
            texts.push(bytes_to_text(self.compatible_brands[i].as_slice()));
            i = i + 1;
        }
        texts
    }
}

} // verus!
