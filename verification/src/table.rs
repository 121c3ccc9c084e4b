//! What the list boxes have in common: an entry count, then entries of one
//! fixed width up to the end that the box declares.
use crate::boxes::header::{BoxHeader, BoxHeaderView};
use crate::bytes::{be_u32, read_u32};
use crate::error::ParseError;
use vstd::prelude::*;

verus! {

/// The number of entries that a list box holds. The count field is
/// trusted as far as whole entries lie between `first` and the end of the
/// box. A count that asks for more is cut down to what is there, unless a
/// part of an entry is left over behind the last whole one: then an entry
/// that the count announces has been cut short.
pub open spec fn entries_held(count: u32, box_size: nat, first: nat, width: nat) -> Result<
    nat,
    ParseError,
>
    recommends
        width > 0,
{
    let span: nat = if box_size > first {
        (box_size - first) as nat
    } else {
        0
    };
    if count <= span / width {
        Ok(count as nat)
    } else if span % width != 0 {
        Err(ParseError::MalformedEntry)
    } else {
        Ok(span / width)
    }
}

/// The start of a list box, decoded.
pub struct ListHead {
    /// The header of the box.
    pub header: BoxHeaderView,
    /// The count field, as it stands in the file.
    pub entry_count: u32,
    /// The offset of the first entry.
    pub first: nat,
    /// The number of entries that the box holds.
    pub held: nat,
}

/// The start of the list box at the beginning of `bytes`, whose entries
/// are `width` bytes each: the header, the four bytes of the count behind
/// it, and the number of entries that follow.
pub open spec fn decode_list_head(bytes: Seq<u8>, width: nat) -> Result<ListHead, ParseError>
    recommends
        width > 0,
{
    match BoxHeaderView::decode_box(bytes) {
        Err(error) => Err(error),
        Ok(header) => {
            let first = header.header_len() + 4;
            if bytes.len() < first {
                Err(ParseError::TruncatedPayload)
            } else {
                let entry_count = be_u32(bytes, header.header_len() as int);
                match entries_held(entry_count, header.box_size(), first, width) {
                    Err(error) => Err(error),
                    Ok(held) => Ok(ListHead { header, entry_count, first, held }),
                }
            }
        }
    }
}

/// Every entry of a decoded list lies inside the box, and the box inside
/// the buffer.
pub proof fn lemma_list_in_bounds(bytes: Seq<u8>, width: nat)
    requires
        width > 0,
        decode_list_head(bytes, width) is Ok,
    ensures
        ({
            let head = decode_list_head(bytes, width)->Ok_0;
            &&& head.first + width * head.held <= bytes.len()
            &&& head.held <= head.entry_count
            &&& head.held > 0 ==> head.first + width * head.held <= head.header.box_size()
        }),
{
    let head = decode_list_head(bytes, width)->Ok_0;
    let box_size = head.header.box_size();
    let span: nat = if box_size > head.first {
        (box_size - head.first) as nat
    } else {
        0
    };
    assert(width * (span / width) <= span) by (nonlinear_arith)
        requires
            width > 0,
    ;
    assert(width * head.held <= width * (span / width)) by (nonlinear_arith)
        requires
            head.held <= span / width,
    ;
}

/// Decodes the start of a list box whose entries are `width` bytes each.
/// Returns the header, the count field, the offset of the first entry and
/// the number of entries that the box holds.
pub fn read_list_head(buffer: &[u8], width: usize) -> (decoded: Result<
    (BoxHeader, u32, usize, usize),
    ParseError,
>)
    requires
        width > 0,
    ensures
        match decoded {
            Ok((header, entry_count, first, held)) => {
                &&& decode_list_head(buffer@, width as nat) == Ok::<ListHead, ParseError>(
                    ListHead {
                        header: header@,
                        entry_count,
                        first: first as nat,
                        held: held as nat,
                    },
                )
                &&& first + width * held <= buffer.len()
            },
            Err(error) => decode_list_head(buffer@, width as nat) == Err::<ListHead, ParseError>(
                error,
            ),
        },
{
    let header = match BoxHeader::from_box(buffer) {
        Ok(header) => header,
        Err(error) => return Err(error),
    };
    let start = header.total_size();
    if buffer.len() - start < 4 {
        return Err(ParseError::TruncatedPayload);
    }
    let first = start + 4;
    let entry_count = read_u32(buffer, start);
    let box_size = header.box_size() as usize;
    let span = if box_size > first {
        box_size - first
    } else {
        0
    };
    let whole = span / width;
    let held = if entry_count as usize <= whole {
        entry_count as usize
    } else if span % width != 0 {
        return Err(ParseError::MalformedEntry);
    } else {
        whole
    };
    proof {
        lemma_list_in_bounds(buffer@, width as nat);
    }
    Ok((header, entry_count, first, held))
}

} // verus!
