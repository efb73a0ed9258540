//! How deep the items of a DER text are nested.
//!
//! A key is handed to a parser that works its way into nested items by
//! calling itself, once for each level. Before that the library walks the
//! bytes itself, in a loop and with a budget, and refuses what is nested
//! deeper than any key or certificate is.

use vstd::prelude::*;
use vstd::slice::slice_subrange;

verus! {

/// How many levels of nested items a key may have below the outermost.
pub const MAX_NESTING: u32 = 16;

/// What stands at a position of a DER text.
#[derive(Clone, Copy, Debug)]
pub enum ItemHeader {
    /// Nothing that can be read as an item: the text ends within it.
    Stop,
    /// An item whose header is of a form that no key uses: a tag number of
    /// more bytes than one, or a length of more bytes than four.
    Refused,
    /// An item whose content is the `len` bytes from `start`; `nests` says
    /// whether the content is read as items again.
    Item { nests: bool, start: usize, len: usize },
}

/// The mathematical value of an [`ItemHeader`].
pub ghost enum HeaderView {
    Stop,
    Refused,
    Item { nests: bool, start: int, len: int },
}

impl View for ItemHeader {
    type V = HeaderView;

    open spec fn view(&self) -> HeaderView {
        match self {
            ItemHeader::Stop => HeaderView::Stop,
            ItemHeader::Refused => HeaderView::Refused,
            ItemHeader::Item { nests, start, len } => HeaderView::Item {
                nests: *nests,
                start: *start as int,
                len: *len as int,
            },
        }
    }
}

/// Whether the content of an item with this first tag byte is read as items:
/// in the universal class (the two upper bits are 0) for a sequence, number
/// 16, and a set, number 17; in the other classes where the tag is marked as
/// constructed (the bit of value 32).
pub open spec fn tag_nests(tag: u8) -> bool {
    if tag < 64 {
        tag % 32 == 16 || tag % 32 == 17
    } else {
        (tag / 32) % 2 == 1
    }
}

/// The number that `count` bytes from `from` on make, the first byte
/// counting most; `count` is at most 4.
pub open spec fn length_value(s: Seq<u8>, from: int, count: int) -> int {
    if count <= 0 {
        0
    } else if count == 1 {
        s[from] as int
    } else if count == 2 {
        s[from] * 256 + s[from + 1]
    } else if count == 3 {
        (s[from] * 256 + s[from + 1]) * 256 + s[from + 2]
    } else {
        ((s[from] * 256 + s[from + 1]) * 256 + s[from + 2]) * 256 + s[from + 3]
    }
}

/// An item of `len` bytes from `start`, if the text holds that many.
pub open spec fn item_within(s: Seq<u8>, nests: bool, start: int, len: int) -> HeaderView {
    if start + len <= s.len() {
        HeaderView::Item { nests, start, len }
    } else {
        HeaderView::Stop
    }
}

/// The header of the item at position `i`: one tag byte, then the length,
/// either in one byte below 128 or as a byte of 128 plus a count, followed
/// by that many bytes of the length.
pub open spec fn header_at(s: Seq<u8>, i: int) -> HeaderView {
    if i < 0 || i + 1 >= s.len() {
        HeaderView::Stop
    } else if s[i] % 32 == 31 {
        HeaderView::Refused
    } else if s[i + 1] < 128 {
        item_within(s, tag_nests(s[i]), i + 2, s[i + 1] as int)
    } else if s[i + 1] - 128 > 4 {
        HeaderView::Refused
    } else if i + 2 + (s[i + 1] - 128) > s.len() {
        HeaderView::Stop
    } else {
        item_within(
            s,
            tag_nests(s[i]),
            i + 2 + (s[i + 1] - 128),
            length_value(s, i + 2, s[i + 1] - 128),
        )
    }
}

/// Whether the items from position `i` on are nested no deeper than
/// `budget` levels below their own, and none of their headers is refused.
pub open spec fn shallow_from(s: Seq<u8>, i: int, budget: nat) -> bool
    decreases budget, s.len() - i,
{
    if i < 0 || i >= s.len() {
        true
    } else {
        match header_at(s, i) {
            HeaderView::Stop => true,
            HeaderView::Refused => false,
            HeaderView::Item { nests, start, len } => {
                if i < start && 0 <= len && start + len <= s.len() {
                    (!nests || (budget > 0 && shallow_from(
                        s.subrange(start, start + len),
                        0,
                        (budget - 1) as nat,
                    ))) && shallow_from(s, start + len, budget)
                } else {
                    true
                }
            },
        }
    }
}

/// Whether a DER text is nested no deeper than [`MAX_NESTING`] levels.
pub open spec fn shallow(s: Seq<u8>) -> bool {
    shallow_from(s, 0, MAX_NESTING as nat)
}

/// Reads the header of the item at position `i`.
pub fn read_header(s: &[u8], i: usize) -> (r: ItemHeader)
    requires
        i < s@.len(),
    ensures
        r@ == header_at(s@, i as int),
        r matches ItemHeader::Item { start, len, .. } ==> i + 2 <= start && start + len
            <= s@.len(),
{
    let total: usize = s.len();
    if total - i < 2 {
        return ItemHeader::Stop;
    }
    let tag: u8 = s[i];
    if tag % 32 == 31 {
        return ItemHeader::Refused;
    }
    let nests: bool = if tag < 64 {
        tag % 32 == 16 || tag % 32 == 17
    } else {
        (tag / 32) % 2 == 1
    };
    let first: u8 = s[i + 1];
    if first < 128 {
        if first as usize > total - (i + 2) {
            return ItemHeader::Stop;
        }
        return ItemHeader::Item { nests, start: i + 2, len: first as usize };
    }
    let count: usize = (first - 128) as usize;
    if count > 4 {
        return ItemHeader::Refused;
    }
    if count > total - (i + 2) {
        return ItemHeader::Stop;
    }
    let from: usize = i + 2;
    let start: usize = from + count;
    let value: u64 = if count == 0 {
        0
    } else if count == 1 {
        s[from] as u64
    } else if count == 2 {
        s[from] as u64 * 256 + s[from + 1] as u64
    } else if count == 3 {
        (s[from] as u64 * 256 + s[from + 1] as u64) * 256 + s[from + 2] as u64
    } else {
        ((s[from] as u64 * 256 + s[from + 1] as u64) * 256 + s[from + 2] as u64) * 256 + s[from
            + 3] as u64
    };
    if value > (total - start) as u64 {
        return ItemHeader::Stop;
    }
    ItemHeader::Item { nests, start, len: value as usize }
}

/// Walks the items of a DER text and says whether they are nested no deeper
/// than `budget` levels below the outermost, with no header refused. The
/// walk goes as deep as the budget and no deeper.
pub fn nesting_within(s: &[u8], budget: u32) -> (r: bool)
    ensures
        r == shallow_from(s@, 0, budget as nat),
    decreases budget,
{
    let mut i: usize = 0;
    while i < s.len()
        invariant
            i <= s@.len(),
            shallow_from(s@, 0, budget as nat) == shallow_from(s@, i as int, budget as nat),
        decreases s@.len() - i,
    {
        match read_header(s, i) {
            ItemHeader::Stop => {
                return true;
            },
            ItemHeader::Refused => {
                return false;
            },
            ItemHeader::Item { nests, start, len } => {
                if nests {
                    if budget == 0 {
                        return false;
                    }
                    let content = slice_subrange(s, start, start + len);
                    if !nesting_within(content, budget - 1) {
                        return false;
                    }
                }
                i = start + len;
            },
        }
    }
    true
}

} // verus!
