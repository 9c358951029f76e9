//! Exif data in the bytes of a JPEG or PNG file, and its removal.
//!
//! A JPEG file starts with the marker `FF D8`. Until the image data begins
//! it is a run of items: a marker of two bytes that stands alone, or a
//! segment, which is a marker, a length of two bytes that counts itself, and
//! a payload. Any marker may be preceded by fill bytes `FF`, which belong to
//! its item. Exif data sits in segments with the marker `FF E1` whose payload
//! starts with `Exif` and two zero bytes.
//!
//! A PNG file starts with a signature of eight bytes, followed by chunks:
//! a length of four bytes, a type of four bytes, as many bytes of data as the
//! length says, and a checksum of four bytes. Exif data sits in chunks of
//! type `eXIf`.
//!
//! In both, every item tells its own size, so that an item can be taken out
//! and the rest stays a well-formed run.

use vstd::prelude::*;

verus! {

/// The two layouts in which Exif data can be found and removed.
#[derive(Clone, Copy, Debug, PartialEq, Eq, Structural)]
pub enum Layout {
    /// Marker segments after `FF D8`.
    Jpeg,
    /// Chunks after the PNG signature.
    Png,
}

/// The eight bytes that open a PNG file.
pub open spec fn png_signature() -> Seq<u8> {
    seq![0x89u8, 0x50u8, 0x4Eu8, 0x47u8, 0x0Du8, 0x0Au8, 0x1Au8, 0x0Au8]
}

/// The six bytes that open an Exif payload in a JPEG segment.
pub open spec fn exif_tag() -> Seq<u8> {
    seq![0x45u8, 0x78u8, 0x69u8, 0x66u8, 0x00u8, 0x00u8]
}

/// The type of the PNG chunk that holds Exif data.
pub open spec fn exif_chunk_type() -> Seq<u8> {
    seq![0x65u8, 0x58u8, 0x49u8, 0x66u8]
}

/// Whether the file starts as a JPEG file does.
pub open spec fn is_jpeg(data: Seq<u8>) -> bool {
    data.len() >= 2 && data[0] == 0xFF && data[1] == 0xD8
}

/// Whether the file starts as a PNG file does.
pub open spec fn is_png(data: Seq<u8>) -> bool {
    data.len() >= 8 && data.subrange(0, 8) == png_signature()
}

/// The layout of a file, if it is one of the two.
pub open spec fn layout_of(data: Seq<u8>) -> Option<Layout> {
    if is_jpeg(data) {
        Some(Layout::Jpeg)
    } else if is_png(data) {
        Some(Layout::Png)
    } else {
        None
    }
}

/// The number of bytes before the first item of a file.
pub open spec fn header_len(layout: Layout) -> int {
    match layout {
        Layout::Jpeg => 2,
        Layout::Png => 8,
    }
}

/// The number of `FF` bytes at the front of `rest`.
pub open spec fn leading_fill(rest: Seq<u8>) -> int
    decreases rest.len(),
{
    if rest.len() > 0 && rest[0] == 0xFF {
        1 + leading_fill(rest.skip(1))
    } else {
        0
    }
}

/// Whether a JPEG marker code stands alone, without a length and a payload.
pub open spec fn is_standalone(code: u8) -> bool {
    code == 0x01 || (0xD0 <= code && code <= 0xD7)
}

/// Whether a byte after `FF` ends the run of JPEG items: the start of the
/// image data, the end of the file, a second start, or no marker at all.
pub open spec fn ends_items(code: u8) -> bool {
    code == 0xDA || code == 0xD9 || code == 0xD8 || code == 0x00
}

/// The number of bytes of the JPEG item at the front of `rest`, its fill
/// bytes included, or zero where the run of items ends: at the image data,
/// at the end of the file, or where the bytes are not a whole item.
pub open spec fn jpeg_item_size(rest: Seq<u8>) -> int {
    let k = leading_fill(rest);
    if k == 0 || rest.len() <= k || ends_items(rest[k]) {
        0
    } else if is_standalone(rest[k]) {
        k + 1
    } else if rest.len() < k + 3 {
        0
    } else {
        let length = rest[k + 1] * 256 + rest[k + 2];
        if length < 2 || k + 1 + length > rest.len() {
            0
        } else {
            k + 1 + length
        }
    }
}

/// Whether the JPEG item at the front of `rest` is a segment that holds
/// Exif data.
pub open spec fn jpeg_is_exif(rest: Seq<u8>) -> bool {
    let k = leading_fill(rest);
    jpeg_item_size(rest) >= k + 9 && rest[k] == 0xE1 && rest.subrange(k + 3, k + 9) == exif_tag()
}

/// The number that four bytes at the front of `rest` denote, the first byte
/// counting most.
pub open spec fn big_endian_32(rest: Seq<u8>) -> int {
    rest[0] * 0x100_0000 + rest[1] * 0x1_0000 + rest[2] * 0x100 + rest[3]
}

/// The number of bytes of the PNG chunk at the front of `rest`, or zero
/// where the bytes are not a whole chunk.
pub open spec fn png_item_size(rest: Seq<u8>) -> int {
    if rest.len() < 12 || 12 + big_endian_32(rest) > rest.len() {
        0
    } else {
        12 + big_endian_32(rest)
    }
}

/// Whether the PNG chunk at the front of `rest` holds Exif data.
pub open spec fn png_is_exif(rest: Seq<u8>) -> bool {
    png_item_size(rest) > 0 && rest.subrange(4, 8) == exif_chunk_type()
}

/// The number of bytes of the item at the front of `rest`, or zero where
/// the run of items ends.
pub open spec fn item_size(layout: Layout, rest: Seq<u8>) -> int {
    match layout {
        Layout::Jpeg => jpeg_item_size(rest),
        Layout::Png => png_item_size(rest),
    }
}

/// Whether the item at the front of `rest` holds Exif data.
pub open spec fn is_exif_item(layout: Layout, rest: Seq<u8>) -> bool {
    match layout {
        Layout::Jpeg => jpeg_is_exif(rest),
        Layout::Png => png_is_exif(rest),
    }
}

/// The run of items at the front of `rest` without those that hold Exif
/// data; what follows the run is kept as it is.
pub open spec fn strip_items(layout: Layout, rest: Seq<u8>) -> Seq<u8>
    decreases rest.len(),
{
    let n = item_size(layout, rest);
    if n <= 0 || n > rest.len() {
        rest
    } else if is_exif_item(layout, rest) {
        strip_items(layout, rest.skip(n))
    } else {
        rest.take(n) + strip_items(layout, rest.skip(n))
    }
}

/// Whether the run of items at the front of `rest` has one that holds Exif
/// data.
pub open spec fn has_exif_item(layout: Layout, rest: Seq<u8>) -> bool
    decreases rest.len(),
{
    let n = item_size(layout, rest);
    if n <= 0 || n > rest.len() {
        false
    } else {
        is_exif_item(layout, rest) || has_exif_item(layout, rest.skip(n))
    }
}

/// A JPEG or PNG file without the items that hold Exif data; any other data
/// as it is.
pub open spec fn stripped(data: Seq<u8>) -> Seq<u8> {
    match layout_of(data) {
        Some(layout) => data.take(header_len(layout)) + strip_items(
            layout,
            data.skip(header_len(layout)),
        ),
        None => data,
    }
}

/// Whether the data is a JPEG or PNG file with an item that holds Exif data.
pub open spec fn carries_exif(data: Seq<u8>) -> bool {
    match layout_of(data) {
        Some(layout) => has_exif_item(layout, data.skip(header_len(layout))),
        None => false,
    }
}

/// The fill bytes at the front are counted within the bytes that are there.
proof fn lemma_leading_fill_bounds(rest: Seq<u8>)
    ensures
        0 <= leading_fill(rest) <= rest.len(),
        forall|i: int| 0 <= i < leading_fill(rest) ==> rest[i] == 0xFF,
        leading_fill(rest) < rest.len() ==> rest[leading_fill(rest)] != 0xFF,
    decreases rest.len(),
{
    if rest.len() > 0 && rest[0] == 0xFF {
        let tail = rest.skip(1);
        lemma_leading_fill_bounds(tail);
        assert forall|i: int| 0 <= i < leading_fill(rest) implies rest[i] == 0xFF by {
            if i > 0 {
                assert(rest[i] == tail[i - 1]);
            }
        }
        if leading_fill(rest) < rest.len() {
            assert(rest[leading_fill(rest)] == tail[leading_fill(tail)]);
        }
    }
}

/// Where the fill bytes end within `a`, what follows `a` does not change
/// their number.
proof fn lemma_leading_fill_is_local(a: Seq<u8>, b: Seq<u8>)
    requires
        leading_fill(a) < a.len(),
    ensures
        leading_fill(a + b) == leading_fill(a),
    decreases a.len(),
{
    assert((a + b)[0] == a[0]);
    if a[0] == 0xFF {
        assert((a + b).skip(1) =~= a.skip(1) + b);
        lemma_leading_fill_is_local(a.skip(1), b);
    }
}

/// The size and the kind of the first item depend on the item's own bytes
/// alone: they are the same with anything else behind it.
pub proof fn lemma_item_is_local(layout: Layout, item: Seq<u8>, tail: Seq<u8>, other: Seq<u8>)
    requires
        item_size(layout, item + tail) == item.len(),
        item.len() > 0,
    ensures
        item_size(layout, item + other) == item.len(),
        is_exif_item(layout, item + other) == is_exif_item(layout, item + tail),
{
    let a = item + tail;
    let b = item + other;
    match layout {
        Layout::Jpeg => {
            let k = leading_fill(a);
            lemma_leading_fill_bounds(a);
            lemma_leading_fill_bounds(item);
            assert(k < item.len());
            assert forall|i: int| 0 <= i < item.len() implies a[i] == item[i] && b[i]
                == item[i] by {}
            // The fill bytes of `a` end within the item, so they are those of the item.
            assert(leading_fill(item) == k) by {
                if leading_fill(item) < item.len() {
                    lemma_leading_fill_is_local(item, tail);
                } else {
                    assert(item[k] == 0xFF);
                }
            }
            lemma_leading_fill_is_local(item, other);
            if !is_standalone(a[k]) {
                assert(item.len() >= k + 3);
            }
            if item.len() >= k + 9 {
                assert(a.subrange(k + 3, k + 9) =~= item.subrange(k + 3, k + 9));
                assert(b.subrange(k + 3, k + 9) =~= item.subrange(k + 3, k + 9));
            }
        },
        Layout::Png => {
            assert(item.len() >= 12);
            assert forall|i: int| 0 <= i < item.len() implies a[i] == item[i] && b[i]
                == item[i] by {}
            assert(a.subrange(4, 8) =~= item.subrange(4, 8));
            assert(b.subrange(4, 8) =~= item.subrange(4, 8));
        },
    }
}

/// Nothing is left to remove: the result has no item that holds Exif data.
pub proof fn lemma_strip_items_removes_exif(layout: Layout, rest: Seq<u8>)
    ensures
        !has_exif_item(layout, strip_items(layout, rest)),
    decreases rest.len(),
{
    let n = item_size(layout, rest);
    if n <= 0 || n > rest.len() {
    } else if is_exif_item(layout, rest) {
        lemma_strip_items_removes_exif(layout, rest.skip(n));
    } else {
        let item = rest.take(n);
        let tail = rest.skip(n);
        let kept = strip_items(layout, tail);
        lemma_strip_items_removes_exif(layout, tail);
        assert(item + tail =~= rest);
        lemma_item_is_local(layout, item, tail, kept);
        assert((item + kept).skip(n) =~= kept);
    }
}

/// A run without Exif data is left as it is.
pub proof fn lemma_strip_items_keeps_clean(layout: Layout, rest: Seq<u8>)
    requires
        !has_exif_item(layout, rest),
    ensures
        strip_items(layout, rest) == rest,
    decreases rest.len(),
{
    let n = item_size(layout, rest);
    if n <= 0 || n > rest.len() {
    } else {
        lemma_strip_items_keeps_clean(layout, rest.skip(n));
        assert(rest.take(n) + rest.skip(n) =~= rest);
    }
}

/// The result is never longer than what came in.
pub proof fn lemma_strip_items_shrinks(layout: Layout, rest: Seq<u8>)
    ensures
        strip_items(layout, rest).len() <= rest.len(),
    decreases rest.len(),
{
    let n = item_size(layout, rest);
    if n <= 0 || n > rest.len() {
    } else {
        lemma_strip_items_shrinks(layout, rest.skip(n));
    }
}

/// Stripping removes every item that holds Exif data, is never longer than
/// its input, keeps the kind of the file, changes nothing where there is
/// nothing to remove, and so changes nothing when it is done twice.
pub proof fn lemma_stripped(data: Seq<u8>)
    ensures
        !carries_exif(stripped(data)),
        stripped(data).len() <= data.len(),
        layout_of(stripped(data)) == layout_of(data),
        !carries_exif(data) ==> stripped(data) == data,
        stripped(stripped(data)) == stripped(data),
{
    match layout_of(data) {
        Some(layout) => {
            let h = header_len(layout);
            let rest = data.skip(h);
            let out = stripped(data);
            lemma_strip_items_removes_exif(layout, rest);
            lemma_strip_items_shrinks(layout, rest);
            assert(out.skip(h) =~= strip_items(layout, rest));
            assert forall|i: int| 0 <= i < h implies out[i] == data[i] by {}
            if layout == Layout::Png {
                assert(out.subrange(0, 8) =~= data.subrange(0, 8)) by {
                    assert forall|i: int| 0 <= i < 8 implies out.subrange(0, 8)[i]
                        == data.subrange(0, 8)[i] by {
                        assert(out[i] == data[i]);
                    }
                }
            }
            assert(layout_of(out) == Some(layout));
            if !has_exif_item(layout, rest) {
                lemma_strip_items_keeps_clean(layout, rest);
                assert(data.take(h) + rest =~= data);
            }
            lemma_strip_items_keeps_clean(layout, out.skip(h));
            assert(out.take(h) + out.skip(h) =~= out);
        },
        None => {},
    }
}

/// Computes [`leading_fill`] for the bytes from `pos` on.
fn count_fill(data: &[u8], pos: usize) -> (k: usize)
    requires
        pos <= data.len(),
    ensures
        k == leading_fill(data@.skip(pos as int)),
        pos + k <= data.len(),
{
    let mut i: usize = pos;
    while i < data.len() && data[i] == 0xFF
        invariant
            pos <= i <= data.len(),
            leading_fill(data@.skip(pos as int)) == (i - pos) + leading_fill(data@.skip(i as int)),
        decreases data.len() - i,
    {
        assert(data@.skip(i as int)[0] == data@[i as int]);
        assert(data@.skip(i as int).skip(1) =~= data@.skip(i + 1));
        i = i + 1;
    }
    proof {
        if i < data.len() {
            assert(data@.skip(i as int)[0] == data@[i as int]);
        }
    }
    i - pos
}

/// Computes [`jpeg_item_size`] for the item that starts at `pos`.
fn jpeg_item_size_at(data: &[u8], pos: usize) -> (n: usize)
    requires
        pos <= data.len(),
    ensures
        n == jpeg_item_size(data@.skip(pos as int)),
        pos + n <= data.len(),
{
    let ghost rest = data@.skip(pos as int);
    let left: usize = data.len() - pos;
    let k: usize = count_fill(data, pos);
    if k == 0 || left <= k {
        return 0;
    }
    assert(rest[k as int] == data@[pos + k]);
    let code: u8 = data[pos + k];
    if code == 0xDA || code == 0xD9 || code == 0xD8 || code == 0x00 {
        return 0;
    }
    if code == 0x01 || (0xD0 <= code && code <= 0xD7) {
        return k + 1;
    }
    if left - k < 3 {
        return 0;
    }
    assert(rest[k + 1] == data@[pos + k + 1] && rest[k + 2] == data@[pos + k + 2]);
    let length: usize = (data[pos + k + 1] as usize) * 256 + (data[pos + k + 2] as usize);
    if length < 2 || length > left - k - 1 {
        0
    } else {
        k + 1 + length
    }
}

/// Computes [`jpeg_is_exif`] for the item of `size` bytes that starts at `pos`.
fn jpeg_is_exif_at(data: &[u8], pos: usize, size: usize) -> (r: bool)
    requires
        pos + size <= data.len(),
        size == jpeg_item_size(data@.skip(pos as int)),
    ensures
        r == jpeg_is_exif(data@.skip(pos as int)),
{
    let ghost rest = data@.skip(pos as int);
    let k: usize = count_fill(data, pos);
    if size < 9 || size - 9 < k {
        return false;
    }
    let at: usize = pos + k;
    assert(rest[k as int] == data@[at as int]);
    let r: bool = data[at] == 0xE1 && data[at + 3] == 0x45 && data[at + 4] == 0x78 && data[at + 5]
        == 0x69 && data[at + 6] == 0x66 && data[at + 7] == 0x00 && data[at + 8] == 0x00;
    proof {
        let tag = rest.subrange(k + 3, k + 9);
        assert forall|j: int| 0 <= j < 6 implies tag[j] == data@[at + 3 + j] by {}
        if r {
            assert(tag =~= exif_tag());
        } else if rest[k as int] == 0xE1 {
            assert(tag[0] == data@[at + 3] && tag[1] == data@[at + 4] && tag[2] == data@[at + 5]
                && tag[3] == data@[at + 6] && tag[4] == data@[at + 7] && tag[5] == data@[at + 8]);
            assert(exif_tag()[0] == 0x45 && exif_tag()[1] == 0x78 && exif_tag()[2] == 0x69
                && exif_tag()[3] == 0x66 && exif_tag()[4] == 0x00 && exif_tag()[5] == 0x00);
        }
    }
    r
}

/// Computes [`png_item_size`] for the chunk that starts at `pos`.
fn png_item_size_at(data: &[u8], pos: usize) -> (n: usize)
    requires
        pos <= data.len(),
    ensures
        n == png_item_size(data@.skip(pos as int)),
        pos + n <= data.len(),
{
    let ghost rest = data@.skip(pos as int);
    let left: usize = data.len() - pos;
    if left < 12 {
        return 0;
    }
    assert(rest[0] == data@[pos as int] && rest[1] == data@[pos + 1] && rest[2] == data@[pos + 2]
        && rest[3] == data@[pos + 3]);
    let length: u64 = (data[pos] as u64) * 0x100_0000 + (data[pos + 1] as u64) * 0x1_0000 + (
    data[pos + 2] as u64) * 0x100 + (data[pos + 3] as u64);
    if length > (left - 12) as u64 {
        0
    } else {
        12 + length as usize
    }
}

/// Computes [`png_is_exif`] for the chunk of `size` bytes that starts at `pos`.
fn png_is_exif_at(data: &[u8], pos: usize, size: usize) -> (r: bool)
    requires
        pos + size <= data.len(),
        size == png_item_size(data@.skip(pos as int)),
    ensures
        r == png_is_exif(data@.skip(pos as int)),
{
    let ghost rest = data@.skip(pos as int);
    if size == 0 {
        return false;
    }
    let r: bool = data[pos + 4] == 0x65 && data[pos + 5] == 0x58 && data[pos + 6] == 0x49
        && data[pos + 7] == 0x66;
    proof {
        let kind = rest.subrange(4, 8);
        assert forall|j: int| 0 <= j < 4 implies kind[j] == data@[pos + 4 + j] by {}
        if r {
            assert(kind =~= exif_chunk_type());
        } else {
            assert(kind[0] == data@[pos + 4] && kind[1] == data@[pos + 5] && kind[2] == data@[pos
                + 6] && kind[3] == data@[pos + 7]);
            assert(exif_chunk_type()[0] == 0x65 && exif_chunk_type()[1] == 0x58
                && exif_chunk_type()[2] == 0x49 && exif_chunk_type()[3] == 0x66);
        }
    }
    r
}

/// Computes [`item_size`] for the item that starts at `pos`.
fn item_size_at(layout: Layout, data: &[u8], pos: usize) -> (n: usize)
    requires
        pos <= data.len(),
    ensures
        n == item_size(layout, data@.skip(pos as int)),
        pos + n <= data.len(),
{
    match layout {
        Layout::Jpeg => jpeg_item_size_at(data, pos),
        Layout::Png => png_item_size_at(data, pos),
    }
}

/// Computes [`is_exif_item`] for the item of `size` bytes that starts at `pos`.
fn is_exif_at(layout: Layout, data: &[u8], pos: usize, size: usize) -> (r: bool)
    requires
        pos + size <= data.len(),
        size == item_size(layout, data@.skip(pos as int)),
    ensures
        r == is_exif_item(layout, data@.skip(pos as int)),
{
    match layout {
        Layout::Jpeg => jpeg_is_exif_at(data, pos, size),
        Layout::Png => png_is_exif_at(data, pos, size),
    }
}

/// The layout of a file, by its first bytes.
pub fn detect_layout(data: &[u8]) -> (r: Option<Layout>)
    ensures
        r == layout_of(data@),
{
    let n: usize = data.len();
    if n >= 2 && data[0] == 0xFF && data[1] == 0xD8 {
        return Some(Layout::Jpeg);
    }
    if n < 8 {
        return None;
    }
    let r: bool = data[0] == 0x89 && data[1] == 0x50 && data[2] == 0x4E && data[3] == 0x47
        && data[4] == 0x0D && data[5] == 0x0A && data[6] == 0x1A && data[7] == 0x0A;
    proof {
        let head = data@.subrange(0, 8);
        assert forall|j: int| 0 <= j < 8 implies head[j] == data@[j] by {}
        if r {
            assert(head =~= png_signature());
        } else {
            assert(head[0] == data@[0] && head[1] == data@[1] && head[2] == data@[2] && head[3]
                == data@[3] && head[4] == data@[4] && head[5] == data@[5] && head[6] == data@[6]
                && head[7] == data@[7]);
            assert(png_signature()[0] == 0x89 && png_signature()[1] == 0x50 && png_signature()[2]
                == 0x4E && png_signature()[3] == 0x47 && png_signature()[4] == 0x0D
                && png_signature()[5] == 0x0A && png_signature()[6] == 0x1A && png_signature()[7]
                == 0x0A);
        }
    }
    if r {
        Some(Layout::Png)
    } else {
        None
    }
}

/// Appends the bytes of `data` from `from` up to `to`.
pub fn push_bytes(out: &mut Vec<u8>, data: &[u8], from: usize, to: usize)
    requires
        from <= to <= data.len(),
    ensures
        final(out)@ == old(out)@ + data@.subrange(from as int, to as int),
{
    let mut i: usize = from;
    while i < to
        invariant
            from <= i <= to <= data.len(),
            out@ == old(out)@ + data@.subrange(from as int, i as int),
        decreases to - i,
    {
        out.push(data[i]);
        assert(data@.subrange(from as int, i + 1) =~= data@.subrange(from as int, i as int).push(
            data@[i as int],
        ));
        i = i + 1;
    }
}

/// Removes the items that hold Exif data from the bytes of a JPEG or PNG
/// file. Every other byte is kept in place; data that is neither is returned
/// as it is.
pub fn strip_exif(data: &[u8]) -> (out: Vec<u8>)
    ensures
        out@ == stripped(data@),
        out@.len() <= data@.len(),
        !carries_exif(out@),
{
    proof {
        lemma_stripped(data@);
    }
    let n: usize = data.len();
    let mut out: Vec<u8> = Vec::new();
    let layout: Layout = match detect_layout(data) {
        Some(layout) => layout,
        None => {
            push_bytes(&mut out, data, 0, n);
            assert(data@.subrange(0, n as int) =~= data@);
            return out;
        },
    };
    let mut pos: usize = match layout {
        Layout::Jpeg => 2,
        Layout::Png => 8,
    };
    push_bytes(&mut out, data, 0, pos);
    assert(data@.subrange(0, pos as int) =~= data@.take(pos as int));
    loop
        invariant_except_break
            header_len(layout) <= pos <= n,
            n == data.len(),
            layout_of(data@) == Some(layout),
            stripped(data@) == out@ + strip_items(layout, data@.skip(pos as int)),
        ensures
            out@ == stripped(data@),
        decreases n - pos,
    {
        let ghost rest = data@.skip(pos as int);
        let size: usize = item_size_at(layout, data, pos);
        if size == 0 {
            push_bytes(&mut out, data, pos, n);
            assert(data@.subrange(pos as int, n as int) =~= rest);
            break;
        }
        assert(rest.skip(size as int) =~= data@.skip(pos + size));
        if !is_exif_at(layout, data, pos, size) {
            let ghost before = out@;
            push_bytes(&mut out, data, pos, pos + size);
            assert(data@.subrange(pos as int, pos + size) =~= rest.take(size as int));
            assert(before + (rest.take(size as int) + strip_items(layout, rest.skip(size as int)))
                =~= (before + rest.take(size as int)) + strip_items(
                layout,
                rest.skip(size as int),
            ));
        }
        pos = pos + size;
    }
    out
}

/// Whether the data is a JPEG or PNG file with an item that holds Exif data.
pub fn has_exif(data: &[u8]) -> (r: bool)
    ensures
        r == carries_exif(data@),
{
    let n: usize = data.len();
    let layout: Layout = match detect_layout(data) {
        Some(layout) => layout,
        None => {
            return false;
        },
    };
    let mut pos: usize = match layout {
        Layout::Jpeg => 2,
        Layout::Png => 8,
    };
    loop
        invariant_except_break
            header_len(layout) <= pos <= n,
            n == data.len(),
            layout_of(data@) == Some(layout),
            carries_exif(data@) == has_exif_item(layout, data@.skip(pos as int)),
        ensures
            !carries_exif(data@),
        decreases n - pos,
    {
        let ghost rest = data@.skip(pos as int);
        let size: usize = item_size_at(layout, data, pos);
        if size == 0 {
            break;
        }
        if is_exif_at(layout, data, pos, size) {
            return true;
        }
        assert(rest.skip(size as int) =~= data@.skip(pos + size));
        pos = pos + size;
    }
    false
}

} // verus!
