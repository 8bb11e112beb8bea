use vstd::prelude::*;
use vstd::pervasive::VecAdditionalExecFns;
use vstd::string::StrSliceExecFns;

verus! {

// Text handling around the protocol: lossy UTF-8 decoding, decoding
// under a named charset through the platform converter, and the
// conversion from translated braille text to cell values.

/// First code point of the Unicode braille-pattern block.
pub const BRAILLE_BLOCK_FIRST: u32 = 0x2800;

/// Last code point of the Unicode braille-pattern block.
pub const BRAILLE_BLOCK_LAST: u32 = 0x28ff;

/// The characters that lossy UTF-8 decoding yields for a byte string: a
/// fixed function of the bytes alone.
pub uninterp spec fn utf8_lossy_of(bytes: Seq<u8>) -> Seq<char>;

/// Relies on `String::from_utf8_lossy` of std: the result is a function
/// of the bytes alone, invalid sequences becoming replacement characters;
/// ASCII bytes decode to themselves.
#[verifier::external_body]
pub fn utf8_lossy(bytes: &Vec<u8>) -> (r: String)
    ensures
        r@ == utf8_lossy_of(bytes@),
        (forall|i: int| 0 <= i < bytes@.len() ==> bytes@[i] < 0x80) ==> r@ == Seq::new(
            bytes@.len(),
            |i: int| bytes@[i] as char,
        ),
{
    String::from_utf8_lossy(bytes.as_slice()).into_owned()
}

/// Relies on `iconv_native::decode_lossy`: decodes the bytes under the
/// named charset, replacing what cannot be represented.  The call fails
/// exactly where the platform converter does not know the charset; the
/// platform decides the outcome, so nothing is promised of it.
#[verifier::external_body]
pub fn charset_decode_lossy(text: &Vec<u8>, charset: &str) -> (r: Option<String>) {
    match iconv_native::decode_lossy(text.as_slice(), charset) {
        Ok(s) => Some(s),
        Err(_) => None,
    }
}

/// A character of the Unicode braille-pattern block.
pub open spec fn in_braille_block(c: char) -> bool {
    BRAILLE_BLOCK_FIRST <= c as u32 <= BRAILLE_BLOCK_LAST
}

/// The cell value of a braille-pattern character: its offset in the
/// block, one bit per dot.
pub open spec fn braille_cell(c: char) -> u8
    recommends
        in_braille_block(c),
{
    ((c as u32) - BRAILLE_BLOCK_FIRST) as u8
}

/// The cells a translated text fills a region of `length` cells with:
/// one cell per character, left-justified, padded with blank cells and
/// truncated at the region's end.
pub open spec fn spec_braille_cells(trans: Seq<char>, length: int) -> Seq<u8> {
    Seq::new(
        length as nat,
        |i: int|
            if i < trans.len() {
                braille_cell(trans[i])
            } else {
                0u8
            },
    )
}

/// The characters a region of `length` cells takes from a translation
/// all lie in the braille-pattern block.
pub open spec fn braille_cells_ok(trans: Seq<char>, length: int) -> bool {
    forall|i: int| 0 <= i < length && i < trans.len() ==> in_braille_block(#[trigger] trans[i])
}

/// Builds the cells of a region from a translated text: `None` exactly
/// when a character within the region is no braille pattern.
pub fn braille_cells_of(translated: &String, length: usize) -> (r: Option<Vec<u8>>)
    ensures
        match r {
            Option::Some(v) => braille_cells_ok(translated@, length as int) && v@
                == spec_braille_cells(translated@, length as int),
            Option::None => !braille_cells_ok(translated@, length as int),
        },
{
    let chars = translated.as_str().unicode_len();
    let used = if chars < length {
        chars
    } else {
        length
    };
    let mut cells: Vec<u8> = Vec::new();
    let mut i: usize = 0;
    while i < used
        invariant
            i <= used,
            used <= length,
            used <= translated@.len(),
            used == if translated@.len() < length {
                translated@.len() as int
            } else {
                length as int
            },
            cells@.len() == i,
            forall|k: int| 0 <= k < i ==> in_braille_block(#[trigger] translated@[k]),
            forall|k: int| 0 <= k < i ==> cells@[k] == braille_cell(translated@[k]),
        decreases used - i,
    {
        let c = translated.as_str().get_char(i);
        let v = c as u32;
        if v < BRAILLE_BLOCK_FIRST || v > BRAILLE_BLOCK_LAST {
            return None;
        }
        cells.push((v - BRAILLE_BLOCK_FIRST) as u8);
        i = i + 1;
    }
    while i < length
        invariant
            used <= i <= length,
            used <= translated@.len(),
            used == if translated@.len() < length {
                translated@.len() as int
            } else {
                length as int
            },
            cells@.len() == i,
            forall|k: int| 0 <= k < used ==> in_braille_block(#[trigger] translated@[k]),
            forall|k: int| 0 <= k < used ==> cells@[k] == braille_cell(translated@[k]),
            forall|k: int| used <= k < i ==> cells@[k] == 0u8,
        decreases length - i,
    {
        cells.push(0);
        i = i + 1;
    }
    proof {
        assert(cells@ =~= spec_braille_cells(translated@, length as int));
    }
    Some(cells)
}

/// The value of one cell after the optional masks: the cell AND the
/// corresponding mask byte, then OR the other.
pub open spec fn masked_cell(base: u8, and: Option<Seq<u8>>, or: Option<Seq<u8>>, i: int) -> u8 {
    let anded = match and {
        Option::Some(a) => (base & a[i]) as u8,
        Option::None => base,
    };
    match or {
        Option::Some(o) => (anded | o[i]) as u8,
        Option::None => anded,
    }
}

/// A cell vector after the optional AND and OR masks.
pub open spec fn spec_masked_cells(cells: Seq<u8>, and: Option<Seq<u8>>, or: Option<Seq<u8>>) -> Seq<
    u8,
> {
    Seq::new(cells.len(), |i: int| masked_cell(cells[i], and, or, i))
}

/// Applies the optional masks in place: every cell is ANDed with its
/// mask byte and ORed with the other, as the masks' lengths allow.
pub fn apply_masks(cells: &mut Vec<u8>, and: &Option<Vec<u8>>, or: &Option<Vec<u8>>)
    requires
        (and is Some ==> and->0@.len() == old(cells)@.len()),
        (or is Some ==> or->0@.len() == old(cells)@.len()),
    ensures
        final(cells)@ == spec_masked_cells(
            old(cells)@,
            crate::packets::view_opt_bytes(and),
            crate::packets::view_opt_bytes(or),
        ),
{
    let ghost base = cells@;
    if let Some(a) = and {
        let mut i: usize = 0;
        while i < cells.len()
            invariant
                i <= cells@.len(),
                cells@.len() == base.len(),
                a@.len() == base.len(),
                forall|k: int| 0 <= k < i ==> cells@[k] == (base[k] & a@[k]),
                forall|k: int| i <= k < base.len() ==> cells@[k] == base[k],
            decreases cells@.len() - i,
        {
            let v = cells[i] & a[i];
            cells.set(i, v);
            i = i + 1;
        }
    }
    let ghost anded = cells@;
    if let Some(o) = or {
        let mut i: usize = 0;
        while i < cells.len()
            invariant
                i <= cells@.len(),
                cells@.len() == anded.len(),
                anded.len() == base.len(),
                o@.len() == base.len(),
                forall|k: int| 0 <= k < i ==> cells@[k] == (anded[k] | o@[k]),
                forall|k: int| i <= k < base.len() ==> cells@[k] == anded[k],
            decreases cells@.len() - i,
        {
            let v = cells[i] | o[i];
            cells.set(i, v);
            i = i + 1;
        }
    }
    proof {
        assert(cells@ =~= spec_masked_cells(
            base,
            crate::packets::view_opt_bytes(and),
            crate::packets::view_opt_bytes(or),
        ));
    }
}

} // verus!
