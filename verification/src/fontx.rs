//! FONTX2 bitmap font decoder: parses the fixed header and the Shift-JIS
//! code-block table of a font blob, and resolves characters to byte
//! offsets of their glyph bitmaps.

use vstd::prelude::*;

use crate::sjis::{encode_utf16_to_shiftjis, assemble_sjis_unit, sjis_encoding, SjisEncodeOutcome};

verus! {

/// Addressing scheme of a FONTX2 font.
#[derive(Clone, Copy, Debug, PartialEq, Eq)]
pub enum FONTXCode {
    /// Single-byte addressing: one glyph per byte value.
    ANK,
    /// Double-byte addressing through the code-block table.
    ShiftJIS,
}

/// Failure of constructing a descriptor from a font blob.
#[derive(Clone, Copy, Debug, PartialEq, Eq)]
pub enum InitializationError {
    /// The blob is not a FONTX2 file this decoder accepts: bad magic,
    /// unrecognized code flag, zero dimensions, or too short for the
    /// declared header and table.
    InvalidFormat,
}

/// Failure of resolving or rendering a character.
#[derive(Clone, Copy, Debug, PartialEq, Eq)]
pub enum RenderFailureReason {
    /// The character exceeds 0xFFFF, has no Shift-JIS encoding, or falls
    /// outside every addressed range or byte value.
    UnsupportedCharacter,
    /// An internal invariant failed (encoder output overflow), the resolved
    /// offset does not fit the machine, or the font data or the output
    /// buffer is too small for the glyph.
    UnknownError,
}

/// Bytes per row of a glyph bitmap: one bit per dot, packed MSB-first.
pub open spec fn row_bytes(width: nat) -> nat {
    (width + 7) / 8
}

/// Bytes of one glyph bitmap for the given dot dimensions.
pub open spec fn glyph_byte_size(width: nat, height: nat) -> nat {
    row_bytes(width) * height
}

/// Computes ceil(width / 8) * height, the storage size of one glyph.
pub fn glyph_size(width: u8, height: u8) -> (sz: usize)
    ensures
        sz == glyph_byte_size(width as nat, height as nat),
        sz <= 8160,
{
    let row: usize = (width as usize + 7) / 8;
    assert(row * (height as usize) <= 8160) by (nonlinear_arith)
        requires
            row <= 32,
            height <= 255,
    ;
    row * (height as usize)
}

/// The UTF-16 code unit of a character of the basic multilingual plane.
pub open spec fn utf16_unit(c: char) -> u16 {
    (c as u32) as u16
}

/// The first six blob bytes are the ASCII magic "FONTX2".
pub open spec fn magic_ok(rom: Seq<u8>) -> bool {
    &&& rom.len() >= 6
    &&& rom[0] == 0x46
    &&& rom[1] == 0x4f
    &&& rom[2] == 0x4e
    &&& rom[3] == 0x54
    &&& rom[4] == 0x58
    &&& rom[5] == 0x32
}

/// Where the glyph bitmap region begins: byte 17 for an ANK font, else
/// after the four-byte table entries that the 18th byte counts.
pub open spec fn header_size(rom: Seq<u8>) -> int {
    if rom[16] == 0 {
        17
    } else {
        18 + 4 * (rom[17] as int)
    }
}

/// The blobs from which construction produces a descriptor: at least the
/// 18-byte prefix, the magic, positive dot dimensions, a known code flag,
/// and room for the declared code-block table.
pub open spec fn parse_ok(rom: Seq<u8>) -> bool {
    &&& rom.len() >= 18
    &&& magic_ok(rom)
    &&& rom[14] > 0
    &&& rom[15] > 0
    &&& (rom[16] == 0 || rom[16] == 1)
    &&& rom.len() >= header_size(rom)
}

/// Immutable descriptor of a FONTX2 font blob. It borrows the blob and
/// holds the decoded header fields; the blob must outlive it.
pub struct FONTX<'a> {
    rom: &'a [u8],
    code: FONTXCode,
    width: usize,
    height: usize,
    char_sz: usize,
    codeblocks: usize,
    headersz: usize,
}

impl<'a> FONTX<'a> {
    /// The backing font blob.
    pub closed spec fn spec_rom(self) -> Seq<u8> {
        self.rom@
    }

    /// The addressing scheme.
    pub closed spec fn spec_mode(self) -> FONTXCode {
        self.code
    }

    /// Glyph width in dots.
    pub closed spec fn spec_width(self) -> int {
        self.width as int
    }

    /// Glyph height in dots.
    pub closed spec fn spec_height(self) -> int {
        self.height as int
    }

    /// Bytes per glyph bitmap.
    pub closed spec fn spec_char_sz(self) -> int {
        self.char_sz as int
    }

    /// Number of entries of the code-block table.
    pub closed spec fn spec_codeblocks(self) -> int {
        self.codeblocks as int
    }

    /// Byte offset of the glyph bitmap region.
    pub closed spec fn spec_headersz(self) -> int {
        self.headersz as int
    }

    /// Well-formedness: what construction establishes and every method
    /// preserves.
    pub open spec fn wf(self) -> bool {
        &&& 0 < self.spec_width() <= 255
        &&& 0 < self.spec_height() <= 255
        &&& self.spec_char_sz() == glyph_byte_size(self.spec_width() as nat, self.spec_height() as nat)
        &&& 0 <= self.spec_codeblocks() <= 255
        &&& (match self.spec_mode() {
            FONTXCode::ANK => self.spec_codeblocks() == 0 && self.spec_headersz() == 17,
            FONTXCode::ShiftJIS => self.spec_headersz() == 18 + 4 * self.spec_codeblocks(),
        })
        &&& self.spec_rom().len() >= 18
        &&& self.spec_rom().len() >= self.spec_headersz()
    }

    /// Inclusive lower bound of table entry `i`, little-endian.
    pub open spec fn block_start(self, i: int) -> int {
        self.spec_rom()[18 + 4 * i] + 256 * self.spec_rom()[18 + 4 * i + 1]
    }

    /// Inclusive upper bound of table entry `i`, little-endian.
    pub open spec fn block_end(self, i: int) -> int {
        self.spec_rom()[18 + 4 * i + 2] + 256 * self.spec_rom()[18 + 4 * i + 3]
    }

    /// Whether table entry `i` covers the code unit.
    pub open spec fn block_covers(self, i: int, code: u16) -> bool {
        self.block_start(i) <= code as int <= self.block_end(i)
    }

    /// How many glyphs table entry `i` stores: the extent of its range, or
    /// none where its bounds are inverted.
    pub open spec fn block_size(self, i: int) -> int {
        if self.block_start(i) <= self.block_end(i) {
            self.block_end(i) - self.block_start(i) + 1
        } else {
            0
        }
    }

    /// Glyphs stored by the table entries before entry `i`.
    pub open spec fn blocks_size_before(self, i: int) -> int
        decreases i,
    {
        if i <= 0 {
            0
        } else {
            self.blocks_size_before(i - 1) + self.block_size(i - 1)
        }
    }

    /// The first table entry at or after `i` that covers the code unit.
    pub open spec fn first_match_from(self, code: u16, i: int) -> Option<int>
        decreases self.spec_codeblocks() - i,
    {
        if i < 0 || i >= self.spec_codeblocks() {
            None
        } else if self.block_covers(i, code) {
            Some(i)
        } else {
            self.first_match_from(code, i + 1)
        }
    }

    /// Position of the code unit's glyph within the bitmap region: in ANK
    /// mode the byte value itself; in Shift-JIS mode the glyphs of all
    /// earlier table entries plus the position within the first entry that
    /// covers the code unit.
    pub open spec fn glyph_index(self, code: u16) -> Option<int> {
        match self.spec_mode() {
            FONTXCode::ANK => if code <= 0xFF {
                Some(code as int)
            } else {
                None
            },
            FONTXCode::ShiftJIS => match self.first_match_from(code, 0) {
                Some(i) => Some(self.blocks_size_before(i) + code - self.block_start(i)),
                None => None,
            },
        }
    }

    /// Byte offset of the glyph with the given index.
    pub open spec fn glyph_offset_at(self, index: int) -> int {
        self.spec_headersz() + index * self.spec_char_sz()
    }

    /// Parses a font blob into a descriptor. Succeeds exactly on the blobs
    /// that `parse_ok` admits and decodes the header field by field.
    pub fn new(rom: &'a [u8]) -> (r: Result<FONTX<'a>, InitializationError>)
        ensures
            r is Ok <==> parse_ok(rom@),
            r is Err ==> r == Err::<FONTX<'a>, InitializationError>(
                InitializationError::InvalidFormat,
            ),
            (r matches Ok(d) ==> {
                &&& d.wf()
                &&& d.spec_rom() == rom@
                &&& d.spec_width() == rom@[14]
                &&& d.spec_height() == rom@[15]
                &&& d.spec_mode() == (if rom@[16] == 0 {
                    FONTXCode::ANK
                } else {
                    FONTXCode::ShiftJIS
                })
                &&& d.spec_codeblocks() == (if rom@[16] == 0 {
                    0int
                } else {
                    rom@[17] as int
                })
                &&& d.spec_headersz() == header_size(rom@)
            }),
    {
        if rom.len() < 18 {
            return Err(InitializationError::InvalidFormat);
        }
        if !(rom[0] == 0x46 && rom[1] == 0x4f && rom[2] == 0x4e && rom[3] == 0x54 && rom[4]
            == 0x58 && rom[5] == 0x32) {
            return Err(InitializationError::InvalidFormat);
        }
        let width = rom[14];
        let height = rom[15];
        if width == 0 || height == 0 {
            return Err(InitializationError::InvalidFormat);
        }
        let code_flag = rom[16];
        let code = match code_flag {
            0 => FONTXCode::ANK,
            1 => FONTXCode::ShiftJIS,
            _ => {
                return Err(InitializationError::InvalidFormat);
            },
        };
        let codeblocks: usize = if code_flag == 0 {
            0
        } else {
            rom[17] as usize
        };
        let headersz: usize = if code_flag == 0 {
            17
        } else {
            18 + 4 * codeblocks
        };
        if rom.len() < headersz {
            return Err(InitializationError::InvalidFormat);
        }
        let char_sz = glyph_size(width, height);
        Ok(
            FONTX {
                rom,
                code,
                width: width as usize,
                height: height as usize,
                char_sz,
                codeblocks,
                headersz,
            },
        )
    }

    /// A well-formed descriptor stores every glyph in at least one and at
    /// most 8160 bytes.
    pub proof fn lemma_char_sz_bounds(self)
        requires
            self.wf(),
        ensures
            1 <= self.spec_char_sz() <= 8160,
    {
        let w = self.spec_width() as nat;
        let h = self.spec_height() as nat;
        assert(1 <= row_bytes(w) <= 32);
        assert(row_bytes(w) * h <= 8160) by (nonlinear_arith)
            requires
                row_bytes(w) <= 32,
                h <= 255,
        ;
        assert(row_bytes(w) * h >= 1) by (nonlinear_arith)
            requires
                row_bytes(w) >= 1,
                h >= 1,
        ;
    }

    /// The glyph count of a table prefix is non-negative and at most 65536
    /// per entry.
    proof fn lemma_blocks_size_before_bound(self, i: int)
        requires
            0 <= i,
        ensures
            0 <= self.blocks_size_before(i) <= i * 65536,
        decreases i,
    {
        if i > 0 {
            self.lemma_blocks_size_before_bound(i - 1);
        }
    }

    /// `first_match_from` finds entry `j` where `j` covers the code unit
    /// and no entry from `from` up to `j` does.
    proof fn lemma_first_match_from_found(self, code: u16, from: int, j: int)
        requires
            0 <= from <= j < self.spec_codeblocks(),
            self.block_covers(j, code),
            forall|i: int| from <= i < j ==> !self.block_covers(i, code),
        ensures
            self.first_match_from(code, from) == Some(j),
        decreases j - from,
    {
        if from < j {
            self.lemma_first_match_from_found(code, from + 1, j);
        }
    }

    /// `first_match_from` finds nothing where no entry from `from` on
    /// covers the code unit.
    proof fn lemma_first_match_from_none(self, code: u16, from: int)
        requires
            0 <= from,
            forall|i: int| from <= i < self.spec_codeblocks() ==> !self.block_covers(i, code),
        ensures
            self.first_match_from(code, from) is None,
        decreases self.spec_codeblocks() - from,
    {
        if from < self.spec_codeblocks() {
            self.lemma_first_match_from_none(code, from + 1);
        }
    }

    /// Resolves an already-encoded Shift-JIS code unit to the byte offset
    /// of its glyph bitmap within the blob. Succeeds exactly where the
    /// addressing scheme assigns the code unit a glyph whose offset fits
    /// the machine; a code unit without a glyph is unsupported, and an
    /// offset beyond `usize` cannot lie within any blob.
    pub fn resolve_sjis_offset(&self, sjis_code: u16) -> (r: Result<usize, RenderFailureReason>)
        requires
            self.wf(),
        ensures
            r is Ok <==> (self.glyph_index(sjis_code) matches Some(idx)
                && self.glyph_offset_at(idx) <= usize::MAX),
            (r matches Ok(off) ==> self.glyph_index(sjis_code) matches Some(idx)
                && off == self.glyph_offset_at(idx)),
            r == Err::<usize, RenderFailureReason>(RenderFailureReason::UnsupportedCharacter)
                <==> self.glyph_index(sjis_code) is None,
            r == Err::<usize, RenderFailureReason>(RenderFailureReason::UnknownError)
                <==> (self.glyph_index(sjis_code) matches Some(idx)
                && self.glyph_offset_at(idx) > usize::MAX),
    {
        proof {
            self.lemma_char_sz_bounds();
        }
        match self.code {
            FONTXCode::ANK => {
                if sjis_code <= 0xFF {
                    let idx = sjis_code as usize;
                    assert(idx * self.char_sz <= 255 * 8160) by (nonlinear_arith)
                        requires
                            idx <= 255,
                            self.char_sz <= 8160,
                    ;
                    Ok(self.headersz + idx * self.char_sz)
                } else {
                    Err(RenderFailureReason::UnsupportedCharacter)
                }
            },
            FONTXCode::ShiftJIS => {
                let mut charcnt: usize = 0;
                let mut blk: usize = 0;
                while blk < self.codeblocks
                    invariant
                        self.wf(),
                        blk <= self.codeblocks,
                        charcnt == self.blocks_size_before(blk as int),
                        charcnt <= blk * 65536,
                        self.first_match_from(sjis_code, 0) == self.first_match_from(
                            sjis_code,
                            blk as int,
                        ),
                    decreases self.codeblocks - blk,
                {
                    let off = 18 + 4 * blk;
                    let sb: u16 = self.rom[off] as u16 + self.rom[off + 1] as u16 * 256;
                    let eb: u16 = self.rom[off + 2] as u16 + self.rom[off + 3] as u16 * 256;
                    if sb <= sjis_code && sjis_code <= eb {
                        let idx = charcnt + (sjis_code - sb) as usize;
                        proof {
                            assert(self.first_match_from(sjis_code, blk as int) == Some(
                                blk as int,
                            ));
                            self.lemma_char_sz_bounds();
                        }
                        return match idx.checked_mul(self.char_sz) {
                            Some(prod) => match prod.checked_add(self.headersz) {
                                Some(offset) => Ok(offset),
                                None => Err(RenderFailureReason::UnknownError),
                            },
                            None => Err(RenderFailureReason::UnknownError),
                        };
                    }
                    proof {
                        assert(self.first_match_from(sjis_code, blk as int)
                            == self.first_match_from(sjis_code, blk as int + 1));
                        self.lemma_blocks_size_before_bound(blk as int + 1);
                    }
                    if eb >= sb {
                        charcnt = charcnt + (eb - sb) as usize + 1;
                    }
                    blk = blk + 1;
                }
                assert(self.first_match_from(sjis_code, self.codeblocks as int) is None);
                Err(RenderFailureReason::UnsupportedCharacter)
            },
        }
    }

    /// Encodes the character to Shift-JIS and resolves the byte offset of
    /// its glyph bitmap. Succeeds exactly on the characters of the basic
    /// multilingual plane whose Shift-JIS code unit the addressing scheme
    /// assigns a glyph with an offset that fits the machine; a character
    /// beyond 0xFFFF, one without a Shift-JIS encoding, and one whose code
    /// unit no glyph is assigned to are unsupported; an offset beyond
    /// `usize` is an unknown failure.
    pub fn get_sjis_offset(&self, character: char) -> (r: Result<usize, RenderFailureReason>)
        requires
            self.wf(),
        ensures
            character as u32 > 0xFFFF ==> r == Err::<usize, RenderFailureReason>(
                RenderFailureReason::UnsupportedCharacter,
            ),
            r is Ok <==> (character as u32 <= 0xFFFF && (sjis_encoding(
                utf16_unit(character),
            ) matches Some(code) && (self.glyph_index(code) matches Some(idx)
                && self.glyph_offset_at(idx) <= usize::MAX))),
            (r matches Ok(off) ==> (sjis_encoding(utf16_unit(character)) matches Some(code) && (
            self.glyph_index(code) matches Some(idx) && off == self.glyph_offset_at(idx)))),
            r == Err::<usize, RenderFailureReason>(RenderFailureReason::UnsupportedCharacter)
                <==> (character as u32 > 0xFFFF || sjis_encoding(utf16_unit(character)) is None
                || (sjis_encoding(utf16_unit(character)) matches Some(code) && self.glyph_index(
                code,
            ) is None)),
            r == Err::<usize, RenderFailureReason>(RenderFailureReason::UnknownError)
                <==> (character as u32 <= 0xFFFF && (sjis_encoding(
                utf16_unit(character),
            ) matches Some(code) && (self.glyph_index(code) matches Some(idx)
                && self.glyph_offset_at(idx) > usize::MAX))),
    {
        let cv: u32 = character as u32;
        if cv > 0xFFFF {
            return Err(RenderFailureReason::UnsupportedCharacter);
        }
        let code_unit: u16 = cv as u16;
        match encode_utf16_to_shiftjis(code_unit) {
            SjisEncodeOutcome::Encoded(b0, b1, written) => {
                let sjis_code = assemble_sjis_unit(b0, b1, written);
                self.resolve_sjis_offset(sjis_code)
            },
            SjisEncodeOutcome::Unmappable => Err(RenderFailureReason::UnsupportedCharacter),
            SjisEncodeOutcome::OutputExhausted => Err(RenderFailureReason::UnknownError),
        }
    }

    /// The bytes a successful render of the character leaves in an output
    /// buffer that held `dest` before: the glyph bitmap copied from the
    /// blob, then the untouched tail of `dest`.
    pub open spec fn render_writes(self, character: char, dest: Seq<u8>, out: Seq<u8>) -> bool {
        sjis_encoding(utf16_unit(character)) matches Some(code) && (self.glyph_index(
            code,
        ) matches Some(idx) && out == self.spec_rom().subrange(
            self.glyph_offset_at(idx),
            self.glyph_offset_at(idx) + self.spec_char_sz(),
        ) + dest.skip(self.spec_char_sz()))
    }

    /// Renders the character's glyph bitmap into the start of `buf` and
    /// returns the dot dimensions. Succeeds exactly where `get_sjis_offset`
    /// resolves an offset whose glyph lies within the blob and `buf` holds
    /// at least one glyph; fails without touching `buf`: an unsupported
    /// character exactly as `get_sjis_offset`, and an unknown failure where
    /// the offset cannot fit the machine or `buf` or the blob is too short
    /// for the glyph.
    pub fn render(&self, character: char, buf: &mut [u8]) -> (r: Result<
        (usize, usize),
        RenderFailureReason,
    >)
        requires
            self.wf(),
        ensures
            final(buf)@.len() == old(buf)@.len(),
            character as u32 > 0xFFFF ==> r == Err::<(usize, usize), RenderFailureReason>(
                RenderFailureReason::UnsupportedCharacter,
            ),
            r is Ok <==> (character as u32 <= 0xFFFF && (sjis_encoding(
                utf16_unit(character),
            ) matches Some(code) && (self.glyph_index(code) matches Some(idx)
                && self.glyph_offset_at(idx) + self.spec_char_sz() <= self.spec_rom().len()
                && old(buf)@.len() >= self.spec_char_sz()))),
            (r matches Ok(dims) ==> {
                &&& dims == (self.spec_width() as usize, self.spec_height() as usize)
                &&& self.render_writes(character, old(buf)@, final(buf)@)
            }),
            r is Err ==> final(buf)@ == old(buf)@,
            r == Err::<(usize, usize), RenderFailureReason>(
                RenderFailureReason::UnsupportedCharacter,
            ) <==> (character as u32 > 0xFFFF || sjis_encoding(utf16_unit(character)) is None || (
            sjis_encoding(utf16_unit(character)) matches Some(code) && self.glyph_index(
                code,
            ) is None)),
            r == Err::<(usize, usize), RenderFailureReason>(RenderFailureReason::UnknownError)
                <==> (character as u32 <= 0xFFFF && (sjis_encoding(
                utf16_unit(character),
            ) matches Some(code) && (self.glyph_index(code) matches Some(idx) && (
            self.glyph_offset_at(idx) > usize::MAX || old(buf)@.len() < self.spec_char_sz()
                || self.glyph_offset_at(idx) + self.spec_char_sz() > self.spec_rom().len())))),
    {
        let rom_len = self.rom.len();
        if character as u32 > 0xFFFF {
            return Err(RenderFailureReason::UnsupportedCharacter);
        }
        let off = match self.get_sjis_offset(character) {
            Ok(o) => o,
            Err(e) => {
                return Err(e);
            },
        };
        if buf.len() < self.char_sz {
            return Err(RenderFailureReason::UnknownError);
        }
        let end = match off.checked_add(self.char_sz) {
            Some(e) => e,
            None => {
                return Err(RenderFailureReason::UnknownError);
            },
        };
        if end > rom_len {
            return Err(RenderFailureReason::UnknownError);
        }
        let mut i: usize = 0;
        while i < self.char_sz
            invariant
                i <= self.char_sz,
                rom_len == self.rom@.len(),
                off + self.char_sz <= rom_len,
                buf@.len() == old(buf)@.len(),
                self.char_sz <= buf@.len(),
                forall|k: int| 0 <= k < i ==> buf@[k] == self.rom@[off + k],
                forall|k: int| i <= k < buf@.len() ==> buf@[k] == old(buf)@[k],
            decreases self.char_sz - i,
        {
            buf[i] = self.rom[off + i];
            i = i + 1;
        }
        assert(buf@ =~= self.spec_rom().subrange(off as int, off + self.spec_char_sz())
            + old(buf)@.skip(self.spec_char_sz()));
        Ok((self.width, self.height))
    }

    /// In ANK mode, every code unit up to 0xFF addresses the glyph at
    /// header size + code * glyph byte size.
    pub proof fn lemma_ank_offset(self, code: u16)
        requires
            self.wf(),
            self.spec_mode() == FONTXCode::ANK,
            code <= 0xFF,
        ensures
            self.glyph_index(code) == Some(code as int),
            self.glyph_offset_at(code as int) == self.spec_headersz() + code * self.spec_char_sz(),
            self.glyph_offset_at(code as int) <= usize::MAX,
    {
        self.lemma_char_sz_bounds();
        assert(code * self.spec_char_sz() <= 255 * 8160) by (nonlinear_arith)
            requires
                code <= 255,
                self.spec_char_sz() <= 8160,
        ;
    }

    /// Within one table range that no earlier range overlaps, resolution
    /// is monotonically increasing with a uniform step of one glyph byte
    /// size per code unit.
    pub proof fn lemma_sjis_offset_monotonic(self, j: int, c1: u16, c2: u16)
        requires
            self.wf(),
            self.spec_mode() == FONTXCode::ShiftJIS,
            0 <= j < self.spec_codeblocks(),
            self.block_covers(j, c1),
            self.block_covers(j, c2),
            c1 <= c2,
            forall|i: int| 0 <= i < j ==> !self.block_covers(i, c1) && !self.block_covers(i, c2),
        ensures
            self.glyph_index(c1) == Some(self.blocks_size_before(j) + c1 - self.block_start(j)),
            self.glyph_index(c2) == Some(self.blocks_size_before(j) + c2 - self.block_start(j)),
            self.glyph_offset_at(self.blocks_size_before(j) + c2 - self.block_start(j))
                - self.glyph_offset_at(self.blocks_size_before(j) + c1 - self.block_start(j))
                == (c2 - c1) * self.spec_char_sz(),
            self.glyph_offset_at(self.blocks_size_before(j) + c1 - self.block_start(j))
                <= self.glyph_offset_at(self.blocks_size_before(j) + c2 - self.block_start(j)),
    {
        self.lemma_first_match_from_found(c1, 0, j);
        self.lemma_first_match_from_found(c2, 0, j);
        let a = self.blocks_size_before(j) - self.block_start(j);
        let z = self.spec_char_sz();
        assert((a + c2) * z - (a + c1) * z == (c2 - c1) * z) by (nonlinear_arith);
        assert((c2 - c1) * z >= 0) by (nonlinear_arith)
            requires
                c1 <= c2,
                z >= 0,
        ;
    }

    /// A code unit that no table range covers resolves to no glyph in
    /// Shift-JIS mode.
    pub proof fn lemma_uncovered_code_fails(self, code: u16)
        requires
            self.wf(),
            self.spec_mode() == FONTXCode::ShiftJIS,
            forall|i: int| 0 <= i < self.spec_codeblocks() ==> !self.block_covers(i, code),
        ensures
            self.glyph_index(code) is None,
    {
        self.lemma_first_match_from_none(code, 0);
    }

    /// Rendering is deterministic: two successful renders of the same
    /// character on the same descriptor, into buffers that held the same
    /// bytes, leave byte-identical buffers.
    pub proof fn lemma_render_deterministic(
        self,
        character: char,
        dest: Seq<u8>,
        out1: Seq<u8>,
        out2: Seq<u8>,
    )
        requires
            self.render_writes(character, dest, out1),
            self.render_writes(character, dest, out2),
        ensures
            out1 == out2,
    {
    }
}

/// A blob whose first six bytes are not the FONTX2 magic is never
/// accepted by construction.
pub proof fn lemma_bad_magic_rejected(rom: Seq<u8>)
    requires
        !magic_ok(rom),
    ensures
        !parse_ok(rom),
{
}

} // verus!
