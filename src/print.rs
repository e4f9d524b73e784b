use vstd::prelude::*;

use crate::attach::UsbError;
use crate::label::{fits_head, label_type_bytes, Label};
use crate::model::{line_width_of, Model};
use crate::status::{ErrorFlags, Status, StatusError};

verus! {

/// Bit `k` (0 = least significant) of byte `b`.
pub open spec fn get_bit(b: u8, k: u8) -> bool {
    (b >> k) & 1u8 == 1u8
}

/// Bit `i` of `bytes`, counting from the most significant bit of the first
/// byte: the order in which raster lines go over the wire.
pub open spec fn bit_at(bytes: Seq<u8>, i: int) -> bool {
    get_bit(bytes[i / 8], (7 - i % 8) as u8)
}

proof fn lemma_set_bit(x: u8, c: u8, k: u8, j: u8)
    requires
        c <= 1,
        k < 8,
        j < 8,
    ensures
        get_bit(x | (c << k), j) == if j == k {
            get_bit(x, j) || c == 1
        } else {
            get_bit(x, j)
        },
{
    assert(get_bit(x | (c << k), j) == if j == k {
        get_bit(x, j) || c == 1
    } else {
        get_bit(x, j)
    }) by (bit_vector)
        requires
            c <= 1,
            k < 8,
            j < 8,
    ;
}

proof fn lemma_zero_bits(j: u8)
    requires
        j < 8,
    ensures
        !get_bit(0u8, j),
{
    assert(!get_bit(0u8, j)) by (bit_vector)
        requires
            j < 8,
    ;
}

/// Writes bits into a byte buffer, most significant bit first, by OR-ing
/// them into the bytes already there.
pub struct BitWriter {
    output: Vec<u8>,
    pos: usize,
}

impl BitWriter {
    pub closed spec fn bytes(&self) -> Seq<u8> {
        self.output@
    }

    /// Number of bits written so far.
    pub closed spec fn position(&self) -> nat {
        self.pos as nat
    }

    /// Starts writing at the first bit of `output`.
    pub fn new(output: Vec<u8>) -> (r: BitWriter)
        ensures
            r.bytes() == output@,
            r.position() == 0,
    {
        BitWriter { output, pos: 0 }
    }

    /// Sets the next bit where `bit` is true and moves on by one bit.
    pub fn write_bit(&mut self, bit: bool)
        requires
            old(self).position() < 8 * old(self).bytes().len(),
            8 * old(self).bytes().len() <= usize::MAX,
        ensures
            final(self).bytes().len() == old(self).bytes().len(),
            final(self).position() == old(self).position() + 1,
            forall|i: int|
                0 <= i < 8 * old(self).bytes().len() ==> #[trigger] bit_at(final(self).bytes(), i)
                    == if i == old(self).position() {
                    bit_at(old(self).bytes(), i) || bit
                } else {
                    bit_at(old(self).bytes(), i)
                },
    {
        let byte = self.pos / 8;
        let k: u8 = 7 - (self.pos % 8) as u8;
        let c: u8 = if bit {
            1
        } else {
            0
        };
        let ghost before = self.output@;
        let v = self.output[byte] | (c << k);
        self.output.set(byte, v);
        proof {
            let after = self.output@;
            assert forall|i: int| 0 <= i < 8 * before.len() implies #[trigger] bit_at(after, i) == if i
                == self.pos {
                bit_at(before, i) || bit
            } else {
                bit_at(before, i)
            } by {
                let j = (7 - i % 8) as u8;
                if i / 8 == byte as int {
                    lemma_set_bit(before[byte as int], c, k, j);
                } else {
                    assert(after[i / 8] == before[i / 8]);
                }
            }
        }
        self.pos = self.pos + 1;
    }

    /// The buffer with the bits written so far.
    pub fn into_bytes(self) -> (r: Vec<u8>)
        ensures
            r@ == self.bytes(),
    {
        self.output
    }
}

/// Pixel values below this are dark and print as a dot.
pub const DARK_THRESHOLD: u8 = 0x80;

pub open spec fn is_dark(luma: u8) -> bool {
    luma < DARK_THRESHOLD
}

/// Bit `i` of the payload of the raster line for pixel row `row`: `margin`
/// zero bits, then one bit per pixel from the right end of the row to the
/// left, set for a dark pixel unless `invert` is set, then zero bits.
pub open spec fn raster_bit(row: Seq<u8>, margin: int, invert: bool, i: int) -> bool {
    if margin <= i < margin + row.len() {
        is_dark(row[row.len() - 1 - (i - margin)]) != invert
    } else {
        false
    }
}

/// Opcode of a raster line command.
pub const RASTER_LINE: u8 = 0x67;

/// `cmd` is the raster line command for pixel row `row` on a head of
/// `line_width` bytes: a three-byte header, then the packed payload.
pub open spec fn is_line_command(
    cmd: Seq<u8>,
    row: Seq<u8>,
    margin: int,
    line_width: u8,
    invert: bool,
) -> bool {
    &&& cmd.len() == 3 + line_width
    &&& cmd[0] == RASTER_LINE
    &&& cmd[1] == 0
    &&& cmd[2] == line_width
    &&& forall|i: int|
        0 <= i < 8 * line_width ==> #[trigger] bit_at(cmd.subrange(3, cmd.len() as int), i)
            == raster_bit(row, margin, invert, i)
}

/// Builds the raster line command for pixels `pixels[start..start + width]`.
fn line_command_at(
    pixels: &[u8],
    start: usize,
    width: usize,
    margin: u32,
    line_width: u8,
    invert: bool,
) -> (r: Vec<u8>)
    requires
        start + width <= pixels@.len(),
        margin + width <= 8 * line_width,
    ensures
        is_line_command(
            r@,
            pixels@.subrange(start as int, start + width),
            margin as int,
            line_width,
            invert,
        ),
{
    let ghost row = pixels@.subrange(start as int, start + width);
    let nbits: usize = 8 * (line_width as usize);
    let mut w = BitWriter::new(vec![0u8; line_width as usize]);
    proof {
        assert forall|i: int| 0 <= i < nbits implies !#[trigger] bit_at(w.bytes(), i) by {
            lemma_zero_bits((7 - i % 8) as u8);
        }
    }
    let mut k: u32 = 0;
    while k < margin
        invariant
            margin + width <= nbits,
            nbits == 8 * line_width,
            w.bytes().len() == line_width,
            0 <= k <= margin,
            w.position() == k,
            forall|i: int| 0 <= i < nbits ==> !#[trigger] bit_at(w.bytes(), i),
        decreases margin - k,
    {
        w.write_bit(false);
        k = k + 1;
    }
    let n = pixels.len();
    let mut c: usize = 0;
    while c < width
        invariant
            n == pixels@.len(),
            start + width <= pixels@.len(),
            row == pixels@.subrange(start as int, start + width),
            margin + width <= nbits,
            nbits == 8 * line_width,
            w.bytes().len() == line_width,
            0 <= c <= width,
            w.position() == margin + c,
            forall|i: int|
                0 <= i < nbits ==> #[trigger] bit_at(w.bytes(), i) == (i < margin + c
                    && raster_bit(row, margin as int, invert, i)),
        decreases width - c,
    {
        let p = pixels[start + width - 1 - c];
        let ghost i0 = margin + c;
        assert(row[row.len() - 1 - (i0 - margin)] == p);
        w.write_bit((p < DARK_THRESHOLD) != invert);
        c = c + 1;
    }
    let mut cmd = vec![RASTER_LINE, 0x00, line_width];
    let mut payload = w.into_bytes();
    let ghost pl = payload@;
    cmd.append(&mut payload);
    proof {
        assert(cmd@.subrange(3, cmd@.len() as int) =~= pl);
        assert forall|i: int| 0 <= i < 8 * line_width implies #[trigger] bit_at(
            cmd@.subrange(3, cmd@.len() as int),
            i,
        ) == raster_bit(row, margin as int, invert, i) by {
            assert(bit_at(pl, i) == (i < margin + width && raster_bit(row, margin as int, invert, i)));
        }
    }
    cmd
}

/// Builds the raster line command for one pixel row: `margin` zero bits,
/// then the row's pixels from right to left, one bit each, set for a dark
/// pixel (XOR `invert`), padded with zero bits to `line_width` bytes.
pub fn encode_line(row: &[u8], margin: u32, line_width: u8, invert: bool) -> (r: Vec<u8>)
    requires
        margin + row@.len() <= 8 * line_width,
    ensures
        is_line_command(r@, row@, margin as int, line_width, invert),
{
    let r = line_command_at(row, 0, row.len(), margin, line_width, invert);
    assert(row@.subrange(0, row@.len() as int) =~= row@);
    r
}

/// An all-dark row packs into `margin` zero bits followed by one set bit per
/// pixel.
pub proof fn lemma_dark_row_bits(cmd: Seq<u8>, row: Seq<u8>, margin: int, line_width: u8)
    requires
        is_line_command(cmd, row, margin, line_width, false),
        forall|c: int| 0 <= c < row.len() ==> is_dark(#[trigger] row[c]),
        0 <= margin,
        margin + row.len() <= 8 * line_width,
    ensures
        forall|i: int|
            0 <= i < margin ==> !#[trigger] bit_at(cmd.subrange(3, cmd.len() as int), i),
        forall|i: int|
            margin <= i < margin + row.len() ==> #[trigger] bit_at(
                cmd.subrange(3, cmd.len() as int),
                i,
            ),
{
    assert forall|i: int| margin <= i < margin + row.len() implies #[trigger] bit_at(
        cmd.subrange(3, cmd.len() as int),
        i,
    ) by {
        assert(is_dark(row[row.len() - 1 - (i - margin)]));
    }
}

/// Encoding a row with inversion complements exactly the pixel bits of the
/// same row encoded without it; the margin and padding bits stay zero.
pub proof fn lemma_invert_complements_pixels(
    plain: Seq<u8>,
    inverted: Seq<u8>,
    row: Seq<u8>,
    margin: int,
    line_width: u8,
)
    requires
        is_line_command(plain, row, margin, line_width, false),
        is_line_command(inverted, row, margin, line_width, true),
        0 <= margin,
    ensures
        forall|i: int|
            margin <= i < margin + row.len() && i < 8 * line_width ==> #[trigger] bit_at(
                inverted.subrange(3, inverted.len() as int),
                i,
            ) == !bit_at(plain.subrange(3, plain.len() as int), i),
        forall|i: int|
            0 <= i < 8 * line_width && !(margin <= i < margin + row.len()) ==> !#[trigger] bit_at(
                inverted.subrange(3, inverted.len() as int),
                i,
            ) && !bit_at(plain.subrange(3, plain.len() as int), i),
{
}

/// A greyscale bitmap, row by row, one luma byte per pixel.
#[derive(Debug)]
pub struct GrayBitmap {
    pub width: u32,
    pub height: u32,
    pub pixels: Vec<u8>,
}

impl GrayBitmap {
    /// The pixel buffer holds exactly `width * height` pixels.
    pub open spec fn wf(&self) -> bool {
        self.pixels@.len() == self.width * self.height
    }

    /// Pixel row `r`, left to right.
    pub open spec fn row(&self, r: int) -> Seq<u8> {
        self.pixels@.subrange(r * self.width, (r + 1) * self.width)
    }

    /// A bitmap of `width` x `height` pixels, or `None` where `pixels` does
    /// not hold exactly that many.
    pub fn new(width: u32, height: u32, pixels: Vec<u8>) -> (r: Option<GrayBitmap>)
        ensures
            r is Some <==> pixels@.len() == width * height,
            r matches Some(b) ==> b.width == width && b.height == height && b.pixels@
                == pixels@,
    {
        assert((width as u64) * (height as u64) <= u64::MAX) by (nonlinear_arith)
            requires
                width <= u32::MAX,
                height <= u32::MAX,
        ;
        if (pixels.len() as u64) == (width as u64) * (height as u64) {
            Some(GrayBitmap { width, height, pixels })
        } else {
            None
        }
    }
}

/// What the printer is to favour.
#[derive(Copy, Clone, Debug, PartialEq, Eq, Structural)]
pub enum PrintPriority {
    Quality,
    Speed,
}

/// Settings of a print job.
#[derive(Copy, Clone, Debug, PartialEq, Eq, Structural)]
pub struct PrintConfig {
    pub priority: PrintPriority,
    pub auto_cut: bool,
    /// Doubles the vertical resolution; the horizontal one is fixed by the
    /// head.
    pub high_res: bool,
    /// Prints light pixels instead of dark ones.
    pub invert: bool,
}

impl Default for PrintConfig {
    /// Quality first, cut after the page, standard resolution, no inversion.
    fn default() -> (r: PrintConfig)
        ensures
            r == (PrintConfig {
                priority: PrintPriority::Quality,
                auto_cut: true,
                high_res: false,
                invert: false,
            }),
    {
        PrintConfig { priority: PrintPriority::Quality, auto_cut: true, high_res: false, invert: false }
    }
}

/// Why a print job failed.
#[derive(Copy, Clone, Debug, PartialEq, Eq, Structural)]
pub enum PrintError {
    UsbError(UsbError),
    StatusError(StatusError),
    /// The printer reported these error conditions.
    StatusErrorFlags(ErrorFlags),
    /// No media is loaded.
    NoMedia,
    /// The bitmap does not have the label's dimensions.
    WrongImageDimensions {
        image_width: u32,
        image_height: u32,
        label_width: u32,
        /// The expected number of rows, `None` for continuous tape.
        label_length: Option<u64>,
    },
}

impl PrintError {
    /// The print error for a failed status request: transfer failures stay
    /// transfer failures.
    pub open spec fn from_status_spec(e: StatusError) -> PrintError {
        match e {
            StatusError::UsbError(u) => PrintError::UsbError(u),
            other => PrintError::StatusError(other),
        }
    }

    pub fn from_status(e: StatusError) -> (r: PrintError)
        ensures
            r == Self::from_status_spec(e),
    {
        match e {
            StatusError::UsbError(u) => PrintError::UsbError(u),
            other => PrintError::StatusError(other),
        }
    }
}

/// The number of rows a label takes: its printable length, doubled in high
/// resolution; `None` for continuous tape.
pub open spec fn expected_rows(l: Label, high_res: bool) -> Option<u64> {
    match l.printable_dots_length {
        None => None,
        Some(n) => Some(
            if high_res {
                (2 * n) as u64
            } else {
                n as u64
            },
        ),
    }
}

/// Why a job for `image` cannot start after status `s`, if it cannot: error
/// flags first, then missing media, then a bitmap of the wrong size.
pub open spec fn print_refusal(s: Status, image: GrayBitmap, config: PrintConfig) -> Option<
    PrintError,
> {
    if s.error_flags.bits != 0 {
        Some(PrintError::StatusErrorFlags(s.error_flags))
    } else {
        match s.label {
            None => Some(PrintError::NoMedia),
            Some(l) => {
                let rows = expected_rows(l, config.high_res);
                if l.printable_dots_width != image.width || (rows matches Some(n) && n
                    != image.height) {
                    Some(
                        PrintError::WrongImageDimensions {
                            image_width: image.width,
                            image_height: image.height,
                            label_width: l.printable_dots_width,
                            label_length: rows,
                        },
                    )
                } else {
                    None
                }
            },
        }
    }
}

/// Print information flags: validate kind, width and length, recover from
/// errors, and prefer quality where asked.
pub open spec fn print_info_flags(config: PrintConfig) -> u8 {
    if config.priority == PrintPriority::Quality {
        0xce
    } else {
        0x8e
    }
}

/// The commands a job sends before its raster lines.
pub open spec fn job_preamble(l: Label, rows: u32, config: PrintConfig) -> Seq<Seq<u8>> {
    let (ty, w, len) = label_type_bytes(l.ty);
    let head = seq![
        seq![0x1bu8, 0x69, 0x61, 0x01],
        seq![
            0x1bu8,
            0x69,
            0x7a,
            print_info_flags(config),
            ty,
            w,
            len,
            (rows % 0x100) as u8,
            (rows / 0x100 % 0x100) as u8,
            (rows / 0x10000 % 0x100) as u8,
            (rows / 0x1000000) as u8,
            0x00,
            0x00,
        ],
        seq![
            0x1bu8,
            0x69,
            0x4d,
            if config.auto_cut {
                0x40u8
            } else {
                0x00u8
            },
        ],
    ];
    let cut = if config.auto_cut {
        seq![seq![0x1bu8, 0x69, 0x41, 0x01]]
    } else {
        Seq::empty()
    };
    let tail = seq![
        seq![
            0x1bu8,
            0x69,
            0x4b,
            if config.high_res {
                0x50u8
            } else {
                0x10u8
            },
        ],
        seq![
            0x1bu8,
            0x69,
            0x64,
            (l.margin_dots_length % 0x100) as u8,
            (l.margin_dots_length / 0x100) as u8,
        ],
        seq![0x4du8, 0x00],
    ];
    head + cut + tail
}

/// Command that prints the page and feeds it out.
pub open spec fn commit_command() -> Seq<u8> {
    seq![0x1au8]
}

/// `cmds` is the whole job for `image` on label `l` of printer `m`: the
/// preamble, one raster line per row from top to bottom, then the commit.
pub open spec fn is_print_job(
    cmds: Seq<Seq<u8>>,
    l: Label,
    image: GrayBitmap,
    config: PrintConfig,
    m: Model,
) -> bool {
    let pre = job_preamble(l, image.height, config);
    &&& cmds.len() == pre.len() + image.height + 1
    &&& cmds.subrange(0, pre.len() as int) == pre
    &&& forall|r: int|
        0 <= r < image.height ==> is_line_command(
            #[trigger] cmds[pre.len() + r],
            image.row(r),
            l.margin_dots_right as int,
            line_width_of(m),
            config.invert,
        )
    &&& cmds.last() == commit_command()
}

/// Appends a command given as bytes.
fn push_command(cmds: &mut Vec<Vec<u8>>, cmd: Vec<u8>)
    ensures
        final(cmds)@ == old(cmds)@.push(cmd),
{
    cmds.push(cmd);
}

/// The preamble of a job for `rows` pixel rows on label `l`.
fn preamble(l: &Label, rows: u32, config: &PrintConfig) -> (r: Vec<Vec<u8>>)
    ensures
        r@.len() == job_preamble(*l, rows, *config).len(),
        forall|k: int| 0 <= k < r@.len() ==> #[trigger] r@[k]@ == job_preamble(*l, rows, *config)[k],
{
    let ghost pre = job_preamble(*l, rows, *config);
    let mut cmds: Vec<Vec<u8>> = Vec::new();
    push_command(&mut cmds, vec![0x1b, 0x69, 0x61, 0x01]);
    let flags: u8 = if config.priority == PrintPriority::Quality {
        0xce
    } else {
        0x8e
    };
    let (ty, w, len) = l.ty.as_bytes();
    push_command(
        &mut cmds,
        vec![
            0x1b,
            0x69,
            0x7a,
            flags,
            ty,
            w,
            len,
            (rows % 0x100) as u8,
            (rows / 0x100 % 0x100) as u8,
            (rows / 0x10000 % 0x100) as u8,
            (rows / 0x1000000) as u8,
            0x00,
            0x00,
        ],
    );
    let mode: u8 = if config.auto_cut {
        0x40
    } else {
        0x00
    };
    push_command(&mut cmds, vec![0x1b, 0x69, 0x4d, mode]);
    if config.auto_cut {
        push_command(&mut cmds, vec![0x1b, 0x69, 0x41, 0x01]);
    }
    let expanded: u8 = if config.high_res {
        0x50
    } else {
        0x10
    };
    push_command(&mut cmds, vec![0x1b, 0x69, 0x4b, expanded]);
    let feed = l.margin_dots_length;
    push_command(&mut cmds, vec![0x1b, 0x69, 0x64, (feed % 0x100) as u8, (feed / 0x100) as u8]);
    push_command(&mut cmds, vec![0x4d, 0x00]);
    proof {
        assert(cmds@.len() == pre.len());
        assert forall|k: int| 0 <= k < cmds@.len() implies #[trigger] cmds@[k]@ == pre[k] by {
            assert(cmds@[k]@ =~= pre[k]);
        }
    }
    cmds
}

/// Checks `image` against the status of the printer and, where it fits the
/// loaded label, builds every command of the print job in the order they are
/// to be sent. Nothing is scaled or cropped: a bitmap of another size is an
/// error.
pub fn print_commands(status: &Status, image: &GrayBitmap, config: &PrintConfig, model: Model) -> (r:
    Result<Vec<Vec<u8>>, PrintError>)
    requires
        image.wf(),
        status.label matches Some(l) ==> fits_head(l, model),
    ensures
        r is Err <==> print_refusal(*status, *image, *config) is Some,
        r matches Err(e) ==> print_refusal(*status, *image, *config) == Some(e),
        r matches Ok(cmds) ==> status.label matches Some(l) && is_print_job(
            cmds@.map_values(|c: Vec<u8>| c@),
            l,
            *image,
            *config,
            model,
        ),
{
    if !status.error_flags.is_empty() {
        return Err(PrintError::StatusErrorFlags(status.error_flags));
    }
    let l = match status.label {
        None => return Err(PrintError::NoMedia),
        Some(l) => l,
    };
    let rows: Option<u64> = match l.printable_dots_length {
        None => None,
        Some(n) => Some(
            if config.high_res {
                2 * (n as u64)
            } else {
                n as u64
            },
        ),
    };
    let height_mismatch = match rows {
        None => false,
        Some(n) => n != image.height as u64,
    };
    if l.printable_dots_width != image.width || height_mismatch {
        return Err(
            PrintError::WrongImageDimensions {
                image_width: image.width,
                image_height: image.height,
                label_width: l.printable_dots_width,
                label_length: rows,
            },
        );
    }
    let lw = model.line_width();
    let mut cmds = preamble(&l, image.height, config);
    let ghost pre = job_preamble(l, image.height, *config);
    let width = image.width as usize;
    let npix = image.pixels.len();
    let mut r: u32 = 0;
    while r < image.height
        invariant
            image.wf(),
            npix == image.pixels@.len(),
            fits_head(l, model),
            lw == line_width_of(model),
            l.printable_dots_width == image.width,
            width == image.width,
            0 <= r <= image.height,
            cmds@.len() == pre.len() + r,
            forall|k: int| 0 <= k < pre.len() ==> #[trigger] cmds@[k]@ == pre[k],
            forall|q: int|
                0 <= q < r ==> is_line_command(
                    #[trigger] cmds@[pre.len() + q]@,
                    image.row(q),
                    l.margin_dots_right as int,
                    lw,
                    config.invert,
                ),
        decreases image.height - r,
    {
        proof {
            assert((r + 1) * image.width <= image.height * image.width) by (nonlinear_arith)
                requires
                    r < image.height,
            ;
            assert((r + 1) * image.width == r * image.width + image.width) by (nonlinear_arith);
            assert(image.height * image.width == image.width * image.height) by (nonlinear_arith);
        }
        let start = (r as usize) * width;
        let line = line_command_at(
            image.pixels.as_slice(),
            start,
            width,
            l.margin_dots_right,
            lw,
            config.invert,
        );
        push_command(&mut cmds, line);
        r = r + 1;
    }
    push_command(&mut cmds, vec![0x1a]);
    proof {
        let v = cmds@.map_values(|c: Vec<u8>| c@);
        assert(v.subrange(0, pre.len() as int) =~= pre);
        assert(v.last() =~= commit_command());
        assert forall|q: int| 0 <= q < image.height implies is_line_command(
            #[trigger] v[pre.len() + q],
            image.row(q),
            l.margin_dots_right as int,
            line_width_of(model),
            config.invert,
        ) by {
            assert(v[pre.len() + q] == cmds@[pre.len() + q]@);
        }
    }
    Ok(cmds)
}

/// With no error flags and media loaded, a job is refused exactly when the
/// bitmap's width differs from the label's printable width, or, on media of
/// bounded length, when its height differs from the label's row count.
pub proof fn lemma_dimension_check(s: Status, image: GrayBitmap, config: PrintConfig)
    requires
        s.error_flags.bits == 0,
        s.label is Some,
    ensures
        ({
            let l = s.label->Some_0;
            print_refusal(s, image, config) is Some <==> match l.printable_dots_length {
                None => image.width != l.printable_dots_width,
                Some(n) => image.width != l.printable_dots_width || image.height as int != if config.high_res {
                    2 * n
                } else {
                    n as int
                },
            }
        }),
{
}

} // verus!
