//! The QR code of the connection page.
//!
//! The index page shows the connection URL as a QR code: the URL is
//! encoded into a square grid of dark and light modules, the grid is
//! scaled up into an RGB image (dark modules black, light ones white),
//! the image is encoded as PNG and the PNG as a base64 data URL.

use vstd::prelude::*;

use vstd::string::StringExecFns;

use crate::handshake::{base64_encode, base64_of};

verus! {

/// How many pixels one QR module is scaled to, in each direction.
pub const QR_SCALE: usize = 16;

#[verifier::external_type_specification]
#[verifier::external_body]
pub struct ExQrCode(qrcodegen::QrCode);

/// The module grid that an opaque QR symbol holds — row `y`, column
/// `x`, true for a dark module. The symbol value is opaque to the
/// verifier, so its contents carry this name, and the wrappers of the
/// symbol's methods all speak of it.
pub uninterp spec fn qr_modules(qr: qrcodegen::QrCode) -> Seq<Seq<bool>>;

/// The module grid of the QR symbol that encodes `text` at the low
/// error-correction level: a function of the text alone, named rather
/// than spelled out.
pub uninterp spec fn qr_modules_of(text: Seq<char>) -> Seq<Seq<bool>>;

/// The PNG encoding of an RGB8 image of the given width and height: a
/// function of the dimensions and pixel bytes alone, named rather than
/// spelled out.
pub uninterp spec fn png_of(width: int, height: int, rgb: Seq<u8>) -> Seq<u8>;

/// A legal QR module grid: square, with a side some version of the
/// format allows.
pub open spec fn is_module_grid(g: Seq<Seq<bool>>) -> bool {
    &&& 21 <= g.len() <= 177
    &&& forall|y: int| 0 <= y < g.len() ==> (#[trigger] g[y]).len() == g.len()
}

/// Relies on `qrcodegen::QrCode::encode_text` at the low
/// error-correction level: it is documented to succeed for any text of
/// at most 738 code points, the symbol is a function of the text
/// alone, and it holds a square module grid whose side is between 21
/// and 177.
#[verifier::external_body]
fn qr_encode(text: &str) -> (r: Option<qrcodegen::QrCode>)
    ensures
        text@.len() <= 738 ==> r is Some,
        r matches Some(q) ==> qr_modules(q) == qr_modules_of(text@) && is_module_grid(
            qr_modules_of(text@),
        ),
{
    qrcodegen::QrCode::encode_text(text, qrcodegen::QrCodeEcc::Low).ok()
}

/// Relies on `qrcodegen::QrCode::size`: the side of the module grid,
/// between 21 and 177 inclusive.
#[verifier::external_body]
fn qr_size(qr: &qrcodegen::QrCode) -> (r: i32)
    ensures
        r as int == qr_modules(*qr).len(),
        21 <= r <= 177,
{
    qr.size()
}

/// Relies on `qrcodegen::QrCode::get_module`: the module of the grid
/// at column `x` of row `y`; false outside the symbol's bounds.
#[verifier::external_body]
fn qr_module(qr: &qrcodegen::QrCode, x: i32, y: i32) -> (r: bool)
    ensures
        (0 <= x as int && (x as int) < qr_modules(*qr).len() && 0 <= y as int && (y as int)
            < qr_modules(*qr).len()) ==> r == qr_modules(*qr)[y as int][x as int],
        !(0 <= x as int && (x as int) < qr_modules(*qr).len() && 0 <= y as int && (y as int)
            < qr_modules(*qr).len()) ==> r == false,
{
    qr.get_module(x, y)
}

/// A square grid: every row is as long as the grid is tall.
pub open spec fn is_square_grid(g: &Vec<Vec<bool>>) -> bool {
    forall|y: int| 0 <= y < g@.len() ==> g@[y]@.len() == g@.len()
}

/// The mathematical view of a grid of rows.
pub open spec fn grid_view(g: &Vec<Vec<bool>>) -> Seq<Seq<bool>> {
    g@.map_values(|row: Vec<bool>| row@)
}

/// Encode `text` as a QR symbol and read its module grid, row by row:
/// exactly the named grid of the text. Succeeds for any text of at
/// most 738 code points; `None` when the text is too long to encode.
pub fn qr_grid(text: &str) -> (r: Option<Vec<Vec<bool>>>)
    ensures
        text@.len() <= 738 ==> r is Some,
        r matches Some(g) ==> {
            &&& grid_view(&g) == qr_modules_of(text@)
            &&& 21 <= g@.len() <= 177
            &&& is_square_grid(&g)
        },
{
    let qr = match qr_encode(text) {
        Some(q) => q,
        None => {
            return None;
        },
    };
    let side_i = qr_size(&qr);
    let side = side_i as usize;
    let mut grid: Vec<Vec<bool>> = Vec::new();
    let mut y: usize = 0;
    while y < side
        invariant
            y <= side,
            21 <= side <= 177,
            side == qr_modules(qr).len(),
            qr_modules(qr) == qr_modules_of(text@),
            is_module_grid(qr_modules(qr)),
            grid@.len() == y,
            forall|j: int| 0 <= j < y ==> (#[trigger] grid@[j])@ == qr_modules(qr)[j],
        decreases side - y,
    {
        let mut row: Vec<bool> = Vec::new();
        let mut x: usize = 0;
        while x < side
            invariant
                x <= side,
                y < side,
                21 <= side <= 177,
                side == qr_modules(qr).len(),
                is_module_grid(qr_modules(qr)),
                row@.len() == x,
                forall|k: int| 0 <= k < x ==> row@[k] == qr_modules(qr)[y as int][k],
            decreases side - x,
        {
            row.push(qr_module(&qr, x as i32, y as i32));
            x = x + 1;
        }
        proof {
            assert(row@ =~= qr_modules(qr)[y as int]);
        }
        grid.push(row);
        y = y + 1;
    }
    proof {
        assert(grid_view(&grid) =~= qr_modules_of(text@));
        assert(is_square_grid(&grid));
    }
    Some(grid)
}

/// The byte at offset `i` of the scaled image's RGB8 pixel stream: the
/// stream is row-major, three bytes per pixel, and the pixel at column
/// `px` and row `py` shows the module at column `px / scale` and row
/// `py / scale` — 0 for a dark module, 0xFF for a light one.
pub open spec fn scaled_byte(g: Seq<Seq<bool>>, scale: int, w: int, i: int) -> u8 {
    let px = (i / 3) % w;
    let py = (i / 3) / w;
    if g[py / scale][px / scale] {
        0u8
    } else {
        0xFFu8
    }
}

/// The whole RGB8 pixel stream of a module grid scaled by `scale`: a
/// square image whose side is `scale` times the grid's.
pub open spec fn qr_pixel_bytes(g: Seq<Seq<bool>>, scale: int) -> Seq<u8> {
    Seq::new(
        (3 * (g.len() * scale) * (g.len() * scale)) as nat,
        |i: int| scaled_byte(g, scale, g.len() as int * scale, i),
    )
}

/// Scale a square module grid up by `scale` into the RGB8 pixel bytes
/// of a square image whose side is `scale` times the grid's: every
/// module becomes a scale-by-scale block, black for dark modules and
/// white for light ones.
pub fn qr_rgb_image(grid: &Vec<Vec<bool>>, scale: usize) -> (r: Vec<u8>)
    requires
        1 <= scale,
        1 <= grid@.len(),
        is_square_grid(grid),
        3 * (grid@.len() as int * scale as int) * (grid@.len() as int * scale as int)
            <= usize::MAX as int,
    ensures
        r@ == qr_pixel_bytes(grid_view(grid), scale as int),
        r@.len() == 3 * (grid@.len() as int * scale as int) * (grid@.len() as int * scale as int),
        forall|i: int|
            0 <= i < r@.len() ==> r@[i] == scaled_byte(
                grid_view(grid),
                scale as int,
                grid@.len() as int * scale as int,
                i,
            ),
{
    let side = grid.len();
    proof {
        let a = side as int * scale as int;
        assert(1 <= a && a <= 3 * a * a && 3 * a <= 3 * a * a) by (nonlinear_arith)
            requires
                1 <= side as int,
                1 <= scale as int,
                a == side as int * scale as int,
        ;
    }
    let w = side * scale;
    let total = 3 * w * w;
    let mut out: Vec<u8> = Vec::new();
    let mut k: usize = 0;
    while k < total
        invariant
            k <= total,
            total == 3 * w * w,
            w == side * scale,
            side == grid@.len(),
            1 <= scale,
            1 <= side,
            is_square_grid(grid),
            out@.len() == k,
            forall|i: int|
                0 <= i < k ==> out@[i] == scaled_byte(grid_view(grid), scale as int, w as int, i),
        decreases total - k,
    {
        let p = k / 3;
        assert(p < w * w) by (nonlinear_arith)
            requires
                k < 3 * w * w,
                p == k / 3,
        ;
        let px = p % w;
        let py = p / w;
        assert(py < w) by (nonlinear_arith)
            requires
                p < w * w,
                py == p / w,
                1 <= w,
        ;
        assert(px < w);
        let mx = px / scale;
        let my = py / scale;
        assert(mx < side && my < side) by (nonlinear_arith)
            requires
                px < w,
                py < w,
                w == side * scale,
                1 <= scale,
                mx == px / scale,
                my == py / scale,
        ;
        let byte: u8 = if grid[my][mx] {
            0
        } else {
            0xFF
        };
        proof {
            assert(grid_view(grid)[my as int] == grid@[my as int]@);
        }
        out.push(byte);
        k = k + 1;
    }
    proof {
        assert(out@ =~= qr_pixel_bytes(grid_view(grid), scale as int));
    }
    out
}

/// Encode an RGB8 image as PNG. Relies on `image::RgbImage::from_raw`
/// and `ImageBuffer::write_to` with the PNG format: the encoding is a
/// function of the dimensions and pixel bytes alone, `from_raw`
/// accepts a buffer of exactly three bytes per pixel, and the PNG
/// encoder refuses only a zero dimension.
#[verifier::external_body]
fn png_encode(width: u32, height: u32, rgb: Vec<u8>) -> (r: Option<Vec<u8>>)
    ensures
        r matches Some(v) ==> v@ == png_of(width as int, height as int, rgb@),
        (1 <= width && 1 <= height && rgb@.len() == 3 * (width as int) * (height as int)) ==> r
            is Some,
{
    let img = image::RgbImage::from_raw(width, height, rgb)?;
    let mut out = std::io::Cursor::new(Vec::new());
    img.write_to(&mut out, image::ImageFormat::Png).ok()?;
    Some(out.into_inner())
}

/// Encode `text` as a QR code and return it as a PNG data URL: exactly
/// the base64 of the PNG of the text's module grid scaled by
/// `QR_SCALE`. Succeeds for any text of at most 738 code points;
/// `None` only when the text is too long to encode.
pub fn qr_data_url(text: &str) -> (r: Option<String>)
    ensures
        text@.len() <= 738 ==> r is Some,
        r matches Some(s) ==> ({
            let g = qr_modules_of(text@);
            let w = 16 * g.len() as int;
            s@ == "data:image/png;base64,"@ + base64_of(png_of(w, w, qr_pixel_bytes(g, 16)))
        }),
{
    let grid = match qr_grid(text) {
        Some(g) => g,
        None => {
            return None;
        },
    };
    let side = grid.len();
    proof {
        assert(3 * (side as int * 16) * (side as int * 16) <= 0xFFFF_FFFF) by (nonlinear_arith)
            requires
                1 <= side as int <= 177,
        ;
        assert(usize::MAX as int >= 0xFFFF_FFFF);
    }
    let w = side * QR_SCALE;
    let rgb = qr_rgb_image(&grid, QR_SCALE);
    let ghost rgb_view = rgb@;
    let png = match png_encode(w as u32, w as u32, rgb) {
        Some(p) => p,
        None => {
            // The pixel buffer is exactly three bytes per pixel of a
            // nonzero square image, so the encoder cannot refuse it.
            proof {
                assert(false);
            }
            return None;
        },
    };
    let b64 = base64_encode(&png);
    let mut url: String = "data:image/png;base64,".to_owned();
    url.append(b64.as_str());
    proof {
        assert(rgb_view == qr_pixel_bytes(qr_modules_of(text@), 16));
    }
    Some(url)
}

} // verus!
