//! The QR code that leads a phone to the configuration portal, as the filled
//! squares the display has to draw.

use vstd::prelude::*;

verus! {

/// A QR code of qrcodegen: a square grid of dark and light modules.
#[verifier::external_type_specification]
#[verifier::external_body]
pub struct ExQrCode(qrcodegen::QrCode);

/// The modules of a code, row by row from the top, each row from the left;
/// `true` is dark.
pub uninterp spec fn qr_modules(code: qrcodegen::QrCode) -> Seq<Seq<bool>>;

/// The modules of the code that qrcodegen makes of a text at medium error
/// correction, or `None` where the text is too long for any code.
pub uninterp spec fn qr_grid(text: Seq<char>) -> Option<Seq<Seq<bool>>>;

/// Pixels per module, each way.
pub const MODULE_PIXELS: i32 = 2;

/// Left edge of the code on the display.
pub const ORIGIN_X: i32 = 40;

/// Top edge of the code on the display.
pub const ORIGIN_Y: i32 = 10;

/// A filled square on the display.
#[derive(Clone, Copy, Debug, PartialEq, Eq, Structural)]
pub struct Block {
    pub x: i32,
    pub y: i32,
    pub side: u32,
}

/// The square drawn for the module in column `x` of row `y`.
pub open spec fn block_at(x: int, y: int) -> Block {
    Block {
        x: (x * MODULE_PIXELS + ORIGIN_X) as i32,
        y: (y * MODULE_PIXELS + ORIGIN_Y) as i32,
        side: 2,
    }
}

/// Whether the module in column `x` of row `y` is dark. Outside the grid
/// nothing is.
pub open spec fn is_dark(grid: Seq<Seq<bool>>, x: int, y: int) -> bool {
    0 <= x < grid.len() && 0 <= y < grid.len() && grid[y][x]
}

/// Column of the `k`-th module, counted row by row.
pub open spec fn column_of(grid: Seq<Seq<bool>>, k: int) -> int {
    k % (grid.len() as int)
}

/// Row of the `k`-th module, counted row by row.
pub open spec fn row_of(grid: Seq<Seq<bool>>, k: int) -> int {
    k / (grid.len() as int)
}

/// Whether the `k`-th module, counted row by row, is dark.
pub open spec fn dark_cell(grid: Seq<Seq<bool>>, k: int) -> bool {
    is_dark(grid, column_of(grid, k), row_of(grid, k))
}

/// The squares of the dark modules among the first `count` of the grid,
/// counted row by row, in that order.
pub open spec fn blocks_upto(grid: Seq<Seq<bool>>, count: int) -> Seq<Block>
    decreases count,
{
    if count <= 0 || grid.len() == 0 {
        Seq::<Block>::empty()
    } else {
        let before = blocks_upto(grid, count - 1);
        if dark_cell(grid, count - 1) {
            before.push(block_at(column_of(grid, count - 1), row_of(grid, count - 1)))
        } else {
            before
        }
    }
}

/// The squares of all dark modules of the grid.
pub open spec fn grid_blocks(grid: Seq<Seq<bool>>) -> Seq<Block> {
    blocks_upto(grid, (grid.len() * grid.len()) as int)
}

/// Among the first `count` modules, the squares are those of the dark ones.
proof fn lemma_blocks_upto(grid: Seq<Seq<bool>>, count: int, block: Block)
    requires
        grid.len() > 0,
    ensures
        blocks_upto(grid, count).contains(block) <==> exists|k: int|
            0 <= k < count && #[trigger] dark_cell(grid, k) && block == block_at(
                column_of(grid, k),
                row_of(grid, k),
            ),
    decreases count,
{
    if count > 0 {
        lemma_blocks_upto(grid, count - 1, block);
        let before = blocks_upto(grid, count - 1);
        let now = blocks_upto(grid, count);
        let last = count - 1;
        if now.contains(block) {
            let i = choose|i: int| 0 <= i < now.len() && now[i] == block;
            if i < before.len() {
                assert(before[i] == block);
                assert(before.contains(block));
                let k = choose|k: int|
                    0 <= k < count - 1 && #[trigger] dark_cell(grid, k) && block == block_at(
                        column_of(grid, k),
                        row_of(grid, k),
                    );
                assert(0 <= k < count && dark_cell(grid, k));
            } else {
                assert(dark_cell(grid, last));
            }
        }
        if exists|k: int|
            0 <= k < count && #[trigger] dark_cell(grid, k) && block == block_at(
                column_of(grid, k),
                row_of(grid, k),
            ) {
            let k = choose|k: int|
                0 <= k < count && #[trigger] dark_cell(grid, k) && block == block_at(
                    column_of(grid, k),
                    row_of(grid, k),
                );
            if k == last {
                assert(now[before.len() as int] == block);
            } else {
                assert(0 <= k < count - 1 && dark_cell(grid, k));
                assert(before.contains(block));
                let i = choose|i: int| 0 <= i < before.len() && before[i] == block;
                assert(now[i] == block);
            }
        }
    }
}

/// The squares are exactly those of the dark modules: every dark module has
/// its square among them, and every square among them is a dark module's.
pub proof fn lemma_blocks_are_dark_modules(grid: Seq<Seq<bool>>, block: Block)
    ensures
        grid_blocks(grid).contains(block) <==> exists|x: int, y: int|
            #[trigger] is_dark(grid, x, y) && block == block_at(x, y),
{
    let n = grid.len() as int;
    if n > 0 {
        lemma_blocks_upto(grid, n * n, block);
        if grid_blocks(grid).contains(block) {
            let k = choose|k: int|
                0 <= k < n * n && #[trigger] dark_cell(grid, k) && block == block_at(
                    column_of(grid, k),
                    row_of(grid, k),
                );
            assert(is_dark(grid, column_of(grid, k), row_of(grid, k)));
        }
        if exists|x: int, y: int| #[trigger] is_dark(grid, x, y) && block == block_at(x, y) {
            let (x, y) = choose|x: int, y: int|
                #[trigger] is_dark(grid, x, y) && block == block_at(x, y);
            let k = y * n + x;
            assert(k % n == x && k / n == y && 0 <= k < n * n) by (nonlinear_arith)
                requires
                    k == y * n + x,
                    0 <= x < n,
                    0 <= y < n,
            ;
            assert(dark_cell(grid, k));
        }
    } else {
        assert forall|x: int, y: int| !#[trigger] is_dark(grid, x, y) by {}
    }
}

/// `QrCode::encode_text` of qrcodegen at `QrCodeEcc::Medium`: the code for
/// the text, which depends on the text alone, or nothing where the text does
/// not fit the largest code.
#[verifier::external_body]
fn encode_medium(text: &str) -> (r: Option<qrcodegen::QrCode>)
    ensures
        match r {
            Some(code) => qr_grid(text@) == Some(qr_modules(code)),
            None => qr_grid(text@) is None,
        },
{
    qrcodegen::QrCode::encode_text(text, qrcodegen::QrCodeEcc::Medium).ok()
}

/// `QrCode::size` of qrcodegen: the number of modules along one side, which
/// is between 21 and 177.
#[verifier::external_body]
fn code_size(code: &qrcodegen::QrCode) -> (r: i32)
    ensures
        r == qr_modules(*code).len(),
        21 <= r <= 177,
{
    code.size()
}

/// `QrCode::get_module` of qrcodegen: whether the module at the given column
/// and row is dark; light for coordinates outside the grid.
#[verifier::external_body]
fn code_module(code: &qrcodegen::QrCode, x: i32, y: i32) -> (r: bool)
    ensures
        r == is_dark(qr_modules(*code), x as int, y as int),
{
    code.get_module(x, y)
}

/// The squares to draw for a code: one of two pixels a side for each dark
/// module, two pixels apart, row by row.
pub fn code_blocks(code: &qrcodegen::QrCode) -> (r: Vec<Block>)
    ensures
        r@ == grid_blocks(qr_modules(*code)),
{
    let size: i32 = code_size(code);
    let ghost grid = qr_modules(*code);
    let mut blocks: Vec<Block> = Vec::new();
    let mut y: i32 = 0;
    while y < size
        invariant
            0 <= y <= size,
            21 <= size <= 177,
            size == grid.len(),
            grid == qr_modules(*code),
            blocks@ == blocks_upto(grid, y * size),
        decreases size - y,
    {
        let mut x: i32 = 0;
        while x < size
            invariant
                0 <= x <= size,
                0 <= y < size,
                21 <= size <= 177,
                size == grid.len(),
                grid == qr_modules(*code),
                blocks@ == blocks_upto(grid, y * size + x),
            decreases size - x,
        {
            proof {
                let k = y * size + x;
                assert(k % (size as int) == x && k / (size as int) == y) by (nonlinear_arith)
                    requires
                        k == y * size + x,
                        0 <= x < size,
                        0 <= y,
                ;
                assert(column_of(grid, k) == x && row_of(grid, k) == y);
            }
            if code_module(code, x, y) {
                blocks.push(
                    Block {
                        x: x * MODULE_PIXELS + ORIGIN_X,
                        y: y * MODULE_PIXELS + ORIGIN_Y,
                        side: 2,
                    },
                );
            }
            x += 1;
        }
        proof {
            assert(y * size + size == (y + 1) * size) by (nonlinear_arith);
        }
        y += 1;
    }
    blocks
}

/// The squares to draw for a text, or nothing where no code holds it.
pub fn qr_blocks(text: &str) -> (r: Option<Vec<Block>>)
    ensures
        match r {
            Some(blocks) => qr_grid(text@) matches Some(grid) && blocks@ == grid_blocks(grid),
            None => qr_grid(text@) is None,
        },
{
    match encode_medium(text) {
        Some(code) => Some(code_blocks(&code)),
        None => None,
    }
}

} // verus!
