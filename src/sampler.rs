use vstd::prelude::*;

verus! {

/// One magnifier frame: the colour at the cursor, the cursor itself and the
/// RGB bytes of the pixels around it, row by row.
#[derive(Clone, Debug)]
pub struct LoupeData {
    pub r: u8,
    pub g: u8,
    pub b: u8,
    pub x: i32,
    pub y: i32,
    pub grid: Vec<u8>,
    pub grid_width: i32,
    pub grid_height: i32,
}

/// The first three bytes of each of the first `k` four-byte pixels of `buf`.
pub open spec fn rgb_grid(buf: Seq<u8>, k: nat) -> Seq<u8>
    decreases k,
{
    if k == 0 {
        Seq::empty()
    } else {
        let p = 4 * (k - 1);
        rgb_grid(buf, (k - 1) as nat) + seq![buf[p], buf[p + 1], buf[p + 2]]
    }
}

/// How many pixels of an `n` by `n` region a buffer of `len` bytes supplies.
pub open spec fn pixels_read(len: nat, n: nat) -> nat {
    if n * n <= len / 4 {
        n * n
    } else {
        len / 4
    }
}

/// Row-major index of the centre pixel of an `n` by `n` region.
pub open spec fn center_index(n: nat) -> nat {
    (n / 2) * n + n / 2
}

/// The grid sampled from `buf` for a region of side `n`.
pub open spec fn loupe_grid(buf: Seq<u8>, n: nat) -> Seq<u8> {
    rgb_grid(buf, pixels_read(buf.len(), n))
}

/// The centre colour sampled from `buf` for a region of side `n`: black when
/// the buffer ends before the centre pixel.
pub open spec fn loupe_center(buf: Seq<u8>, n: nat) -> (u8, u8, u8) {
    let c = center_index(n) as int;
    if c < pixels_read(buf.len(), n) {
        (buf[4 * c], buf[4 * c + 1], buf[4 * c + 2])
    } else {
        (0, 0, 0)
    }
}

pub proof fn lemma_rgb_grid(buf: Seq<u8>, k: nat)
    requires
        4 * k <= buf.len(),
    ensures
        rgb_grid(buf, k).len() == 3 * k,
        forall|p: int, c: int|
            0 <= p < k && 0 <= c < 3 ==> #[trigger] rgb_grid(buf, k)[3 * p + c] == buf[4 * p + c],
    decreases k,
{
    if k > 0 {
        lemma_rgb_grid(buf, (k - 1) as nat);
        let prev = rgb_grid(buf, (k - 1) as nat);
        let g = rgb_grid(buf, k);
        assert forall|p: int, c: int| 0 <= p < k && 0 <= c < 3 implies #[trigger] g[3 * p + c]
            == buf[4 * p + c] by {
            if p < k - 1 {
                assert(prev[3 * p + c] == buf[4 * p + c]);
                assert(3 * p + c < 3 * (k - 1));
            }
        }
    }
}

/// A buffer that covers the whole region gives a grid of three bytes for each
/// of its `n * n` pixels.
pub proof fn lemma_full_grid_length(buf: Seq<u8>, n: nat)
    requires
        buf.len() >= 4 * n * n,
    ensures
        loupe_grid(buf, n).len() == 3 * n * n,
{
    assert(n * n <= buf.len() / 4) by (nonlinear_arith)
        requires
            buf.len() >= 4 * n * n,
    ;
    lemma_rgb_grid(buf, n * n);
    assert(3 * (n * n) == 3 * n * n) by (nonlinear_arith);
}

/// Whenever the centre pixel was read, the centre colour is the grid's entry
/// at the centre index.
pub proof fn lemma_center_in_grid(buf: Seq<u8>, n: nat)
    requires
        center_index(n) < pixels_read(buf.len(), n),
    ensures
        ({
            let c = center_index(n) as int;
            let g = loupe_grid(buf, n);
            let (r, gr, b) = loupe_center(buf, n);
            g.subrange(3 * c, 3 * c + 3) == seq![r, gr, b]
        }),
{
    let k = pixels_read(buf.len(), n);
    let c = center_index(n) as int;
    assert(4 * k <= buf.len());
    lemma_rgb_grid(buf, k);
    let g = loupe_grid(buf, n);
    assert(g[3 * c + 0] == buf[4 * c + 0]);
    assert(g[3 * c + 1] == buf[4 * c + 1]);
    assert(g[3 * c + 2] == buf[4 * c + 2]);
    let (r, gr, b) = loupe_center(buf, n);
    assert(g.subrange(3 * c, 3 * c + 3) =~= seq![r, gr, b]);
}

/// Builds the frame for a region of side `loupe_size` from a captured RGBA
/// buffer, reading pixels until the region or the buffer runs out.
pub fn sample_loupe(buffer: &Vec<u8>, loupe_size: i32, x: i32, y: i32) -> (r: LoupeData)
    requires
        loupe_size >= 0,
    ensures
        r.grid@ == loupe_grid(buffer@, loupe_size as nat),
        (r.r, r.g, r.b) == loupe_center(buffer@, loupe_size as nat),
        r.x == x,
        r.y == y,
        r.grid_width == loupe_size,
        r.grid_height == loupe_size,
        buffer@.len() >= 4 * loupe_size * loupe_size ==> r.grid@.len() == 3 * loupe_size
            * loupe_size,
{
    let n = loupe_size as usize;
    let avail = buffer.len() / 4;
    let count: usize = if n == 0 {
        0
    } else if avail / n < n {
        proof {
            let q = avail as int / n as int;
            assert(avail < n * n) by (nonlinear_arith)
                requires
                    q == avail as int / n as int,
                    q < n,
                    n > 0,
            ;
        }
        avail
    } else {
        proof {
            let q = avail as int / n as int;
            assert(n * n <= avail) by (nonlinear_arith)
                requires
                    q == avail as int / n as int,
                    q >= n,
                    n > 0,
            ;
        }
        n * n
    };
    assert(count == pixels_read(buffer@.len(), n as nat));
    let half = (n / 2) as u64;
    assert(half * (n as u64) <= 0x4000_0000_0000_0000) by (nonlinear_arith)
        requires
            half <= 0x4000_0000,
            n <= 0x8000_0000,
    ;
    let center: u64 = half * (n as u64) + half;
    assert(center == center_index(n as nat));
    let mut grid: Vec<u8> = Vec::new();
    let mut cr: u8 = 0;
    let mut cg: u8 = 0;
    let mut cb: u8 = 0;
    let mut i: usize = 0;
    while i < count
        invariant
            i <= count,
            count == pixels_read(buffer@.len(), n as nat),
            count <= buffer@.len() / 4,
            center == center_index(n as nat),
            grid@ == rgb_grid(buffer@, i as nat),
            (cr, cg, cb) == (if (center as int) < i {
                (
                    buffer@[4 * center as int],
                    buffer@[4 * center + 1],
                    buffer@[4 * center + 2],
                )
            } else {
                (0u8, 0u8, 0u8)
            }),
        decreases count - i,
    {
        assert(i * 4 + 3 < buffer@.len()) by (nonlinear_arith)
            requires
                i < count,
                count <= buffer@.len() / 4,
        ;
        let len = buffer.len();
        assert(i * 4 < len);
        let off = i * 4;
        let pr = buffer[off];
        let pg = buffer[off + 1];
        let pb = buffer[off + 2];
        grid.push(pr);
        grid.push(pg);
        grid.push(pb);
        if i as u64 == center {
            cr = pr;
            cg = pg;
            cb = pb;
        }
        i = i + 1;
    }
    proof {
        if buffer@.len() >= 4 * n * n {
            lemma_full_grid_length(buffer@, n as nat);
        }
    }
    LoupeData { r: cr, g: cg, b: cb, x, y, grid, grid_width: loupe_size, grid_height: loupe_size }
}

} // verus!
