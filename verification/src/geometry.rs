use vstd::prelude::*;
use vstd::arithmetic::div_mod::lemma_mod_add_multiples_vanish;

verus! {

// ---------------------------------------------------------------------------
// Triangle indices of quad grids (terrain heightfield and road ribbon)
// ---------------------------------------------------------------------------

/// Corner `k` (0..6) of the two triangles that cover the quad whose near edge
/// starts at vertex `a` and whose far edge starts at vertex `c`:
/// triangles (a, c, a+1) and (a+1, c, c+1).
pub open spec fn spec_quad_corner(a: int, c: int, k: int) -> int {
    if k == 0 {
        a
    } else if k == 1 {
        c
    } else if k == 2 {
        a + 1
    } else if k == 3 {
        a + 1
    } else if k == 4 {
        c
    } else {
        c + 1
    }
}

/// Position in an index buffer of corner `k` of quad `col` in row `row` of a
/// grid with `quads_per_row` quads per row (six indices per quad, row-major).
pub open spec fn spec_quad_slot(quads_per_row: int, row: int, col: int, k: int) -> int {
    6 * (row * quads_per_row + col) + k
}

/// The two triangles of a quad cover it exactly: with near edge `a, a + 1` and
/// far edge `c, c + 1` (further along), every corner is one of those four
/// vertices, each triangle has three different vertices, the first triangle
/// holds `a` and the second `c + 1` (never the other's), and both share the
/// diagonal `a + 1`, `c`.
pub proof fn lemma_quad_triangles_cover(a: int, c: int)
    requires
        c >= a + 2,
    ensures
        forall|k: int|
            0 <= k < 6 ==> {
                let v = #[trigger] spec_quad_corner(a, c, k);
                v == a || v == a + 1 || v == c || v == c + 1
            },
        spec_quad_corner(a, c, 0) != spec_quad_corner(a, c, 1) && spec_quad_corner(a, c, 1)
            != spec_quad_corner(a, c, 2) && spec_quad_corner(a, c, 0) != spec_quad_corner(a, c, 2),
        spec_quad_corner(a, c, 3) != spec_quad_corner(a, c, 4) && spec_quad_corner(a, c, 4)
            != spec_quad_corner(a, c, 5) && spec_quad_corner(a, c, 3) != spec_quad_corner(a, c, 5),
        exists|k: int| 0 <= k < 3 && #[trigger] spec_quad_corner(a, c, k) == a,
        exists|k: int| 3 <= k < 6 && #[trigger] spec_quad_corner(a, c, k) == c + 1,
        forall|k: int| 0 <= k < 3 ==> #[trigger] spec_quad_corner(a, c, k) != c + 1,
        forall|k: int| 3 <= k < 6 ==> #[trigger] spec_quad_corner(a, c, k) != a,
        exists|k: int| 0 <= k < 3 && #[trigger] spec_quad_corner(a, c, k) == a + 1,
        exists|k: int| 0 <= k < 3 && #[trigger] spec_quad_corner(a, c, k) == c,
        exists|k: int| 3 <= k < 6 && #[trigger] spec_quad_corner(a, c, k) == a + 1,
        exists|k: int| 3 <= k < 6 && #[trigger] spec_quad_corner(a, c, k) == c,
{
    assert(spec_quad_corner(a, c, 0) == a);
    assert(spec_quad_corner(a, c, 1) == c);
    assert(spec_quad_corner(a, c, 2) == a + 1);
    assert(spec_quad_corner(a, c, 3) == a + 1);
    assert(spec_quad_corner(a, c, 4) == c);
    assert(spec_quad_corner(a, c, 5) == c + 1);
}

fn push_quad(indices: &mut Vec<u32>, a: u32, c: u32)
    requires
        a < u32::MAX,
        c < u32::MAX,
    ensures
        final(indices)@.len() == old(indices)@.len() + 6,
        forall|i: int| 0 <= i < old(indices)@.len() ==> #[trigger] final(indices)@[i] == old(indices)@[i],
        forall|k: int|
            0 <= k < 6 ==> #[trigger] final(indices)@[old(indices)@.len() + k] == spec_quad_corner(
                a as int,
                c as int,
                k,
            ),
{
    indices.push(a);
    indices.push(c);
    indices.push(a + 1);
    indices.push(a + 1);
    indices.push(c);
    indices.push(c + 1);
}

proof fn lemma_earlier_quad_slot(quads_per_row: int, row: int, col: int, row2: int, col2: int, k: int)
    requires
        0 <= col < quads_per_row,
        0 <= col2 < quads_per_row,
        0 <= row,
        0 <= row2,
        0 <= k < 6,
        row2 < row || (row2 == row && col2 < col),
    ensures
        0 <= spec_quad_slot(quads_per_row, row2, col2, k) < 6 * (row * quads_per_row + col),
{
    assert(0 <= row2 * quads_per_row + col2 < row * quads_per_row + col) by (nonlinear_arith)
        requires
            0 <= col < quads_per_row,
            0 <= col2 < quads_per_row,
            0 <= row,
            0 <= row2,
            row2 < row || (row2 == row && col2 < col),
    ;
}

/// Triangle indices of a heightfield of `num_rows` x `num_cols` vertices laid
/// out row by row (`z * num_rows + x`): each grid cell becomes two triangles,
/// six indices per cell, cells in row-major order.
pub fn terrain_indices(num_rows: usize, num_cols: usize) -> (indices: Vec<u32>)
    requires
        1 <= num_rows,
        1 <= num_cols,
        num_rows * num_cols <= u32::MAX as int + 1,
        6 * (num_rows - 1) * (num_cols - 1) <= usize::MAX,
    ensures
        indices@.len() == 6 * (num_rows - 1) * (num_cols - 1),
        forall|z: int, x: int, k: int|
            0 <= z < num_cols - 1 && 0 <= x < num_rows - 1 && 0 <= k < 6 ==> #[trigger] indices@[spec_quad_slot(
                num_rows - 1,
                z,
                x,
                k,
            )] == spec_quad_corner(z * num_rows + x, z * num_rows + x + num_rows, k),
        forall|i: int| 0 <= i < indices@.len() ==> #[trigger] indices@[i] < num_rows * num_cols,
{
    let ghost w = num_rows - 1;
    let mut indices: Vec<u32> = Vec::new();
    let mut z: usize = 0;
    while z < num_cols - 1
        invariant
            1 <= num_rows,
            1 <= num_cols,
            num_rows * num_cols <= u32::MAX as int + 1,
            w == num_rows - 1,
            z <= num_cols - 1,
            indices@.len() == 6 * (z * w),
            forall|i: int| 0 <= i < indices@.len() ==> #[trigger] indices@[i] < num_rows * num_cols,
            forall|z2: int, x2: int, k: int|
                0 <= z2 < z && 0 <= x2 < w && 0 <= k < 6 ==> #[trigger] indices@[spec_quad_slot(w, z2, x2, k)]
                    == spec_quad_corner(z2 * num_rows + x2, z2 * num_rows + x2 + num_rows, k),
        decreases num_cols - 1 - z,
    {
        let mut x: usize = 0;
        while x < num_rows - 1
            invariant
                1 <= num_rows,
                1 <= num_cols,
                num_rows * num_cols <= u32::MAX as int + 1,
                w == num_rows - 1,
                z < num_cols - 1,
                x <= w,
                indices@.len() == 6 * (z * w + x),
                forall|i: int| 0 <= i < indices@.len() ==> #[trigger] indices@[i] < num_rows * num_cols,
                forall|z2: int, x2: int, k: int|
                    0 <= x2 < w && 0 <= k < 6 && (0 <= z2 < z || (z2 == z && 0 <= x2 < x))
                        ==> #[trigger] indices@[spec_quad_slot(w, z2, x2, k)] == spec_quad_corner(
                        z2 * num_rows + x2,
                        z2 * num_rows + x2 + num_rows,
                        k,
                    ),
            decreases w - x,
        {
            assert(z * num_rows + x + num_rows + 1 <= num_rows * num_cols - 1) by (nonlinear_arith)
                requires
                    z + 2 <= num_cols,
                    x + 2 <= num_rows,
            ;
            let start = (z * num_rows + x) as u32;
            let ghost before = indices@;
            push_quad(&mut indices, start, start + num_rows as u32);
            proof {
                assert forall|i: int| 0 <= i < indices@.len() implies #[trigger] indices@[i]
                    < num_rows * num_cols by {
                    if i >= before.len() {
                        let t = i - before.len();
                        assert(indices@[before.len() + t] == spec_quad_corner(
                            start as int,
                            start + num_rows,
                            t,
                        ));
                    }
                }
                assert forall|z2: int, x2: int, k: int|
                    0 <= x2 < w && 0 <= k < 6 && (0 <= z2 < z || (z2 == z && 0 <= x2 < x + 1))
                        implies #[trigger] indices@[spec_quad_slot(w, z2, x2, k)] == spec_quad_corner(
                        z2 * num_rows + x2,
                        z2 * num_rows + x2 + num_rows,
                        k,
                    ) by {
                    if z2 == z && x2 == x {
                        assert(spec_quad_slot(w, z2, x2, k) == before.len() + k);
                    } else {
                        lemma_earlier_quad_slot(w, z as int, x as int, z2, x2, k);
                        assert(indices@[spec_quad_slot(w, z2, x2, k)] == before[spec_quad_slot(
                            w,
                            z2,
                            x2,
                            k,
                        )]);
                    }
                }
            }
            x = x + 1;
        }
        assert(6 * (z * w + w) == 6 * ((z + 1) * w)) by (nonlinear_arith);
        z = z + 1;
    }
    assert(6 * (z * w) == 6 * (num_rows - 1) * (num_cols - 1)) by (nonlinear_arith)
        requires
            z == num_cols - 1,
            w == num_rows - 1,
    ;
    indices
}

/// Triangle indices of a closed ribbon of `num_stations` cross-sections with
/// `width` vertices each (vertex `station * width + k`): each pair of adjacent
/// cross-section vertices is joined to the next station by two triangles, and
/// the last station joins back to the first to close the loop.
pub fn ribbon_indices(num_stations: usize, width: usize) -> (indices: Vec<u32>)
    requires
        num_stations == 0 || width >= 1,
        num_stations * width <= u32::MAX as int + 1,
        6 * num_stations * (width - 1) <= usize::MAX,
    ensures
        indices@.len() == (if num_stations == 0 {
            0
        } else {
            6 * num_stations * (width - 1)
        }),
        forall|s: int, k: int, t: int|
            0 <= s < num_stations && 0 <= k < width - 1 && 0 <= t < 6 ==> #[trigger] indices@[spec_quad_slot(
                width - 1,
                s,
                k,
                t,
            )] == spec_quad_corner(s * width + k, ((s + 1) % (num_stations as int)) * width + k, t),
        forall|i: int| 0 <= i < indices@.len() ==> #[trigger] indices@[i] < num_stations * width,
{
    let mut indices: Vec<u32> = Vec::new();
    if num_stations == 0 {
        return indices;
    }
    let ghost w = width - 1;
    let n = num_stations;
    let mut si: usize = 0;
    while si < n
        invariant
            n == num_stations,
            n >= 1,
            width >= 1,
            n * width <= u32::MAX as int + 1,
            w == width - 1,
            si <= n,
            indices@.len() == 6 * (si * w),
            forall|i: int| 0 <= i < indices@.len() ==> #[trigger] indices@[i] < n * width,
            forall|s2: int, k2: int, t: int|
                0 <= s2 < si && 0 <= k2 < w && 0 <= t < 6 ==> #[trigger] indices@[spec_quad_slot(w, s2, k2, t)]
                    == spec_quad_corner(s2 * width + k2, ((s2 + 1) % (n as int)) * width + k2, t),
        decreases n - si,
    {
        let ni = (si + 1) % n;
        let mut k: usize = 0;
        while k < width - 1
            invariant
                n == num_stations,
                n >= 1,
                width >= 1,
                n * width <= u32::MAX as int + 1,
                w == width - 1,
                si < n,
                ni == (si + 1) % (n as int),
                k <= w,
                indices@.len() == 6 * (si * w + k),
                forall|i: int| 0 <= i < indices@.len() ==> #[trigger] indices@[i] < n * width,
                forall|s2: int, k2: int, t: int|
                    0 <= k2 < w && 0 <= t < 6 && (0 <= s2 < si || (s2 == si && 0 <= k2 < k))
                        ==> #[trigger] indices@[spec_quad_slot(w, s2, k2, t)] == spec_quad_corner(
                        s2 * width + k2,
                        ((s2 + 1) % (n as int)) * width + k2,
                        t,
                    ),
            decreases w - k,
        {
            assert(si * width + k + 1 <= n * width - 1 && ni * width + k + 1 <= n * width - 1)
                by (nonlinear_arith)
                requires
                    si + 1 <= n,
                    ni + 1 <= n,
                    k + 2 <= width,
            ;
            let a = (si * width + k) as u32;
            let c = (ni * width + k) as u32;
            let ghost before = indices@;
            push_quad(&mut indices, a, c);
            proof {
                assert forall|i: int| 0 <= i < indices@.len() implies #[trigger] indices@[i]
                    < n * width by {
                    if i >= before.len() {
                        let t = i - before.len();
                        assert(indices@[before.len() + t] == spec_quad_corner(a as int, c as int, t));
                    }
                }
                assert forall|s2: int, k2: int, t: int|
                    0 <= k2 < w && 0 <= t < 6 && (0 <= s2 < si || (s2 == si && 0 <= k2 < k + 1))
                        implies #[trigger] indices@[spec_quad_slot(w, s2, k2, t)] == spec_quad_corner(
                        s2 * width + k2,
                        ((s2 + 1) % (n as int)) * width + k2,
                        t,
                    ) by {
                    if s2 == si && k2 == k {
                        assert(spec_quad_slot(w, s2, k2, t) == before.len() + t);
                    } else {
                        lemma_earlier_quad_slot(w, si as int, k as int, s2, k2, t);
                        assert(indices@[spec_quad_slot(w, s2, k2, t)] == before[spec_quad_slot(
                            w,
                            s2,
                            k2,
                            t,
                        )]);
                    }
                }
            }
            k = k + 1;
        }
        assert(6 * (si * w + w) == 6 * ((si + 1) * w)) by (nonlinear_arith);
        si = si + 1;
    }
    assert(6 * (si * w) == 6 * num_stations * (width - 1)) by (nonlinear_arith)
        requires
            si == num_stations,
            w == width - 1,
    ;
    indices
}

// ---------------------------------------------------------------------------
// Office-window texture for the buildings
// ---------------------------------------------------------------------------

/// Width and height of the window texture, in pixels.
pub const WINDOW_TEXTURE_SIZE: u32 = 32;

/// Width and height of one window (frame included), in pixels.
pub const WINDOW_CELL: u32 = 4;

/// Whether pixel (x, y) lies on the frame (mullion) lines between windows.
pub open spec fn spec_is_frame(x: int, y: int) -> bool {
    x % (WINDOW_CELL as int) == 0 || y % (WINDOW_CELL as int) == 0
}

/// Whether the window holding pixel (x, y) is lit: a fixed scatter over the
/// 8 x 8 window grid.
pub open spec fn spec_is_lit(x: int, y: int) -> bool {
    let cx = x / (WINDOW_CELL as int);
    let cy = y / (WINDOW_CELL as int);
    (((cx * 73) as u32) ^ ((cy * 151) as u32)) % 5 < 2
}

/// Channel `ch` (red, green, blue, alpha) of pixel (x, y): dark frames, warm
/// lit windows, bluish dark windows, all opaque.
pub open spec fn spec_window_channel(x: int, y: int, ch: int) -> u8 {
    if ch == 3 {
        255
    } else if spec_is_frame(x, y) {
        if ch == 0 { 26 } else if ch == 1 { 28 } else { 34 }
    } else if spec_is_lit(x, y) {
        if ch == 0 { 255 } else if ch == 1 { 232 } else { 158 }
    } else {
        if ch == 0 { 70 } else if ch == 1 { 92 } else { 122 }
    }
}

/// Position of channel `ch` of pixel (x, y) in the row-major RGBA buffer.
pub open spec fn spec_texel_byte(x: int, y: int, ch: int) -> int {
    4 * ((WINDOW_TEXTURE_SIZE as int) * y + x) + ch
}

/// The layout of the window texture: every pixel is opaque; every pixel on a
/// row or column that is a multiple of the window size is a dark frame pixel
/// (26, 28, 34); every other pixel is either a lit window (255, 232, 158) or a
/// dark window (70, 92, 122), and all such pixels of one window share one
/// colour.
pub proof fn lemma_window_texture_layout(x: int, y: int, x2: int, y2: int, ch: int)
    requires
        0 <= x < WINDOW_TEXTURE_SIZE,
        0 <= y < WINDOW_TEXTURE_SIZE,
        0 <= x2 < WINDOW_TEXTURE_SIZE,
        0 <= y2 < WINDOW_TEXTURE_SIZE,
        0 <= ch < 4,
    ensures
        ch == 3 ==> spec_window_channel(x, y, ch) == 255,
        (x % 4 == 0 || y % 4 == 0) && ch == 0 ==> spec_window_channel(x, y, ch) == 26,
        (x % 4 == 0 || y % 4 == 0) && ch == 1 ==> spec_window_channel(x, y, ch) == 28,
        (x % 4 == 0 || y % 4 == 0) && ch == 2 ==> spec_window_channel(x, y, ch) == 34,
        x % 4 != 0 && y % 4 != 0 ==> (spec_window_channel(x, y, 0) == 255 && spec_window_channel(
            x,
            y,
            1,
        ) == 232 && spec_window_channel(x, y, 2) == 158) || (spec_window_channel(x, y, 0) == 70
            && spec_window_channel(x, y, 1) == 92 && spec_window_channel(x, y, 2) == 122),
        x % 4 != 0 && y % 4 != 0 && x2 % 4 != 0 && y2 % 4 != 0 && x / 4 == x2 / 4 && y / 4 == y2
            / 4 ==> spec_window_channel(x, y, ch) == spec_window_channel(x2, y2, ch),
{
}

fn push_texel(data: &mut Vec<u8>, r: u8, g: u8, b: u8)
    ensures
        final(data)@ == old(data)@ + seq![r, g, b, 255u8],
{
    data.push(r);
    data.push(g);
    data.push(b);
    data.push(255);
}

/// The RGBA bytes of a small tiling texture of office windows, row by row.
pub fn window_texture_pixels() -> (data: Vec<u8>)
    ensures
        data@.len() == 4 * WINDOW_TEXTURE_SIZE * WINDOW_TEXTURE_SIZE,
        forall|x: int, y: int, ch: int|
            0 <= x < WINDOW_TEXTURE_SIZE && 0 <= y < WINDOW_TEXTURE_SIZE && 0 <= ch < 4
                ==> #[trigger] data@[spec_texel_byte(x, y, ch)] == spec_window_channel(x, y, ch),
{
    let size = WINDOW_TEXTURE_SIZE;
    let cell = WINDOW_CELL;
    let mut data: Vec<u8> = Vec::new();
    let mut y: u32 = 0;
    while y < size
        invariant
            size == WINDOW_TEXTURE_SIZE,
            cell == WINDOW_CELL,
            y <= size,
            data@.len() == 4 * (size * y),
            forall|x2: int, y2: int, ch: int|
                0 <= x2 < size && 0 <= y2 < y && 0 <= ch < 4 ==> #[trigger] data@[spec_texel_byte(x2, y2, ch)]
                    == spec_window_channel(x2, y2, ch),
        decreases size - y,
    {
        let mut x: u32 = 0;
        while x < size
            invariant
                size == WINDOW_TEXTURE_SIZE,
                cell == WINDOW_CELL,
                y < size,
                x <= size,
                data@.len() == 4 * (size * y + x),
                forall|x2: int, y2: int, ch: int|
                    0 <= x2 < size && 0 <= ch < 4 && (0 <= y2 < y || (y2 == y && 0 <= x2 < x))
                        ==> #[trigger] data@[spec_texel_byte(x2, y2, ch)] == spec_window_channel(
                        x2,
                        y2,
                        ch,
                    ),
            decreases size - x,
        {
            let cx = x / cell;
            let cy = y / cell;
            let frame = (x % cell == 0) || (y % cell == 0);
            let lit = ((cx * 73) ^ (cy * 151)) % 5 < 2;
            let ghost before = data@;
            if frame {
                push_texel(&mut data, 26, 28, 34);
            } else if lit {
                push_texel(&mut data, 255, 232, 158);
            } else {
                push_texel(&mut data, 70, 92, 122);
            }
            proof {
                assert(frame == spec_is_frame(x as int, y as int));
                assert(lit == spec_is_lit(x as int, y as int));
                assert forall|x2: int, y2: int, ch: int|
                    0 <= x2 < size && 0 <= ch < 4 && (0 <= y2 < y || (y2 == y && 0 <= x2 < x + 1))
                        implies #[trigger] data@[spec_texel_byte(x2, y2, ch)] == spec_window_channel(
                        x2,
                        y2,
                        ch,
                    ) by {
                    if y2 == y && x2 == x {
                        assert(spec_texel_byte(x2, y2, ch) == before.len() + ch);
                    } else {
                        assert(spec_texel_byte(x2, y2, ch) < before.len());
                    }
                }
            }
            x = x + 1;
        }
        y = y + 1;
    }
    data
}

// ---------------------------------------------------------------------------
// Picking waypoints around the circuit
// ---------------------------------------------------------------------------

/// The waypoints that carry a traffic signal: every third one, starting at the
/// start/finish line.
pub fn signal_waypoints(num_waypoints: usize) -> (gates: Vec<usize>)
    ensures
        gates@.len() == (num_waypoints + 2) / 3,
        forall|j: int| 0 <= j < gates@.len() ==> #[trigger] gates@[j] == 3 * j,
        forall|j: int| 0 <= j < gates@.len() ==> #[trigger] gates@[j] < num_waypoints,
{
    let count = num_waypoints / 3 + if num_waypoints % 3 != 0 { 1 } else { 0 };
    let mut gates: Vec<usize> = Vec::new();
    let mut j: usize = 0;
    while j < count
        invariant
            count == (num_waypoints + 2) / 3,
            j <= count,
            gates@.len() == j,
            forall|i: int| 0 <= i < j ==> #[trigger] gates@[i] == 3 * i,
            forall|i: int| 0 <= i < j ==> #[trigger] gates@[i] < num_waypoints,
        decreases count - j,
    {
        gates.push(3 * j);
        j = j + 1;
    }
    gates
}

/// The five waypoints around waypoint `centre` (two either side of it,
/// wrapping round the circuit) along which a bridge is built.
pub fn bridge_waypoints(centre: usize, num_waypoints: usize) -> (span: Vec<usize>)
    requires
        centre < num_waypoints,
        num_waypoints + 2 <= i32::MAX,
    ensures
        span@.len() == 5,
        forall|t: int| 0 <= t < 5 ==> #[trigger] span@[t] == (centre + t - 2) % (num_waypoints as int),
{
    let n = num_waypoints;
    let mut span: Vec<usize> = Vec::new();
    let mut t: usize = 0;
    while t < 5
        invariant
            n == num_waypoints,
            centre < n,
            n + 2 <= i32::MAX,
            t <= 5,
            span@.len() == t,
            forall|i: int| 0 <= i < t ==> #[trigger] span@[i] == (centre + i - 2) % (n as int),
        decreases 5 - t,
    {
        let idx = if centre + t >= 2 {
            (centre + t - 2) % n
        } else {
            proof {
                lemma_mod_add_multiples_vanish(centre + t - 2, n as int);
                lemma_mod_add_multiples_vanish(centre + t - 2 + n, n as int);
                assert(centre + t + 2 * n < 0x1_0000_0000);
            }
            (centre + t + 2 * n - 2) % n
        };
        span.push(idx);
        t = t + 1;
    }
    span
}

/// The index `offset` places further along a closed path of `len` points from
/// point `base`, wrapping round (an empty path is treated as one point long).
pub fn wrapped_index(base: usize, offset: usize, len: usize) -> (i: usize)
    requires
        base + offset <= usize::MAX,
    ensures
        i == (base + offset) % (if len == 0 { 1 } else { len as int }),
        len > 0 ==> i < len,
{
    let m = if len == 0 { 1 } else { len };
    (base + offset) % m
}

} // verus!
