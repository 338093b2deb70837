use vstd::prelude::*;

verus! {

/// Fixed-point scale of the quantizer: one step of an 8-bit channel is
/// `FIXED_ONE` units, and a saturation of 1 is `FIXED_ONE`.
pub const FIXED_ONE: i64 = 65536;

/// Largest working channel value (255 in 8-bit terms).
pub const CHANNEL_MAX: i64 = 16711680;

/// A colour in fixed-point units, one entry per channel (red, green, blue).
pub type Channels = (i64, i64, i64);

/// One entry of a panel palette in 8-bit channels.
pub type Rgb8 = (u8, u8, u8);

pub open spec fn channel_ok(v: i64) -> bool {
    0 <= v <= CHANNEL_MAX
}

pub open spec fn colour_ok(c: Channels) -> bool {
    channel_ok(c.0) && channel_ok(c.1) && channel_ok(c.2)
}

pub open spec fn all_colours_ok(s: Seq<Channels>) -> bool {
    forall|i: int| 0 <= i < s.len() ==> colour_ok(#[trigger] s[i])
}

/// Error terms are bounded by one full channel swing.
pub open spec fn error_ok(e: Channels) -> bool {
    -CHANNEL_MAX <= e.0 <= CHANNEL_MAX && -CHANNEL_MAX <= e.1 <= CHANNEL_MAX && -CHANNEL_MAX
        <= e.2 <= CHANNEL_MAX
}

/// Squared Euclidean distance between two colours.
pub open spec fn distance(a: Channels, b: Channels) -> int {
    (a.0 - b.0) * (a.0 - b.0) + (a.1 - b.1) * (a.1 - b.1) + (a.2 - b.2) * (a.2 - b.2)
}

/// Index of the nearest of the first `n` palette entries; ties go to the
/// lowest index.
pub open spec fn nearest_upto(palette: Seq<Channels>, c: Channels, n: int) -> int
    decreases n,
{
    if n <= 1 {
        0
    } else {
        let best = nearest_upto(palette, c, n - 1);
        if distance(c, palette[n - 1]) < distance(c, palette[best]) {
            n - 1
        } else {
            best
        }
    }
}

/// Blend of a fully saturated and a fully desaturated channel at saturation
/// `s` (in units of `FIXED_ONE`), in fixed-point units.
pub open spec fn blend_channel(saturated: u8, desaturated: u8, s: int) -> int {
    saturated * s + desaturated * (FIXED_ONE - s)
}

pub open spec fn blend_entry(saturated: Rgb8, desaturated: Rgb8, s: int) -> Channels {
    (
        blend_channel(saturated.0, desaturated.0, s) as i64,
        blend_channel(saturated.1, desaturated.1, s) as i64,
        blend_channel(saturated.2, desaturated.2, s) as i64,
    )
}

/// Saturation clamped to `[0, FIXED_ONE]`.
pub open spec fn clamp_saturation(s: u32) -> int {
    if s > FIXED_ONE as u32 {
        FIXED_ONE as int
    } else {
        s as int
    }
}

proof fn lemma_blend_bounds(a: u8, b: u8, s: int)
    requires
        0 <= s <= FIXED_ONE,
    ensures
        0 <= blend_channel(a, b, s) <= CHANNEL_MAX,
{
    assert(0 <= a * s <= 255 * s) by (nonlinear_arith)
        requires 0 <= a <= 255, 0 <= s;
    assert(0 <= b * (FIXED_ONE - s) <= 255 * (FIXED_ONE - s)) by (nonlinear_arith)
        requires 0 <= b <= 255, 0 <= FIXED_ONE - s;
}

/// The working palette: each entry blended between its saturated and
/// desaturated form by the saturation (clamped to one).
pub fn blend_palette(saturated: &[Rgb8], desaturated: &[Rgb8], saturation: u32) -> (palette: Vec<
    Channels,
>)
    requires
        saturated@.len() == desaturated@.len(),
    ensures
        palette@.len() == saturated@.len(),
        forall|i: int|
            0 <= i < palette@.len() ==> #[trigger] palette@[i] == blend_entry(
                saturated@[i],
                desaturated@[i],
                clamp_saturation(saturation),
            ),
        all_colours_ok(palette@),
{
    let s: i64 = if saturation > FIXED_ONE as u32 {
        FIXED_ONE
    } else {
        saturation as i64
    };
    let mut palette: Vec<Channels> = Vec::new();
    let mut i: usize = 0;
    while i < saturated.len()
        invariant
            saturated@.len() == desaturated@.len(),
            s == clamp_saturation(saturation),
            0 <= s <= FIXED_ONE,
            i <= saturated@.len(),
            palette@.len() == i,
            forall|j: int|
                0 <= j < i ==> #[trigger] palette@[j] == blend_entry(
                    saturated@[j],
                    desaturated@[j],
                    s as int,
                ),
            all_colours_ok(palette@),
        decreases saturated@.len() - i,
    {
        let (sr, sg, sb) = saturated[i];
        let (dr, dg, db) = desaturated[i];
        proof {
            lemma_blend_bounds(sr, dr, s as int);
            lemma_blend_bounds(sg, dg, s as int);
            lemma_blend_bounds(sb, db, s as int);
        }
        let entry: Channels = (
            sr as i64 * s + dr as i64 * (FIXED_ONE - s),
            sg as i64 * s + dg as i64 * (FIXED_ONE - s),
            sb as i64 * s + db as i64 * (FIXED_ONE - s),
        );
        palette.push(entry);
        i = i + 1;
    }
    palette
}

/// Nearest palette entry to `colour` by squared Euclidean distance, the
/// lowest index winning ties.
pub fn nearest_colour(palette: &[Channels], colour: Channels) -> (r: (usize, Channels))
    requires
        palette@.len() >= 1,
        all_colours_ok(palette@),
        colour_ok(colour),
    ensures
        r.0 < palette@.len(),
        r.1 == palette@[r.0 as int],
        r.0 == nearest_upto(palette@, colour, palette@.len() as int),
        forall|j: int|
            0 <= j < palette@.len() ==> distance(colour, palette@[r.0 as int]) <= distance(
                colour,
                #[trigger] palette@[j],
            ),
        forall|j: int|
            0 <= j < r.0 ==> distance(colour, palette@[r.0 as int]) < distance(
                colour,
                #[trigger] palette@[j],
            ),
{
    let mut best_index: usize = 0;
    let mut best_distance: i64 = distance_exec(palette[0], colour);
    let mut idx: usize = 1;
    while idx < palette.len()
        invariant
            1 <= idx <= palette@.len(),
            all_colours_ok(palette@),
            colour_ok(colour),
            best_index < idx,
            best_index == nearest_upto(palette@, colour, idx as int),
            best_distance == distance(colour, palette@[best_index as int]),
            forall|j: int|
                0 <= j < idx ==> best_distance <= distance(colour, #[trigger] palette@[j]),
            forall|j: int|
                0 <= j < best_index ==> best_distance < distance(colour, #[trigger] palette@[j]),
        decreases palette@.len() - idx,
    {
        let d = distance_exec(palette[idx], colour);
        if d < best_distance {
            best_distance = d;
            best_index = idx;
        }
        idx = idx + 1;
    }
    (best_index, palette[best_index])
}

proof fn lemma_square_bound(d: int)
    requires
        -CHANNEL_MAX <= d <= CHANNEL_MAX,
    ensures
        0 <= d * d <= CHANNEL_MAX * CHANNEL_MAX,
{
    assert(0 <= d * d <= CHANNEL_MAX * CHANNEL_MAX) by (nonlinear_arith)
        requires -CHANNEL_MAX <= d <= CHANNEL_MAX;
}

fn distance_exec(a: Channels, b: Channels) -> (r: i64)
    requires
        colour_ok(a),
        colour_ok(b),
    ensures
        r == distance(b, a),
{
    let dr = b.0 - a.0;
    let dg = b.1 - a.1;
    let db = b.2 - a.2;
    proof {
        lemma_square_bound(dr as int);
        lemma_square_bound(dg as int);
        lemma_square_bound(db as int);
    }
    dr * dr + dg * dg + db * db
}

/// Channel value clamped to the working range.
pub open spec fn clamp_channel(v: int) -> int {
    if v < 0 {
        0
    } else if v > CHANNEL_MAX {
        CHANNEL_MAX as int
    } else {
        v
    }
}

/// A pixel after receiving `weight`/16 of the error (rounded down), each
/// channel clamped to the working range.
pub open spec fn with_error(p: Channels, err: Channels, weight: int) -> Channels {
    (
        clamp_channel(p.0 + (err.0 * weight) / 16) as i64,
        clamp_channel(p.1 + (err.1 * weight) / 16) as i64,
        clamp_channel(p.2 + (err.2 * weight) / 16) as i64,
    )
}

/// Adds a share of the error to the pixel at `(nx, ny)`, if it lies inside
/// the image.
pub open spec fn spread(
    work: Seq<Channels>,
    width: int,
    height: int,
    nx: int,
    ny: int,
    err: Channels,
    weight: int,
) -> Seq<Channels> {
    if 0 <= nx < width && 0 <= ny < height {
        work.update(ny * width + nx, with_error(work[ny * width + nx], err, weight))
    } else {
        work
    }
}

/// Floyd-Steinberg diffusion of the error of pixel `(x, y)` to its four
/// unvisited neighbours, weights 7, 3, 5 and 1 sixteenths.
pub open spec fn diffuse(
    work: Seq<Channels>,
    width: int,
    height: int,
    x: int,
    y: int,
    err: Channels,
) -> Seq<Channels> {
    let w1 = spread(work, width, height, x + 1, y, err, 7);
    let w2 = spread(w1, width, height, x - 1, y + 1, err, 3);
    let w3 = spread(w2, width, height, x, y + 1, err, 5);
    spread(w3, width, height, x + 1, y + 1, err, 1)
}

proof fn lemma_spread_ok(
    work: Seq<Channels>,
    width: int,
    height: int,
    nx: int,
    ny: int,
    err: Channels,
    weight: int,
)
    requires
        0 <= width,
        0 <= height,
        work.len() == width * height,
        all_colours_ok(work),
    ensures
        spread(work, width, height, nx, ny, err, weight).len() == work.len(),
        all_colours_ok(spread(work, width, height, nx, ny, err, weight)),
{
    if 0 <= nx < width && 0 <= ny < height {
        assert(0 <= ny * width + nx < width * height) by (nonlinear_arith)
            requires 0 <= nx < width, 0 <= ny < height;
    }
}

/// Diffusion keeps every working channel within range, whatever the error.
pub proof fn lemma_diffuse_in_range(
    work: Seq<Channels>,
    width: int,
    height: int,
    x: int,
    y: int,
    err: Channels,
)
    requires
        0 <= width,
        0 <= height,
        work.len() == width * height,
        all_colours_ok(work),
    ensures
        diffuse(work, width, height, x, y, err).len() == work.len(),
        all_colours_ok(diffuse(work, width, height, x, y, err)),
{
    let w1 = spread(work, width, height, x + 1, y, err, 7);
    lemma_spread_ok(work, width, height, x + 1, y, err, 7);
    let w2 = spread(w1, width, height, x - 1, y + 1, err, 3);
    lemma_spread_ok(w1, width, height, x - 1, y + 1, err, 3);
    let w3 = spread(w2, width, height, x, y + 1, err, 5);
    lemma_spread_ok(w2, width, height, x, y + 1, err, 5);
    lemma_spread_ok(w3, width, height, x + 1, y + 1, err, 1);
}

/// `v / 16` rounded towards negative infinity.
fn floor_div16(v: i64) -> (r: i64)
    requires
        -CHANNEL_MAX * 16 <= v <= CHANNEL_MAX * 16,
    ensures
        r == v / 16,
{
    if v >= 0 {
        v / 16
    } else {
        let q: i64 = (15 - v) / 16;
        assert(-q == v / 16) by (nonlinear_arith)
            requires q == (15 - v) / 16, v < 0;
        -q
    }
}

fn add_share(v: i64, e: i64, weight: i64) -> (r: i64)
    requires
        channel_ok(v),
        -CHANNEL_MAX <= e <= CHANNEL_MAX,
        0 <= weight <= 16,
    ensures
        r == clamp_channel(v + (e * weight) / 16),
{
    assert(-CHANNEL_MAX * 16 <= e * weight <= CHANNEL_MAX * 16) by (nonlinear_arith)
        requires -CHANNEL_MAX <= e <= CHANNEL_MAX, 0 <= weight <= 16;
    let share = floor_div16(e * weight);
    let value = v + share;
    if value < 0 {
        0
    } else if value > CHANNEL_MAX {
        CHANNEL_MAX
    } else {
        value
    }
}

fn spread_exec(
    working: &mut Vec<Channels>,
    width: usize,
    height: usize,
    nx: i64,
    ny: i64,
    err: Channels,
    weight: i64,
)
    requires
        old(working)@.len() == width * height,
        width <= 0x7FFF_FFFF,
        height <= 0x7FFF_FFFF,
        all_colours_ok(old(working)@),
        error_ok(err),
        0 <= weight <= 16,
    ensures
        final(working)@ == spread(old(working)@, width as int, height as int, nx as int, ny as int, err, weight as int),
{
    if nx < 0 || ny < 0 {
        return;
    }
    if nx >= width as i64 || ny >= height as i64 {
        return;
    }
    let ux = nx as usize;
    let uy = ny as usize;
    let len = working.len();
    assert(len == width * height);
    assert(0 <= uy * width + ux < width * height) by (nonlinear_arith)
        requires 0 <= ux < width, 0 <= uy < height;
    let idx = uy * width + ux;
    let (r, g, b) = working[idx];
    let updated: Channels = (add_share(r, err.0, weight), add_share(g, err.1, weight), add_share(b, err.2, weight));
    working[idx] = updated;
}

/// Spreads the quantization error of pixel `(x, y)` over its unvisited
/// neighbours, clamping each updated channel; neighbours outside the image
/// are skipped.
pub fn distribute_error(
    working: &mut Vec<Channels>,
    width: usize,
    height: usize,
    x: usize,
    y: usize,
    error: Channels,
)
    requires
        old(working)@.len() == width * height,
        x < width,
        y < height,
        width <= 0x7FFF_FFFF,
        height <= 0x7FFF_FFFF,
        all_colours_ok(old(working)@),
        error_ok(error),
    ensures
        final(working)@ == diffuse(old(working)@, width as int, height as int, x as int, y as int, error),
        final(working)@.len() == old(working)@.len(),
        all_colours_ok(final(working)@),
{
    proof {
        lemma_diffuse_in_range(working@, width as int, height as int, x as int, y as int, error);
        lemma_spread_ok(working@, width as int, height as int, x + 1, y as int, error, 7);
    }
    let xi = x as i64;
    let yi = y as i64;
    spread_exec(working, width, height, xi + 1, yi, error, 7);
    proof {
        lemma_spread_ok(working@, width as int, height as int, x - 1, y + 1, error, 3);
    }
    spread_exec(working, width, height, xi - 1, yi + 1, error, 3);
    proof {
        lemma_spread_ok(working@, width as int, height as int, x as int, y + 1, error, 5);
    }
    spread_exec(working, width, height, xi, yi + 1, error, 5);
    proof {
        lemma_spread_ok(working@, width as int, height as int, x + 1, y + 1, error, 1);
    }
    spread_exec(working, width, height, xi + 1, yi + 1, error, 1);
}

/// Per-channel difference between the pixel's colour and the chosen entry.
pub open spec fn quantize_error(c: Channels, p: Channels) -> Channels {
    ((c.0 - p.0) as i64, (c.1 - p.1) as i64, (c.2 - p.2) as i64)
}

/// Processing pixel `k` (row-major): the nearest entry's remapped index is
/// stored, and the error is diffused to the neighbours.
pub open spec fn dither_step(
    palette: Seq<Channels>,
    remap: Seq<u8>,
    width: int,
    height: int,
    state: (Seq<Channels>, Seq<u8>),
    k: int,
) -> (Seq<Channels>, Seq<u8>) {
    let c = state.0[k];
    let n = nearest_upto(palette, c, palette.len() as int);
    (
        diffuse(state.0, width, height, k % width, k / width, quantize_error(c, palette[n])),
        state.1.update(k, remap[n]),
    )
}

/// Working image and index buffer after the first `k` pixels were processed.
pub open spec fn dither_upto(
    palette: Seq<Channels>,
    remap: Seq<u8>,
    width: int,
    height: int,
    work: Seq<Channels>,
    buffer: Seq<u8>,
    k: int,
) -> (Seq<Channels>, Seq<u8>)
    decreases k,
{
    if k <= 0 {
        (work, buffer)
    } else {
        dither_step(
            palette,
            remap,
            width,
            height,
            dither_upto(palette, remap, width, height, work, buffer, k - 1),
            k - 1,
        )
    }
}

proof fn lemma_pixel_coords(k: int, width: int, height: int)
    requires
        0 <= k < width * height,
        0 < width,
        0 <= height,
    ensures
        0 <= k % width < width,
        0 <= k / width < height,
        (k / width) * width + k % width == k,
{
    assert(0 <= k / width < height) by (nonlinear_arith)
        requires 0 <= k < width * height, 0 < width;
    assert((k / width) * width + k % width == k) by (nonlinear_arith)
        requires 0 < width;
}

proof fn lemma_error_ok(c: Channels, p: Channels)
    requires
        colour_ok(c),
        colour_ok(p),
    ensures
        error_ok(quantize_error(c, p)),
{
}

/// Every working channel stays within `[0, CHANNEL_MAX]` (0 to 255 in
/// 8-bit terms) at every step of the diffusion, for any input image.
pub proof fn lemma_dither_channels_in_range(
    palette: Seq<Channels>,
    remap: Seq<u8>,
    width: int,
    height: int,
    work: Seq<Channels>,
    buffer: Seq<u8>,
    k: int,
)
    requires
        0 <= width,
        0 <= height,
        0 <= k <= width * height,
        work.len() == width * height,
        buffer.len() == width * height,
        all_colours_ok(work),
    ensures
        dither_upto(palette, remap, width, height, work, buffer, k).0.len() == width * height,
        dither_upto(palette, remap, width, height, work, buffer, k).1.len() == width * height,
        all_colours_ok(dither_upto(palette, remap, width, height, work, buffer, k).0),
    decreases k,
{
    if k > 0 {
        lemma_dither_channels_in_range(palette, remap, width, height, work, buffer, k - 1);
        let st = dither_upto(palette, remap, width, height, work, buffer, k - 1);
        let c = st.0[k - 1];
        let n = nearest_upto(palette, c, palette.len() as int);
        lemma_diffuse_in_range(
            st.0,
            width,
            height,
            (k - 1) % width,
            (k - 1) / width,
            quantize_error(c, palette[n]),
        );
    }
}

/// Every processed entry of the index buffer is one of the remap table's
/// values, hence below any bound that the whole table respects.
pub proof fn lemma_dither_indices_in_range(
    palette: Seq<Channels>,
    remap: Seq<u8>,
    width: int,
    height: int,
    work: Seq<Channels>,
    buffer: Seq<u8>,
    k: int,
    bound: u8,
)
    requires
        0 <= width,
        0 <= height,
        0 <= k <= width * height,
        work.len() == width * height,
        buffer.len() == width * height,
        all_colours_ok(work),
        palette.len() >= 1,
        remap.len() == palette.len(),
        forall|j: int| 0 <= j < remap.len() ==> #[trigger] remap[j] < bound,
    ensures
        forall|i: int|
            0 <= i < k ==> #[trigger] dither_upto(palette, remap, width, height, work, buffer, k).1[i]
                < bound,
    decreases k,
{
    if k > 0 {
        lemma_dither_indices_in_range(palette, remap, width, height, work, buffer, k - 1, bound);
        lemma_dither_channels_in_range(palette, remap, width, height, work, buffer, k - 1);
        let st = dither_upto(palette, remap, width, height, work, buffer, k - 1);
        let c = st.0[k - 1];
        lemma_nearest_in_bounds(palette, c, palette.len() as int);
    }
}

/// Every processed entry of the index buffer is a value of the remap table.
pub proof fn lemma_dither_indices_from_table(
    palette: Seq<Channels>,
    remap: Seq<u8>,
    width: int,
    height: int,
    work: Seq<Channels>,
    buffer: Seq<u8>,
    k: int,
)
    requires
        0 <= width,
        0 <= height,
        0 <= k <= width * height,
        work.len() == width * height,
        buffer.len() == width * height,
        all_colours_ok(work),
        palette.len() >= 1,
        remap.len() == palette.len(),
    ensures
        forall|i: int|
            0 <= i < k ==> exists|j: int|
                0 <= j < remap.len() && #[trigger] dither_upto(palette, remap, width, height, work, buffer, k).1[i]
                    == remap[j],
    decreases k,
{
    if k > 0 {
        lemma_dither_indices_from_table(palette, remap, width, height, work, buffer, k - 1);
        lemma_dither_channels_in_range(palette, remap, width, height, work, buffer, k - 1);
        let st = dither_upto(palette, remap, width, height, work, buffer, k - 1);
        let c = st.0[k - 1];
        lemma_nearest_in_bounds(palette, c, palette.len() as int);
        let n = nearest_upto(palette, c, palette.len() as int);
        let out = dither_upto(palette, remap, width, height, work, buffer, k).1;
        assert forall|i: int| 0 <= i < k implies exists|j: int|
            0 <= j < remap.len() && #[trigger] out[i] == remap[j] by {
            if i == k - 1 {
                assert(out[i] == remap[n]);
            } else {
                assert(out[i] == st.1[i]);
            }
        }
    }
}

proof fn lemma_nearest_in_bounds(palette: Seq<Channels>, c: Channels, n: int)
    requires
        n >= 1,
    ensures
        0 <= nearest_upto(palette, c, n) < n,
    decreases n,
{
    if n > 1 {
        lemma_nearest_in_bounds(palette, c, n - 1);
    }
}

/// Quantizes a working image into `buffer`, pixel by pixel in row-major
/// order: the nearest palette entry's remapped index is stored and the
/// error is diffused over the unvisited neighbours.
pub fn dither_into(
    working: Vec<Channels>,
    palette: &[Channels],
    remap: &[u8],
    width: usize,
    height: usize,
    buffer: &mut Vec<u8>,
)
    requires
        working@.len() == width * height,
        old(buffer)@.len() == width * height,
        width <= 0x7FFF_FFFF,
        height <= 0x7FFF_FFFF,
        all_colours_ok(working@),
        palette@.len() >= 1,
        all_colours_ok(palette@),
        remap@.len() == palette@.len(),
    ensures
        final(buffer)@ == dither_upto(
            palette@,
            remap@,
            width as int,
            height as int,
            working@,
            old(buffer)@,
            width * height,
        ).1,
{
    let ghost work0 = working@;
    let ghost buf0 = buffer@;
    let mut working = working;
    let total = working.len();
    let mut k: usize = 0;
    while k < total
        invariant
            total == width * height,
            width <= 0x7FFF_FFFF,
            height <= 0x7FFF_FFFF,
            palette@.len() >= 1,
            all_colours_ok(palette@),
            remap@.len() == palette@.len(),
            work0.len() == total,
            buf0.len() == total,
            all_colours_ok(work0),
            k <= total,
            working@.len() == total,
            buffer@.len() == total,
            all_colours_ok(working@),
            (working@, buffer@) == dither_upto(
                palette@,
                remap@,
                width as int,
                height as int,
                work0,
                buf0,
                k as int,
            ),
        decreases total - k,
    {
        proof {
            lemma_pixel_coords(k as int, width as int, height as int);
        }
        let x = k % width;
        let y = k / width;
        let old_pixel = working[k];
        let (closest_index, closest_colour) = nearest_colour(palette, old_pixel);
        buffer[k] = remap[closest_index];
        let error: Channels = (
            old_pixel.0 - closest_colour.0,
            old_pixel.1 - closest_colour.1,
            old_pixel.2 - closest_colour.2,
        );
        proof {
            lemma_error_ok(old_pixel, closest_colour);
        }
        distribute_error(&mut working, width, height, x, y, error);
        k = k + 1;
    }
}

/// Working image of row-major RGB bytes: each channel scaled to fixed point.
pub open spec fn spec_working(data: Seq<u8>) -> Seq<Channels> {
    Seq::new(
        data.len() / 3,
        |i: int|
            (
                (data[3 * i] * FIXED_ONE) as i64,
                (data[3 * i + 1] * FIXED_ONE) as i64,
                (data[3 * i + 2] * FIXED_ONE) as i64,
            ),
    )
}

/// Converts RGB bytes to the quantizer's fixed-point working image.
pub fn working_from_rgb(data: &[u8]) -> (r: Vec<Channels>)
    ensures
        r@ == spec_working(data@),
        all_colours_ok(r@),
{
    let len = data.len();
    let n = len / 3;
    let mut out: Vec<Channels> = Vec::with_capacity(n);
    let mut i: usize = 0;
    while i < n
        invariant
            n == data@.len() / 3,
            len == data@.len(),
            i <= n,
            out@.len() == i,
            forall|j: int| 0 <= j < i ==> #[trigger] out@[j] == spec_working(data@)[j],
            all_colours_ok(out@),
        decreases n - i,
    {
        let r = data[3 * i] as i64 * FIXED_ONE;
        let g = data[3 * i + 1] as i64 * FIXED_ONE;
        let b = data[3 * i + 2] as i64 * FIXED_ONE;
        out.push((r, g, b));
        i = i + 1;
    }
    assert(out@ =~= spec_working(data@));
    out
}

} // verus!
