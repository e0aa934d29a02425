//! The render scheduler: image rows are shared out among workers in stripes, and each
//! worker shades and writes exactly the pixels of its own rows.
use vstd::prelude::*;

use crate::color::{rgba_spec, to_rgba, ScaledColor};
use crate::framebuffer::{grid, Framebuffer, BLANK_PIXEL};
use vstd::arithmetic::div_mod::{lemma_fundamental_div_mod, lemma_mod_add_multiples_vanish, lemma_small_mod};

verus! {

broadcast use crate::framebuffer::Framebuffer::lemma_pixels_cover_grid;

/// Why a render configuration was refused.
#[derive(Clone, Copy, Debug, PartialEq, Eq, Structural)]
pub enum ConfigError {
    /// A render needs at least one worker.
    NoWorkers,
    /// The image's bytes would not fit in memory's address range.
    TooLarge,
}

/// The size of the image to render and the number of workers that share its rows.
/// Fixed once made: the scheduler only reads it.
#[derive(Clone, Copy, Debug)]
pub struct RenderConfig {
    width: u32,
    height: u32,
    workers: u32,
}

/// Whether an image of this size fits in a buffer: four bytes per pixel.
pub open spec fn fits(width: u32, height: u32) -> bool {
    4 * (width as int) * (height as int) <= isize::MAX as int
}

/// Worker `worker` of `workers` owns row `y`: the rows `worker, worker + workers, ...`.
pub open spec fn owns_row(worker: int, workers: int, y: int) -> bool {
    workers > 0 && 0 <= worker < workers && y % workers == worker
}

/// The pixel at `(x, y)` is one that `shade` gives for that pixel, clamped.
pub open spec fn shaded<F: Fn(u32, u32) -> ScaledColor>(shade: F, x: u32, y: u32, px: [u8; 4]) -> bool {
    exists|c: ScaledColor| #[trigger] shade.ensures((x, y), c) && px == rgba_spec(c)
}

/// `shade` may be called on every pixel of a `width` by `height` image.
pub open spec fn shade_callable<F: Fn(u32, u32) -> ScaledColor>(shade: F, width: u32, height: u32) -> bool {
    forall|x: u32, y: u32| x < width && y < height ==> #[trigger] shade.requires((x, y))
}

/// `shade` gives one color for each pixel: the same coordinates always give the same color.
pub open spec fn deterministic<F: Fn(u32, u32) -> ScaledColor>(shade: F) -> bool {
    forall|x: u32, y: u32, c1: ScaledColor, c2: ScaledColor|
        #[trigger] shade.ensures((x, y), c1) && #[trigger] shade.ensures((x, y), c2) ==> c1 == c2
}

/// `fb` is a finished `width` by `height` render by `shade`: every pixel is shaded.
pub open spec fn rendered_by<F: Fn(u32, u32) -> ScaledColor>(
    fb: Framebuffer,
    width: u32,
    height: u32,
    shade: F,
) -> bool {
    &&& fb.spec_width() == width
    &&& fb.spec_height() == height
    &&& forall|p: (u32, u32)| #[trigger]
        grid(width, height).contains(p) ==> shaded(shade, p.0, p.1, fb.pixels()[p])
}

impl RenderConfig {
    #[verifier::type_invariant]
    spec fn valid(self) -> bool {
        self.workers > 0 && fits(self.width, self.height)
    }

    /// The image width in pixels.
    pub closed spec fn spec_width(self) -> u32 {
        self.width
    }

    /// The image height in pixels.
    pub closed spec fn spec_height(self) -> u32 {
        self.height
    }

    /// The number of workers.
    pub closed spec fn spec_workers(self) -> u32 {
        self.workers
    }

    /// A configuration for a `width` by `height` image shared among `workers` workers.
    pub fn new(width: u32, height: u32, workers: u32) -> (r: Result<RenderConfig, ConfigError>)
        ensures
            workers == 0 ==> r == Err::<RenderConfig, ConfigError>(ConfigError::NoWorkers),
            workers > 0 && !fits(width, height) ==> r == Err::<RenderConfig, ConfigError>(
                ConfigError::TooLarge,
            ),
            workers > 0 && fits(width, height) ==> (r matches Ok(c) && c.spec_width() == width
                && c.spec_height() == height && c.spec_workers() == workers),
    {
        if workers == 0 {
            return Err(ConfigError::NoWorkers);
        }
        proof {
            let (w, h) = (width as int, height as int);
            assert(0 <= w * h <= 0xffff_ffff * 0xffff_ffff) by (nonlinear_arith)
                requires
                    0 <= w <= 0xffff_ffff,
                    0 <= h <= 0xffff_ffff,
            ;
        }
        let pixels: u64 = width as u64 * height as u64;
        let limit: u64 = (isize::MAX as u64) / 4;
        if pixels > limit {
            proof {
                assert(4 * (width as int) * (height as int) == 4 * (pixels as int)) by (nonlinear_arith)
                    requires
                        pixels as int == (width as int) * (height as int),
                ;
            }
            return Err(ConfigError::TooLarge);
        }
        proof {
            assert(4 * (width as int) * (height as int) == 4 * (pixels as int)) by (nonlinear_arith)
                requires
                    pixels as int == (width as int) * (height as int),
            ;
        }
        Ok(RenderConfig { width, height, workers })
    }

    /// The image width in pixels.
    pub fn width(&self) -> (r: u32)
        ensures
            r == self.spec_width(),
    {
        self.width
    }

    /// The image height in pixels.
    pub fn height(&self) -> (r: u32)
        ensures
            r == self.spec_height(),
    {
        self.height
    }

    /// The number of workers.
    pub fn workers(&self) -> (r: u32)
        ensures
            r == self.spec_workers(),
    {
        self.workers
    }
}

/// Two rows of one stripe lie a whole number of strides apart: one that comes less
/// than a stride after another comes no later than it.
proof fn lemma_same_stripe_gap(a: int, b: int, n: int)
    requires
        n > 0,
        a >= 0,
        b >= 0,
        a % n == b % n,
        a < b + n,
    ensures
        a <= b,
{
    lemma_fundamental_div_mod(a, n);
    lemma_fundamental_div_mod(b, n);
    let qa = a / n;
    let qb = b / n;
    assert(qa <= qb) by (nonlinear_arith)
        requires
            a == n * qa + a % n,
            b == n * qb + b % n,
            a % n == b % n,
            a < b + n,
            n > 0,
    ;
    assert(n * qa <= n * qb) by (nonlinear_arith)
        requires
            qa <= qb,
            n > 0,
    ;
}

/// Shades and writes the pixels of the rows that worker `worker` of `workers` owns,
/// leaving every other pixel as it was.
pub fn render_stripe<F: Fn(u32, u32) -> ScaledColor>(
    fb: &mut Framebuffer,
    worker: u32,
    workers: u32,
    shade: &F,
)
    requires
        worker < workers,
        shade_callable(*shade, old(fb).spec_width(), old(fb).spec_height()),
    ensures
        final(fb).spec_width() == old(fb).spec_width(),
        final(fb).spec_height() == old(fb).spec_height(),
        forall|p: (u32, u32)| #[trigger]
            grid(old(fb).spec_width(), old(fb).spec_height()).contains(p) ==> if owns_row(
                worker as int,
                workers as int,
                p.1 as int,
            ) {
                shaded(*shade, p.0, p.1, final(fb).pixels()[p])
            } else {
                final(fb).pixels()[p] == old(fb).pixels()[p]
            },
{
    let width = fb.width();
    let height = fb.height();
    let ghost start = fb.pixels();
    let mut y: u64 = worker as u64;
    proof {
        lemma_small_mod(worker as nat, workers as nat);
        assert forall|p: (u32, u32)| #[trigger]
            grid(width, height).contains(p) && owns_row(worker as int, workers as int, p.1 as int) implies p.1 >= y by {
            lemma_same_stripe_gap(worker as int, p.1 as int, workers as int);
        }
    }
    while y < height as u64
        invariant
            fb.spec_width() == width,
            fb.spec_height() == height,
            worker < workers,
            shade_callable(*shade, width, height),
            (y as int) % (workers as int) == worker as int,
            y <= height + workers,
            forall|p: (u32, u32)| #[trigger]
                grid(width, height).contains(p) ==> if owns_row(
                    worker as int,
                    workers as int,
                    p.1 as int,
                ) && p.1 < y {
                    shaded(*shade, p.0, p.1, fb.pixels()[p])
                } else {
                    fb.pixels()[p] == start[p]
                },
        decreases height + workers - y,
    {
        let row = y as u32;
        let mut x: u32 = 0;
        while x < width
            invariant
                fb.spec_width() == width,
                fb.spec_height() == height,
                row == y,
                row < height,
                x <= width,
                worker < workers,
                shade_callable(*shade, width, height),
                (y as int) % (workers as int) == worker as int,
                forall|p: (u32, u32)| #[trigger]
                    grid(width, height).contains(p) ==> if owns_row(
                        worker as int,
                        workers as int,
                        p.1 as int,
                    ) && (p.1 < y || (p.1 == y && p.0 < x)) {
                        shaded(*shade, p.0, p.1, fb.pixels()[p])
                    } else {
                        fb.pixels()[p] == start[p]
                    },
            decreases width - x,
        {
            let c = shade(x, row);
            fb.set_pixel(x, row, to_rgba(c));
            proof {
                assert(shaded(*shade, x, row, rgba_spec(c)));
            }
            x = x + 1;
        }
        proof {
            lemma_mod_add_multiples_vanish(y as int, workers as int);
            assert forall|p: (u32, u32)| #[trigger]
                grid(width, height).contains(p) && owns_row(worker as int, workers as int, p.1 as int) && p.1 < y
                    + workers implies p.1 <= y by {
                lemma_same_stripe_gap(p.1 as int, y as int, workers as int);
            }
        }
        y = y + workers as u64;
    }
}

/// Renders a whole image: each worker in turn shades the rows of its stripe.
/// Every pixel is written by exactly one worker, so the result does not depend on the
/// number of workers or on the order in which they run.
pub fn render<F: Fn(u32, u32) -> ScaledColor>(config: &RenderConfig, shade: &F) -> (fb: Framebuffer)
    requires
        shade_callable(*shade, config.spec_width(), config.spec_height()),
    ensures
        rendered_by(fb, config.spec_width(), config.spec_height(), *shade),
{
    proof {
        use_type_invariant(config);
    }
    let mut fb = Framebuffer::new(config.width, config.height);
    let ghost width = config.width;
    let ghost height = config.height;
    let workers = config.workers;
    let mut k: u32 = 0;
    while k < workers
        invariant
            fb.spec_width() == width,
            fb.spec_height() == height,
            k <= workers,
            workers > 0,
            shade_callable(*shade, width, height),
            forall|p: (u32, u32)| #[trigger]
                grid(width, height).contains(p) ==> if p.1 % workers < k {
                    shaded(*shade, p.0, p.1, fb.pixels()[p])
                } else {
                    fb.pixels()[p] == BLANK_PIXEL
                },
        decreases workers - k,
    {
        render_stripe(&mut fb, k, workers, shade);
        k = k + 1;
    }
    fb
}

/// Stripes partition the rows: each row is owned by exactly one worker, whatever the
/// number of workers.
pub proof fn lemma_stripes_partition(workers: int, y: int)
    requires
        workers > 0,
        y >= 0,
    ensures
        owns_row(y % workers, workers, y),
        forall|w1: int, w2: int|
            #[trigger] owns_row(w1, workers, y) && #[trigger] owns_row(w2, workers, y) ==> w1 == w2,
{
}

/// Rendering is deterministic under re-partitioning: two renders of the same size by a
/// shader that gives one color per pixel hold the same pixels, whatever the worker
/// counts of their configurations.
pub proof fn lemma_render_independent_of_workers<F: Fn(u32, u32) -> ScaledColor>(
    c1: RenderConfig,
    c2: RenderConfig,
    shade: F,
    a: Framebuffer,
    b: Framebuffer,
)
    requires
        c1.spec_width() == c2.spec_width(),
        c1.spec_height() == c2.spec_height(),
        deterministic(shade),
        rendered_by(a, c1.spec_width(), c1.spec_height(), shade),
        rendered_by(b, c2.spec_width(), c2.spec_height(), shade),
    ensures
        a.pixels() == b.pixels(),
{
    assert forall|p: (u32, u32)| #[trigger] grid(c1.spec_width(), c1.spec_height()).contains(p) implies a.pixels()[p]
        == b.pixels()[p] by {
        let ca = choose|c: ScaledColor| #[trigger] shade.ensures((p.0, p.1), c) && a.pixels()[p] == rgba_spec(c);
        let cb = choose|c: ScaledColor| #[trigger] shade.ensures((p.0, p.1), c) && b.pixels()[p] == rgba_spec(c);
        assert(ca == cb);
    }
    assert(a.pixels() =~= b.pixels());
}

} // verus!
