//! Captured frames and their collection: one normalization shared by every
//! frame, and the long exposure that sums them.
use std::rc::Rc;
use vstd::prelude::*;

use crate::config::Config;
use crate::DETECTOR_SIZE;

verus! {

/// Number of pixels of a detector frame.
pub const FRAME_LEN: usize = DETECTOR_SIZE * DETECTOR_SIZE;

/// Largest intensity of a pixel buffer; 0 for an empty one.
pub open spec fn peak(s: Seq<u32>) -> u32
    decreases s.len(),
{
    if s.len() == 0 {
        0
    } else {
        let m = peak(s.drop_last());
        if s.last() > m {
            s.last()
        } else {
            m
        }
    }
}

/// Largest intensity over every pixel of every frame; 0 when there is none.
pub open spec fn global_peak(frames: Seq<Seq<u32>>) -> u32
    decreases frames.len(),
{
    if frames.len() == 0 {
        0
    } else {
        let m = global_peak(frames.drop_last());
        let p = peak(frames.last());
        if p > m {
            p
        } else {
            m
        }
    }
}

/// An intensity mapped to the 8-bit range by a divisor: the divisor maps to
/// 255 and a zero divisor to 0.
pub open spec fn to_byte(v: u32, divisor: u32) -> u8 {
    if divisor == 0 {
        0
    } else if v >= divisor {
        255
    } else {
        (v as int * 255 / divisor as int) as u8
    }
}

/// A pixel buffer normalized by a divisor.
pub open spec fn normalize(s: Seq<u32>, divisor: u32) -> Seq<u8> {
    Seq::new(s.len(), |i: int| to_byte(s[i], divisor))
}

/// Sum of pixel `p` over the frames.
pub open spec fn pixel_sum(frames: Seq<Seq<u32>>, p: int) -> int
    decreases frames.len(),
{
    if frames.len() == 0 {
        0
    } else {
        pixel_sum(frames.drop_last(), p) + frames.last()[p]
    }
}

/// Whether every pixel's sum over the frames fits an intensity.
pub open spec fn sums_fit(frames: Seq<Seq<u32>>) -> bool {
    forall|p: int| 0 <= p < FRAME_LEN ==> #[trigger] pixel_sum(frames, p) <= u32::MAX
}

/// The pixel-wise sum of the frames.
pub open spec fn frame_sum(frames: Seq<Seq<u32>>) -> Seq<int> {
    Seq::new(FRAME_LEN as nat, |p: int| pixel_sum(frames, p))
}

proof fn lemma_pixel_sum_grows(frames: Seq<Seq<u32>>, n: int, p: int)
    requires
        0 <= n <= frames.len(),
    ensures
        pixel_sum(frames.take(n), p) <= pixel_sum(frames, p),
    decreases frames.len(),
{
    if n < frames.len() {
        assert(frames.drop_last().take(n) =~= frames.take(n));
        lemma_pixel_sum_grows(frames.drop_last(), n, p);
    } else {
        assert(frames.take(n) =~= frames);
    }
}

/// Intensity of the overlay circles in a rendered image.
pub const OVERLAY_LEVEL: u8 = 255;

/// Squared distance, in squared thousandths of a pixel, from the center of
/// pixel `(x, y)` to the center of the detector.
pub open spec fn center_distance2(x: int, y: int) -> int {
    let c = 500 * DETECTOR_SIZE as int;
    let dx = 1000 * x + 500 - c;
    let dy = 1000 * y + 500 - c;
    dx * dx + dy * dy
}

/// Whether pixel `(x, y)` lies on the circle of radius `r` (in thousandths
/// of a pixel) centered on the detector: its center is less than half a
/// pixel away from that circle.
pub open spec fn on_circle(x: int, y: int, r: int) -> bool {
    let d2 = center_distance2(x, y);
    &&& d2 < (r + 500) * (r + 500)
    &&& (r < 500 || (r - 500) * (r - 500) <= d2)
}

/// A rendered detector image with the configuration's two circles drawn on
/// it: the seeing disk and a segment's diffraction-limited spot.
pub open spec fn with_circles(image: Seq<u8>, config: Config) -> Seq<u8> {
    Seq::new(
        image.len(),
        |i: int|
            if on_circle(i % DETECTOR_SIZE as int, i / DETECTOR_SIZE as int, config.seeing_radius as int)
                || on_circle(
                i % DETECTOR_SIZE as int,
                i / DETECTOR_SIZE as int,
                config.segment_diff_lim_radius as int,
            ) {
                OVERLAY_LEVEL
            } else {
                image[i]
            },
    )
}

fn is_on_circle(x: usize, y: usize, r: u32) -> (b: bool)
    requires
        x < DETECTOR_SIZE,
        y < DETECTOR_SIZE,
    ensures
        b == on_circle(x as int, y as int, r as int),
{
    let c: i128 = 500 * DETECTOR_SIZE as i128;
    let dx: i128 = 1000 * x as i128 + 500 - c;
    let dy: i128 = 1000 * y as i128 + 500 - c;
    assert(0 <= dx * dx <= 380000 * 380000 && 0 <= dy * dy <= 380000 * 380000) by (nonlinear_arith)
        requires
            -380000 <= dx <= 380000,
            -380000 <= dy <= 380000,
    ;
    let d2: i128 = dx * dx + dy * dy;
    let hi: i128 = r as i128 + 500;
    assert(0 <= hi * hi <= 5000000000 * 5000000000) by (nonlinear_arith)
        requires
            0 <= hi <= 5000000000,
    ;
    let lo: i128 = r as i128 - 500;
    assert(0 <= lo * lo <= 5000000000 * 5000000000) by (nonlinear_arith)
        requires
            -500 <= lo <= 5000000000,
    ;
    d2 < hi * hi && (r < 500 || lo * lo <= d2)
}

/// Draws the configuration's two circles on a rendered detector image.
pub fn draw_circles(image: &mut Vec<u8>, config: &Config)
    requires
        old(image)@.len() == FRAME_LEN,
    ensures
        final(image)@ == with_circles(old(image)@, *config),
{
    let mut x: usize = 0;
    let mut y: usize = 0;
    let mut i: usize = 0;
    while i < FRAME_LEN
        invariant
            i <= FRAME_LEN,
            image@.len() == FRAME_LEN,
            old(image)@.len() == FRAME_LEN,
            x < DETECTOR_SIZE,
            i < FRAME_LEN ==> y < DETECTOR_SIZE,
            i == y * DETECTOR_SIZE + x,
            forall|k: int|
                0 <= k < i ==> #[trigger] image@[k] == with_circles(old(image)@, *config)[k],
            forall|k: int| i <= k < FRAME_LEN ==> #[trigger] image@[k] == old(image)@[k],
        decreases FRAME_LEN - i,
    {
        assert(x as int == i as int % DETECTOR_SIZE as int && y as int == i as int
            / DETECTOR_SIZE as int) by {
            vstd::arithmetic::div_mod::lemma_fundamental_div_mod_converse(
                i as int,
                DETECTOR_SIZE as int,
                y as int,
                x as int,
            );
        }
        if is_on_circle(x, y, config.seeing_radius) || is_on_circle(
            x,
            y,
            config.segment_diff_lim_radius,
        ) {
            image.set(i, OVERLAY_LEVEL);
        }
        assert(image@[i as int] == with_circles(old(image)@, *config)[i as int]);
        i += 1;
        if x + 1 == DETECTOR_SIZE {
            x = 0;
            y += 1;
        } else {
            x += 1;
        }
    }
    assert(image@ =~= with_circles(old(image)@, *config));
}

/// Smallest value of a wavefront-error map; 0 for an empty one.
pub open spec fn opd_low(s: Seq<i32>) -> i32
    decreases s.len(),
{
    if s.len() == 0 {
        0
    } else if s.len() == 1 {
        s[0]
    } else {
        let m = opd_low(s.drop_last());
        if s.last() < m {
            s.last()
        } else {
            m
        }
    }
}

/// Largest value of a wavefront-error map; 0 for an empty one.
pub open spec fn opd_high(s: Seq<i32>) -> i32
    decreases s.len(),
{
    if s.len() == 0 {
        0
    } else if s.len() == 1 {
        s[0]
    } else {
        let m = opd_high(s.drop_last());
        if s.last() > m {
            s.last()
        } else {
            m
        }
    }
}

/// A wavefront error mapped to the 8-bit range: the map's smallest value
/// goes to 0 and its largest to 255; a flat map is all 0.
pub open spec fn opd_byte(v: i32, low: i32, high: i32) -> u8 {
    if high <= low || v <= low {
        0
    } else if v >= high {
        255
    } else {
        ((v - low) * 255 / (high - low)) as u8
    }
}

/// A wavefront-error map mapped to the 8-bit range.
pub open spec fn opd_image(s: Seq<i32>) -> Seq<u8> {
    Seq::new(s.len(), |i: int| opd_byte(s[i], opd_low(s), opd_high(s)))
}

fn opd_range(opd: &Vec<i32>) -> (r: (i32, i32))
    ensures
        r.0 == opd_low(opd@),
        r.1 == opd_high(opd@),
{
    if opd.len() == 0 {
        return (0, 0);
    }
    let mut low: i32 = opd[0];
    let mut high: i32 = opd[0];
    let mut i: usize = 1;
    assert(opd@.take(1).drop_last().len() == 0);
    while i < opd.len()
        invariant
            1 <= i <= opd@.len(),
            low == opd_low(opd@.take(i as int)),
            high == opd_high(opd@.take(i as int)),
        decreases opd@.len() - i,
    {
        assert(opd@.take(i as int + 1).drop_last() =~= opd@.take(i as int));
        if opd[i] < low {
            low = opd[i];
        }
        if opd[i] > high {
            high = opd[i];
        }
        i += 1;
    }
    assert(opd@.take(i as int) =~= opd@);
    (low, high)
}

fn opd_byte_of(v: i32, low: i32, high: i32) -> (r: u8)
    ensures
        r == opd_byte(v, low, high),
{
    if high <= low || v <= low {
        0
    } else if v >= high {
        255
    } else {
        let num: i64 = (v as i64 - low as i64) * 255;
        let den: i64 = high as i64 - low as i64;
        let q: i64 = num / den;
        assert(0 <= q < 255) by (nonlinear_arith)
            requires
                0 < v - low < den,
                num == (v - low) * 255,
                q == num / den,
        ;
        q as u8
    }
}

/// Whether `scaled` is `frames` with every intensity multiplied by `c`.
pub open spec fn scaled_by(frames: Seq<Seq<u32>>, scaled: Seq<Seq<u32>>, c: int) -> bool {
    &&& scaled.len() == frames.len()
    &&& forall|i: int| 0 <= i < frames.len() ==> #[trigger] scaled[i].len() == frames[i].len()
    &&& forall|i: int, p: int|
        0 <= i < frames.len() && 0 <= p < frames[i].len() ==> #[trigger] scaled[i][p] == c
            * frames[i][p]
}

proof fn lemma_peak_scales(s: Seq<u32>, t: Seq<u32>, c: int)
    requires
        c > 0,
        t.len() == s.len(),
        forall|p: int| 0 <= p < s.len() ==> #[trigger] t[p] == c * s[p],
    ensures
        peak(t) == c * peak(s),
    decreases s.len(),
{
    if s.len() == 0 {
        assert(c * 0 == 0);
    } else {
        assert forall|p: int| 0 <= p < s.drop_last().len() implies #[trigger] t.drop_last()[p] == c
            * s.drop_last()[p] by {
            assert(t[p] == c * s[p]);
        }
        lemma_peak_scales(s.drop_last(), t.drop_last(), c);
        let a = s.last() as int;
        let b = peak(s.drop_last()) as int;
        assert(t.last() == c * a);
        assert(peak(t.drop_last()) == c * b);
        assert(a > b ==> c * a > c * b) by (nonlinear_arith)
            requires
                c > 0,
        ;
        assert(a <= b ==> c * a <= c * b) by (nonlinear_arith)
            requires
                c > 0,
        ;
    }
}

proof fn lemma_global_peak_scales(frames: Seq<Seq<u32>>, scaled: Seq<Seq<u32>>, c: int)
    requires
        c > 0,
        scaled_by(frames, scaled, c),
    ensures
        global_peak(scaled) == c * global_peak(frames),
    decreases frames.len(),
{
    if frames.len() == 0 {
        assert(c * 0 == 0);
    } else {
        let n = frames.len() - 1;
        assert(scaled_by(frames.drop_last(), scaled.drop_last(), c)) by {
            assert forall|i: int, p: int|
                0 <= i < n && 0 <= p < frames.drop_last()[i].len() implies #[trigger] scaled.drop_last()[i][p]
                == c * frames.drop_last()[i][p] by {
                assert(scaled[i][p] == c * frames[i][p]);
            }
        }
        lemma_global_peak_scales(frames.drop_last(), scaled.drop_last(), c);
        assert forall|p: int| 0 <= p < frames.last().len() implies #[trigger] scaled.last()[p] == c
            * frames.last()[p] by {
            assert(scaled[n][p] == c * frames[n][p]);
        }
        lemma_peak_scales(frames.last(), scaled.last(), c);
        let a = peak(frames.last()) as int;
        let b = global_peak(frames.drop_last()) as int;
        assert(a > b ==> c * a > c * b) by (nonlinear_arith)
            requires
                c > 0,
        ;
        assert(a <= b ==> c * a <= c * b) by (nonlinear_arith)
            requires
                c > 0,
        ;
    }
}

proof fn lemma_to_byte_scales(v: u32, m: u32, cv: u32, cm: u32, c: int)
    requires
        c > 0,
        cv == c * v,
        cm == c * m,
    ensures
        to_byte(cv, cm) == to_byte(v, m),
{
    if m == 0 {
        assert(cm == 0);
    } else {
        assert(cm > 0 && (v >= m <==> cv >= cm)) by (nonlinear_arith)
            requires
                c > 0,
                m > 0,
                cv == c * v,
                cm == c * m,
        ;
        if v < m {
            let x = v as int * 255;
            let q = x / m as int;
            let r = x % m as int;
            assert(x == q * m + r && 0 <= r < m) by {
                vstd::arithmetic::div_mod::lemma_fundamental_div_mod(x, m as int);
            }
            assert(cv as int * 255 == q * cm + c * r && 0 <= c * r < cm) by (nonlinear_arith)
                requires
                    c > 0,
                    x == v as int * 255,
                    x == q * m + r,
                    0 <= r < m,
                    cv == c * v,
                    cm == c * m,
            ;
            vstd::arithmetic::div_mod::lemma_fundamental_div_mod_converse(
                cv as int * 255,
                cm as int,
                q,
                c * r,
            );
        }
    }
}

/// Every frame is normalized by the collection-wide largest intensity, so
/// multiplying every frame by the same positive factor leaves each rendered
/// frame, and thus the relative brightness of frames, unchanged.
pub proof fn lemma_common_scale_keeps_rendering(
    frames: Seq<Seq<u32>>,
    scaled: Seq<Seq<u32>>,
    c: int,
)
    requires
        c > 0,
        scaled_by(frames, scaled, c),
    ensures
        forall|i: int|
            0 <= i < frames.len() ==> #[trigger] normalize(scaled[i], global_peak(scaled))
                == normalize(frames[i], global_peak(frames)),
{
    lemma_global_peak_scales(frames, scaled, c);
    assert forall|i: int| 0 <= i < frames.len() implies #[trigger] normalize(
        scaled[i],
        global_peak(scaled),
    ) == normalize(frames[i], global_peak(frames)) by {
        assert forall|p: int| 0 <= p < frames[i].len() implies #[trigger] to_byte(
            scaled[i][p],
            global_peak(scaled),
        ) == to_byte(frames[i][p], global_peak(frames)) by {
            lemma_to_byte_scales(
                frames[i][p],
                global_peak(frames),
                scaled[i][p],
                global_peak(scaled),
                c,
            );
        }
        assert(normalize(scaled[i], global_peak(scaled)) =~= normalize(
            frames[i],
            global_peak(frames),
        ));
    }
}

/// Whether `scaled` is `frames` with frame `j` alone multiplied by `c`.
pub open spec fn one_scaled_by(frames: Seq<Seq<u32>>, scaled: Seq<Seq<u32>>, j: int, c: int) -> bool {
    &&& scaled.len() == frames.len()
    &&& forall|i: int| 0 <= i < frames.len() ==> #[trigger] scaled[i].len() == frames[i].len()
    &&& forall|i: int, p: int|
        0 <= i < frames.len() && 0 <= p < frames[i].len() ==> #[trigger] scaled[i][p] == if i
            == j {
            c * frames[i][p]
        } else {
            frames[i][p] as int
        }
}

/// Before rounding to 8 bits, a pixel is rendered at level
/// `intensity * 255 / divisor`, with one divisor for the whole collection.
/// Scaling frame `j` alone by `c != 1` multiplies the ratio of the level of
/// its pixel `p` to the level of pixel `q` of another frame `k` by `c`, so
/// that ratio changes: relative brightness between frames is kept only when
/// every frame is scaled alike. Ratios are compared cross-multiplied, the
/// level of intensity `v` under divisor `d` being the fraction
/// `(v * 255) / d`.
pub proof fn lemma_single_scale_changes_relative_brightness(
    frames: Seq<Seq<u32>>,
    scaled: Seq<Seq<u32>>,
    j: int,
    k: int,
    p: int,
    q: int,
    c: int,
)
    requires
        c > 0,
        c != 1,
        one_scaled_by(frames, scaled, j, c),
        0 <= j < frames.len(),
        0 <= k < frames.len(),
        j != k,
        0 <= p < frames[j].len(),
        0 <= q < frames[k].len(),
        frames[j][p] > 0,
        frames[k][q] > 0,
    ensures
        ({
            let g = global_peak(frames) as int;
            let h = global_peak(scaled) as int;
            let before_num = (frames[j][p] * 255) * g;
            let before_den = g * (frames[k][q] * 255);
            let after_num = (scaled[j][p] * 255) * h;
            let after_den = h * (scaled[k][q] * 255);
            &&& g > 0 && h > 0
            &&& after_num * before_den == c * (before_num * after_den)
            &&& after_num * before_den != before_num * after_den
        }),
{
    lemma_peak_at_least(frames, k, q);
    lemma_peak_at_least(scaled, k, q);
    let g = global_peak(frames) as int;
    let h = global_peak(scaled) as int;
    let a = frames[j][p] as int;
    let b = frames[k][q] as int;
    assert(scaled[j][p] == c * a);
    assert(scaled[k][q] == b);
    assert((c * a * 255) * h * (g * (b * 255)) == c * ((a * 255) * g * (h * (b * 255)))) by (nonlinear_arith);
    assert((c * a * 255) * h * (g * (b * 255)) != (a * 255) * g * (h * (b * 255))) by (nonlinear_arith)
        requires
            c > 0,
            c != 1,
            a > 0,
            b > 0,
            g > 0,
            h > 0,
    ;
}

proof fn lemma_peak_at_least(frames: Seq<Seq<u32>>, k: int, q: int)
    requires
        0 <= k < frames.len(),
        0 <= q < frames[k].len(),
    ensures
        global_peak(frames) >= frames[k][q],
    decreases frames.len(),
{
    if k == frames.len() - 1 {
        lemma_peak_above(frames[k], q);
    } else {
        assert(frames.drop_last()[k] == frames[k]);
        lemma_peak_at_least(frames.drop_last(), k, q);
    }
}

proof fn lemma_peak_above(s: Seq<u32>, q: int)
    requires
        0 <= q < s.len(),
    ensures
        peak(s) >= s[q],
    decreases s.len(),
{
    if q < s.len() - 1 {
        assert(s.drop_last()[q] == s[q]);
        lemma_peak_above(s.drop_last(), q);
    }
}

/// A collection holding a single frame renders it with that frame's own
/// largest intensity as the divisor.
pub proof fn lemma_single_frame_divisor(frame: Seq<u32>)
    ensures
        global_peak(seq![frame]) == peak(frame),
{
    let one = seq![frame];
    assert(one.len() == 1);
    assert(one.drop_last() =~= Seq::<Seq<u32>>::empty());
    assert(global_peak(one.drop_last()) == 0);
    assert(one.last() == frame);
    reveal_with_fuel(global_peak, 2);
}

/// The long exposure of no frame is a dark frame of the detector's size.
pub proof fn lemma_empty_sum_is_dark()
    ensures
        sums_fit(Seq::<Seq<u32>>::empty()),
        frame_sum(Seq::<Seq<u32>>::empty()).len() == FRAME_LEN,
        forall|p: int|
            0 <= p < FRAME_LEN ==> #[trigger] frame_sum(Seq::<Seq<u32>>::empty())[p] == 0,
{
}

/// One captured exposure: the detector's pixel buffer, in row-major order,
/// with an optional wavefront-error map in nanometers and an optional image
/// quality value in millionths.
pub struct PSF {
    /// Configuration the frame was captured under.
    pub config: Rc<Config>,
    /// Pixel intensities.
    pub frame: Vec<u32>,
    /// Wavefront-error map at capture time.
    pub opd: Option<Vec<i32>>,
    /// Image quality estimate at capture time.
    pub pssn: Option<i64>,
}

impl PSF {
    /// A frame holding only a pixel buffer.
    pub fn new(config: &Rc<Config>, frame: Vec<u32>) -> (r: PSF)
        ensures
            r.config == *config,
            r.frame@ == frame@,
            r.opd is None,
            r.pssn is None,
    {
        PSF { config: config.clone(), frame, opd: None, pssn: None }
    }

    /// This frame with the wavefront-error map attached.
    pub fn opd(self, opd: Vec<i32>) -> (r: PSF)
        ensures
            r.config == self.config,
            r.frame@ == self.frame@,
            r.opd == Some(opd),
            r.pssn == self.pssn,
    {
        PSF { opd: Some(opd), ..self }
    }

    /// This frame with the image quality estimate attached.
    pub fn pssn_value(self, pssn: i64) -> (r: PSF)
        ensures
            r.config == self.config,
            r.frame@ == self.frame@,
            r.opd == self.opd,
            r.pssn == Some(pssn),
    {
        PSF { pssn: Some(pssn), ..self }
    }

    /// Largest intensity of the frame.
    pub fn peak(&self) -> (r: u32)
        ensures
            r == peak(self.frame@),
    {
        let mut m: u32 = 0;
        let mut i: usize = 0;
        while i < self.frame.len()
            invariant
                i <= self.frame@.len(),
                m == peak(self.frame@.take(i as int)),
            decreases self.frame@.len() - i,
        {
            assert(self.frame@.take(i as int + 1).drop_last() =~= self.frame@.take(i as int));
            if self.frame[i] > m {
                m = self.frame[i];
            }
            i += 1;
        }
        assert(self.frame@.take(i as int) =~= self.frame@);
        m
    }

    /// The wavefront-error map, if any, mapped to the 8-bit range.
    pub fn render_opd(&self) -> (r: Option<Vec<u8>>)
        ensures
            r is Some <==> self.opd is Some,
            r matches Some(image) ==> image@ == opd_image(self.opd->0@),
    {
        match &self.opd {
            Some(opd) => {
                let (low, high) = opd_range(opd);
                let mut image: Vec<u8> = Vec::with_capacity(opd.len());
                let mut i: usize = 0;
                while i < opd.len()
                    invariant
                        i <= opd@.len(),
                        low == opd_low(opd@),
                        high == opd_high(opd@),
                        image@ =~= opd_image(opd@).take(i as int),
                    decreases opd@.len() - i,
                {
                    image.push(opd_byte_of(opd[i], low, high));
                    i += 1;
                    assert(image@ =~= opd_image(opd@).take(i as int));
                }
                assert(image@ =~= opd_image(opd@));
                Some(image)
            },
            None => None,
        }
    }

    /// The frame normalized by its own largest intensity, with its
    /// configuration's circles drawn on it.
    pub fn render(&self) -> (r: Vec<u8>)
        requires
            self.frame@.len() == FRAME_LEN,
        ensures
            r@ == with_circles(normalize(self.frame@, peak(self.frame@)), *self.config),
    {
        let divisor: u32 = self.peak();
        let mut image = normalize_by(&self.frame, divisor);
        draw_circles(&mut image, &self.config);
        image
    }
}

/// An intensity mapped to the 8-bit range by a divisor.
pub fn byte_of(v: u32, divisor: u32) -> (r: u8)
    ensures
        r == to_byte(v, divisor),
{
    if divisor == 0 {
        0
    } else if v >= divisor {
        255
    } else {
        let scaled: u64 = v as u64 * 255 / divisor as u64;
        assert(scaled < 255) by (nonlinear_arith)
            requires
                v < divisor,
                scaled == v as int * 255 / divisor as int,
        ;
        scaled as u8
    }
}

/// A pixel buffer normalized by a divisor.
pub fn normalize_by(frame: &Vec<u32>, divisor: u32) -> (r: Vec<u8>)
    ensures
        r@ == normalize(frame@, divisor),
{
    let mut out: Vec<u8> = Vec::with_capacity(frame.len());
    let mut i: usize = 0;
    while i < frame.len()
        invariant
            i <= frame@.len(),
            out@ == normalize(frame@.take(i as int), divisor),
        decreases frame@.len() - i,
    {
        out.push(byte_of(frame[i], divisor));
        i += 1;
        assert(out@ =~= normalize(frame@.take(i as int), divisor));
    }
    assert(frame@.take(i as int) =~= frame@);
    out
}

/// An ordered, append-only collection of frames sharing one configuration.
pub struct PSFs {
    config: Rc<Config>,
    psfs: Vec<PSF>,
}

impl PSFs {
    /// The pixel buffers of the frames, in the order they were pushed.
    pub closed spec fn frames(&self) -> Seq<Seq<u32>> {
        self.psfs@.map_values(|p: PSF| p.frame@)
    }

    /// The wavefront-error maps of the frames, in order.
    pub closed spec fn opds(&self) -> Seq<Option<Vec<i32>>> {
        self.psfs@.map_values(|p: PSF| p.opd)
    }

    /// The configuration every frame is rendered with.
    pub closed spec fn config(&self) -> Rc<Config> {
        self.config
    }

    pub closed spec fn wf(&self) -> bool {
        forall|i: int| 0 <= i < self.psfs@.len() ==> #[trigger] self.psfs@[i].frame@.len() == FRAME_LEN
    }

    /// An empty collection rendered with `config`.
    pub fn new(config: &Rc<Config>) -> (r: PSFs)
        ensures
            r.wf(),
            r.frames() == Seq::<Seq<u32>>::empty(),
            r.opds() == Seq::<Option<Vec<i32>>>::empty(),
            r.config() == *config,
    {
        let r = PSFs { config: config.clone(), psfs: Vec::new() };
        assert(r.frames() =~= Seq::<Seq<u32>>::empty());
        assert(r.opds() =~= Seq::<Option<Vec<i32>>>::empty());
        r
    }

    /// Appends a frame of the detector's size.
    pub fn push(&mut self, psf: PSF)
        requires
            old(self).wf(),
            psf.frame@.len() == FRAME_LEN,
        ensures
            final(self).wf(),
            final(self).frames() == old(self).frames().push(psf.frame@),
            final(self).opds() == old(self).opds().push(psf.opd),
            final(self).config() == old(self).config(),
    {
        self.psfs.push(psf);
        assert(self.frames() =~= old(self).frames().push(psf.frame@));
        assert(self.opds() =~= old(self).opds().push(psf.opd));
    }

    /// Number of frames.
    pub fn len(&self) -> (r: usize)
        ensures
            r == self.frames().len(),
    {
        self.psfs.len()
    }

    /// Largest intensity over every frame: the divisor all frames are
    /// rendered with.
    pub fn peak(&self) -> (r: u32)
        ensures
            r == global_peak(self.frames()),
    {
        let mut m: u32 = 0;
        let mut i: usize = 0;
        while i < self.psfs.len()
            invariant
                i <= self.psfs@.len(),
                m == global_peak(self.frames().take(i as int)),
            decreases self.psfs@.len() - i,
        {
            assert(self.frames().take(i as int + 1).drop_last() =~= self.frames().take(i as int));
            let p: u32 = self.psfs[i].peak();
            if p > m {
                m = p;
            }
            i += 1;
        }
        assert(self.frames().take(i as int) =~= self.frames());
        m
    }

    /// Every frame normalized by the collection-wide largest intensity, with
    /// the collection's circles drawn on it, in order.
    pub fn render_all(&self) -> (r: Vec<Vec<u8>>)
        requires
            self.wf(),
        ensures
            r@.len() == self.frames().len(),
            forall|i: int|
                0 <= i < r@.len() ==> #[trigger] r@[i]@ == with_circles(
                    normalize(self.frames()[i], global_peak(self.frames())),
                    *self.config(),
                ),
    {
        let divisor: u32 = self.peak();
        let mut out: Vec<Vec<u8>> = Vec::with_capacity(self.psfs.len());
        let mut i: usize = 0;
        while i < self.psfs.len()
            invariant
                i <= self.psfs@.len(),
                self.wf(),
                divisor == global_peak(self.frames()),
                out@.len() == i,
                forall|k: int|
                    0 <= k < i ==> #[trigger] out@[k]@ == with_circles(
                        normalize(self.frames()[k], divisor),
                        *self.config,
                    ),
            decreases self.psfs@.len() - i,
        {
            let mut image = normalize_by(&self.psfs[i].frame, divisor);
            draw_circles(&mut image, &self.config);
            out.push(image);
            i += 1;
        }
        out
    }

    /// The wavefront-error map of every frame that has one, mapped to the
    /// 8-bit range, in order.
    pub fn render_all_opd(&self) -> (r: Vec<Option<Vec<u8>>>)
        ensures
            r@.len() == self.opds().len(),
            forall|i: int|
                0 <= i < r@.len() ==> (#[trigger] r@[i] is Some <==> self.opds()[i] is Some),
            forall|i: int|
                0 <= i < r@.len() && #[trigger] r@[i] is Some ==> r@[i]->0@ == opd_image(
                    self.opds()[i]->0@,
                ),
    {
        let mut out: Vec<Option<Vec<u8>>> = Vec::with_capacity(self.psfs.len());
        let mut i: usize = 0;
        while i < self.psfs.len()
            invariant
                i <= self.psfs@.len(),
                out@.len() == i,
                forall|k: int| 0 <= k < i ==> (#[trigger] out@[k] is Some <==> self.opds()[k] is Some),
                forall|k: int|
                    0 <= k < i && #[trigger] out@[k] is Some ==> out@[k]->0@ == opd_image(
                        self.opds()[k]->0@,
                    ),
            decreases self.psfs@.len() - i,
        {
            out.push(self.psfs[i].render_opd());
            i += 1;
        }
        out
    }

    /// The long exposure: a frame whose pixels are the sums of the frames'
    /// pixels, or `None` when some sum exceeds the largest intensity.
    pub fn sum(&self) -> (r: Option<PSF>)
        requires
            self.wf(),
        ensures
            r is Some <==> sums_fit(self.frames()),
            r matches Some(psf) ==> {
                &&& psf.frame@.len() == FRAME_LEN
                &&& forall|p: int|
                    0 <= p < FRAME_LEN ==> #[trigger] psf.frame@[p] as int == frame_sum(
                        self.frames(),
                    )[p]
                &&& psf.config == self.config()
                &&& psf.opd is None
                &&& psf.pssn is None
            },
    {
        let mut acc: Vec<u32> = Vec::with_capacity(FRAME_LEN);
        let mut p: usize = 0;
        while p < FRAME_LEN
            invariant
                p <= FRAME_LEN,
                acc@.len() == p,
                forall|q: int| 0 <= q < p ==> #[trigger] acc@[q] == 0,
            decreases FRAME_LEN - p,
        {
            acc.push(0);
            p += 1;
        }
        let ghost frames = self.frames();
        let mut f: usize = 0;
        while f < self.psfs.len()
            invariant
                self.wf(),
                frames == self.frames(),
                f <= frames.len(),
                acc@.len() == FRAME_LEN,
                forall|q: int|
                    0 <= q < FRAME_LEN ==> #[trigger] acc@[q] as int == pixel_sum(
                        frames.take(f as int),
                        q,
                    ),
            decreases frames.len() - f,
        {
            let frame = &self.psfs[f].frame;
            assert(frame@ == frames[f as int]);
            assert(frames.take(f as int + 1).drop_last() =~= frames.take(f as int));
            assert forall|k: int| #[trigger]
                pixel_sum(frames.take(f as int + 1), k) == pixel_sum(frames.take(f as int), k)
                    + frames[f as int][k] by {
                assert(frames.take(f as int + 1).last() == frames[f as int]);
            }
            let mut q: usize = 0;
            while q < FRAME_LEN
                invariant
                    self.wf(),
                    frames == self.frames(),
                    f < frames.len(),
                    frame@ == frames[f as int],
                    frame@.len() == FRAME_LEN,
                    acc@.len() == FRAME_LEN,
                    forall|k: int| #[trigger]
                        pixel_sum(frames.take(f as int + 1), k) == pixel_sum(
                            frames.take(f as int),
                            k,
                        ) + frames[f as int][k],
                    q <= FRAME_LEN,
                    forall|k: int|
                        0 <= k < q ==> #[trigger] acc@[k] as int == pixel_sum(
                            frames.take(f as int + 1),
                            k,
                        ),
                    forall|k: int|
                        q <= k < FRAME_LEN ==> #[trigger] acc@[k] as int == pixel_sum(
                            frames.take(f as int),
                            k,
                        ),
                decreases FRAME_LEN - q,
            {
                match acc[q].checked_add(frame[q]) {
                    Some(v) => {
                        acc.set(q, v);
                    },
                    None => {
                        proof {
                            lemma_pixel_sum_grows(frames, f as int + 1, q as int);
                            assert(pixel_sum(frames, q as int) > u32::MAX);
                        }
                        return None;
                    },
                }
                q += 1;
            }
            f += 1;
        }
        assert(frames.take(f as int) =~= frames);
        assert forall|p: int| 0 <= p < FRAME_LEN implies #[trigger] pixel_sum(frames, p) <= u32::MAX by {
            assert(acc@[p] as int == pixel_sum(frames, p));
        }
        Some(PSF { config: self.config.clone(), frame: acc, opd: None, pssn: None })
    }
}

} // verus!
