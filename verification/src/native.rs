use vstd::prelude::*;

use crate::text::{decimal, push_decimal, push_str};

verus! {

/// The frame clock of the native loop, in nanoseconds from an origin the caller picks.
#[derive(Copy, Clone, Debug, PartialEq, Eq, Structural)]
pub struct Timings {
    pub starting_time: u64,
    pub framerate: u64,
    pub last_time: u64,
}

impl Timings {
    /// A clock started at `starting_time`, set so that the first frame is due at once.
    pub fn new(starting_time: u64, framerate: u64) -> (r: Timings)
        requires
            framerate <= starting_time,
        ensures
            r == (Timings { starting_time, framerate, last_time: (starting_time - framerate) as u64 }),
    {
        Timings { starting_time, framerate, last_time: starting_time - framerate }
    }

    /// Whether a frame runs at `now`: at a frame boundary, once a frame period has passed
    /// since the last frame (time that seems to run backwards counts as none). A frame
    /// that runs becomes the last one.
    pub fn frame_due(&mut self, now: u64, frame_boundary: bool) -> (r: bool)
        ensures
            r == (frame_boundary && (if now >= old(self).last_time { now - old(self).last_time } else { 0 })
                >= old(self).framerate),
            r ==> *final(self) == (Timings { last_time: now, ..*old(self) }),
            !r ==> *final(self) == *old(self),
    {
        let elapsed = now.saturating_sub(self.last_time);
        if frame_boundary && elapsed >= self.framerate {
            self.last_time = now;
            true
        } else {
            false
        }
    }
}

/// The file name of the screenshot with the number `index`.
pub open spec fn screenshot_name(index: nat) -> Seq<char> {
    "screenshot-"@ + decimal(index) + ".png"@
}

/// The file name of the screenshot with the number `index`, such as `screenshot-1.png`.
pub fn screenshot_file_name(index: u64) -> (r: String)
    ensures
        r@ == screenshot_name(index as nat),
{
    let mut s = "screenshot-".to_owned();
    push_decimal(&mut s, index);
    push_str(&mut s, ".png");
    s
}

/// The number of the next screenshot: the least number from 1 up that `taken` does not
/// hold (the numbers whose file already exists); `None` when every number is taken.
pub fn first_free_screenshot_index(taken: &Vec<u64>) -> (r: Option<u64>)
    ensures
        r matches Some(i) ==> 1 <= i && !taken@.contains(i) && forall|j: u64| 1 <= j < i ==> taken@.contains(j),
        r is None ==> forall|j: u64| 1 <= j ==> taken@.contains(j),
{
    let mut candidate: u64 = 1;
    loop
        invariant
            1 <= candidate,
            forall|j: u64| 1 <= j < candidate ==> taken@.contains(j),
        decreases u64::MAX - candidate,
    {
        let mut found = false;
        let mut k: usize = 0;
        while k < taken.len()
            invariant
                0 <= k <= taken@.len(),
                found ==> taken@.contains(candidate),
                !found ==> forall|m: int| 0 <= m < k ==> taken@[m] != candidate,
            decreases taken@.len() - k,
        {
            if taken[k] == candidate {
                found = true;
                proof {
                    assert(taken@[k as int] == candidate);
                }
            }
            k = k + 1;
        }
        if !found {
            return Some(candidate);
        }
        if candidate == u64::MAX {
            proof {
                assert forall|j: u64| 1 <= j implies taken@.contains(j) by {
                    if j < candidate {
                    } else {
                        assert(j == candidate);
                    }
                }
            }
            return None;
        }
        candidate = candidate + 1;
    }
}

/// Row `y` of a picture `row_len` bytes wide, byte `x`.
pub open spec fn at(y: int, x: int, row_len: int) -> int {
    y * row_len + x
}

/// `after` is `before` upside down: each row of `after` is the mirrored row of `before`.
pub open spec fn rows_flipped(before: Seq<u8>, after: Seq<u8>, row_len: int, height: int) -> bool {
    &&& after.len() == before.len()
    &&& forall|y: int, x: int|
        0 <= y < height && 0 <= x < row_len ==> #[trigger] after[at(y, x, row_len)] == before[at(
            height - 1 - y,
            x,
            row_len,
        )]
}

proof fn lemma_at_in_bounds(y: int, x: int, row_len: int, height: int)
    requires
        0 <= y < height,
        0 <= x < row_len,
    ensures
        0 <= at(y, x, row_len) < height * row_len,
{
    assert(0 <= y * row_len + x < height * row_len) by (nonlinear_arith)
        requires
            0 <= y < height,
            0 <= x < row_len,
    ;
}

proof fn lemma_at_unique(y1: int, x1: int, y2: int, x2: int, row_len: int)
    requires
        0 <= y1,
        0 <= y2,
        0 <= x1 < row_len,
        0 <= x2 < row_len,
        at(y1, x1, row_len) == at(y2, x2, row_len),
    ensures
        y1 == y2,
        x1 == x2,
{
    assert(y1 == y2) by (nonlinear_arith)
        requires
            0 <= y1,
            0 <= y2,
            0 <= x1 < row_len,
            0 <= x2 < row_len,
            y1 * row_len + x1 == y2 * row_len + x2,
    ;
}

/// The state while rows are flipped: the first `done` rows and the last `done` are
/// swapped, and so are the first `cols` bytes of row `done` and of its mirror.
pub open spec fn flip_progress(before: Seq<u8>, now: Seq<u8>, row_len: int, height: int, done: int, cols: int) -> bool {
    &&& now.len() == before.len()
    &&& forall|y: int, x: int|
        0 <= y < height && 0 <= x < row_len ==> #[trigger] now[at(y, x, row_len)] == (if y < done
            || y > height - 1 - done || ((y == done || y == height - 1 - done) && x < cols) {
            before[at(height - 1 - y, x, row_len)]
        } else {
            before[at(y, x, row_len)]
        })
}

/// Turns an RGBA picture of `width` x `height` pixels upside down in place. The buffer
/// must hold exactly `width * 4 * height` bytes; sizes that overflow are errors too.
pub fn flip_rgba_rows(pixels: &mut [u8], width: usize, height: usize) -> (r: Result<(), String>)
    ensures
        width * 4 > usize::MAX ==> (r matches Err(e) && e@ == "screenshot row size overflow"@),
        width * 4 <= usize::MAX && width * 4 * height > usize::MAX ==> (r matches Err(e) && e@
            == "screenshot buffer size overflow"@),
        width * 4 <= usize::MAX && width * 4 * height <= usize::MAX && old(pixels)@.len() != width * 4
            * height ==> (r matches Err(e)
            && e@ == size_mismatch(old(pixels)@.len(), (width * 4 * height) as nat)),
        width * 4 <= usize::MAX && width * 4 * height <= usize::MAX && old(pixels)@.len() == width * 4
            * height ==> r is Ok,
        r is Ok ==> rows_flipped(old(pixels)@, final(pixels)@, width * 4, height as int),
        r is Err ==> final(pixels)@ == old(pixels)@,
{
    let row_len = match width.checked_mul(4) {
        Some(n) => n,
        None => return Err("screenshot row size overflow".to_owned()),
    };
    let expected = match row_len.checked_mul(height) {
        Some(n) => n,
        None => return Err("screenshot buffer size overflow".to_owned()),
    };
    if pixels.len() != expected {
        return Err(crate::native::size_mismatch_message(pixels.len(), expected));
    }
    let ghost before = pixels@;
    let ghost r = row_len as int;
    let ghost h = height as int;
    let half = height / 2;
    let mut y: usize = 0;
    while y < half
        invariant
            half == height / 2,
            0 <= y <= half,
            pixels@.len() == expected,
            expected == r * h,
            r == row_len,
            h == height,
            flip_progress(before, pixels@, r, h, y as int, 0),
        decreases half - y,
    {
        let opposite = height - 1 - y;
        let mut x: usize = 0;
        while x < row_len
            invariant
                half == height / 2,
                y < half,
                opposite == h - 1 - y,
                0 <= x <= row_len,
                pixels@.len() == expected,
                expected == r * h,
                r == row_len,
                h == height,
                flip_progress(before, pixels@, r, h, y as int, x as int),
            decreases row_len - x,
        {
            proof {
                lemma_at_in_bounds(y as int, x as int, r, h);
                lemma_at_in_bounds(opposite as int, x as int, r, h);
            }
            let top = y * row_len + x;
            let bottom = opposite * row_len + x;
            let ghost prev = pixels@;
            let t = pixels[top];
            let b = pixels[bottom];
            pixels[top] = b;
            pixels[bottom] = t;
            proof {
                assert(top == at(y as int, x as int, r));
                assert(bottom == at(opposite as int, x as int, r));
                assert forall|yy: int, xx: int| 0 <= yy < h && 0 <= xx < r implies #[trigger] pixels@[at(yy, xx, r)] == (if yy < y
                    || yy > h - 1 - y || ((yy == y || yy == h - 1 - y) && xx < x + 1) {
                    before[at(h - 1 - yy, xx, r)]
                } else {
                    before[at(yy, xx, r)]
                }) by {
                    lemma_at_in_bounds(yy, xx, r, h);
                    if at(yy, xx, r) == top {
                        lemma_at_unique(yy, xx, y as int, x as int, r);
                    } else if at(yy, xx, r) == bottom {
                        lemma_at_unique(yy, xx, opposite as int, x as int, r);
                    } else {
                        assert(pixels@[at(yy, xx, r)] == prev[at(yy, xx, r)]);
                        if yy == y as int && xx == x as int {
                            assert(false);
                        }
                        if yy == opposite as int && xx == x as int {
                            assert(false);
                        }
                    }
                    assert(prev[at(y as int, x as int, r)] == before[at(y as int, x as int, r)]);
                    assert(prev[at(opposite as int, x as int, r)] == before[at(opposite as int, x as int, r)]);
                }
            }
            x = x + 1;
        }
        y = y + 1;
    }
    proof {
        assert forall|yy: int, xx: int| 0 <= yy < h && 0 <= xx < r implies #[trigger] pixels@[at(yy, xx, r)]
            == before[at(h - 1 - yy, xx, r)] by {
            if !(yy < y || yy > h - 1 - y) {
                assert(yy == h - 1 - yy);
            }
        }
    }
    Ok(())
}

/// The error of a buffer of the wrong size.
pub open spec fn size_mismatch(len: nat, expected: nat) -> Seq<char> {
    "screenshot buffer has "@ + decimal(len) + " bytes, expected "@ + decimal(expected)
}

fn size_mismatch_message(len: usize, expected: usize) -> (r: String)
    ensures
        r@ == size_mismatch(len as nat, expected as nat),
{
    let mut s = "screenshot buffer has ".to_owned();
    push_decimal(&mut s, len as u64);
    push_str(&mut s, " bytes, expected ");
    push_decimal(&mut s, expected as u64);
    s
}

} // verus!
