use vstd::prelude::*;

use crate::general_types::{OptionCursor, Size2D};
use crate::text::{decimal, push_decimal, push_signed_decimal, push_str, signed_decimal};

verus! {

/// What an internal resolution is: the size limit of a texture, the height and width of
/// the picture rendered into one, and whether the last step hit the bottom or the top of
/// the list of resolutions.
pub struct ResolutionView {
    pub max_texture_size: int,
    pub height: int,
    pub width: int,
    pub minimum_reached: bool,
    pub maximum_reached: bool,
}

/// The smallest texture limit under which every resolution settles: the lowest heights
/// (1 to 4 lines) are at most 7 pixels wide.
pub open spec fn settles(max_texture_size: int) -> bool {
    max_texture_size >= 7
}

/// Heights whose width (`16 / 9` of them, rounded toward zero) fits in an `i32`.
pub open spec fn height_in_range(h: int) -> bool {
    -134217728 <= h <= 134217727
}

/// The width that goes with a height: the classic console widths for the classic
/// heights, `16:9` rounded toward zero for the others.
pub open spec fn width_for(h: int) -> int {
    if h == 102 || h == 144 || h == 152 {
        160
    } else if h == 224 {
        256
    } else if h == 240 || h == 243 {
        320
    } else if h == 480 || h == 486 {
        640
    } else if h >= 0 {
        h * 16 / 9
    } else {
        -((-h) * 16 / 9)
    }
}

/// The height one step up the list.
pub open spec fn next_height(h: int) -> int {
    if h <= 0 {
        1080
    } else if h == 720 {
        1080
    } else if h == 486 {
        720
    } else if h == 480 {
        486
    } else if h == 243 {
        480
    } else if h == 240 {
        243
    } else if h == 224 {
        240
    } else if h == 160 {
        224
    } else if h == 152 {
        160
    } else if h == 144 {
        152
    } else if h == 102 {
        144
    } else if 51 <= h <= 101 {
        102
    } else {
        h * 2
    }
}

/// The height one step down the list; heights at or below `wrap` go back to 1080.
pub open spec fn previous_height(h: int, wrap: int) -> int {
    if h <= wrap {
        1080
    } else if h == 1080 {
        720
    } else if h == 720 {
        486
    } else if h == 486 {
        480
    } else if h == 480 {
        243
    } else if h == 243 {
        240
    } else if h == 240 {
        224
    } else if h == 224 {
        160
    } else if h == 160 {
        152
    } else if h == 152 {
        144
    } else if h == 144 {
        102
    } else if 0 <= h <= 4 {
        h
    } else {
        h / 2
    }
}

/// A step down from `h` stays where it is: the bottom of the list.
pub open spec fn at_floor(h: int, wrap: int) -> bool {
    wrap < h && 0 <= h <= 4
}

/// A texture of the height `h` and its width fits under the limit.
pub open spec fn fits(max_texture_size: int, h: int) -> bool {
    width_for(h) <= max_texture_size && h <= max_texture_size
}

/// The resolution after asking for the height `h`: where it does not fit, the next height
/// down is tried, and the top of the list is then marked as reached.
pub open spec fn settle(max: int, h: int, minimum_reached: bool, maximum_reached: bool, wrap: int) -> ResolutionView
    decreases h,
    when settles(max) && wrap <= 0
{
    if fits(max, h) {
        ResolutionView {
            max_texture_size: max,
            height: h,
            width: width_for(h),
            minimum_reached,
            maximum_reached,
        }
    } else {
        let s = settle(max, previous_height(h, wrap), minimum_reached || at_floor(h, wrap), false, wrap);
        ResolutionView { maximum_reached: true, ..s }
    }
}

/// Where the texture limit is at least 7, every height that does not fit is above 4 and
/// a step down lowers it.
pub proof fn lemma_unfit_steps_down(max: int, h: int, wrap: int)
    requires
        settles(max),
        wrap <= 0,
        !fits(max, h),
    ensures
        h >= 5,
        2 <= previous_height(h, wrap) < h,
        !at_floor(h, wrap),
{
}

/// The mark left on the top of the list does not depend on the one the chain started with.
proof fn lemma_settle_marks_top(max: int, h: int, minimum_reached: bool, wrap: int)
    requires
        settles(max),
        wrap <= 0,
    ensures
        settle(max, h, minimum_reached, true, wrap) == (ResolutionView {
            maximum_reached: true,
            ..settle(max, h, minimum_reached, false, wrap)
        }),
{
    if !fits(max, h) {
        lemma_unfit_steps_down(max, h, wrap);
    }
}

/// Whatever height is asked for, the resolution that settles fits in a texture, and its
/// width goes with its height.
pub proof fn lemma_settled_resolution_fits(max: int, h: int, minimum_reached: bool, maximum_reached: bool, wrap: int)
    requires
        settles(max),
        wrap <= 0,
    ensures
        fits(max, settle(max, h, minimum_reached, maximum_reached, wrap).height),
        settle(max, h, minimum_reached, maximum_reached, wrap).width == width_for(
            settle(max, h, minimum_reached, maximum_reached, wrap).height,
        ),
    decreases h,
{
    if !fits(max, h) {
        lemma_unfit_steps_down(max, h, wrap);
        lemma_settled_resolution_fits(
            max,
            previous_height(h, wrap),
            minimum_reached || at_floor(h, wrap),
            false,
            wrap,
        );
    }
}

/// One step up and then one step down come back to the same resolution, wherever both
/// fit. The heights left out are those it does not hold for: the lowest ones, those
/// between 52 and 101 (they all go up to 102, which goes down to 51), and those whose
/// double is a height of the classic list (112, 120, 360, 540).
pub proof fn lemma_step_up_then_down(v: ResolutionView, wrap: int)
    requires
        can_step_resolution(v),
        wrap == 0 || wrap == -1,
        v.height >= 3,
        !(52 <= v.height <= 101),
        v.height != 112 && v.height != 120 && v.height != 360 && v.height != 540,
        fits(v.max_texture_size, v.height),
        fits(v.max_texture_size, next_height(v.height)),
    ensures
        previous_resolution(next_resolution(v, wrap), wrap).height == v.height,
        previous_resolution(next_resolution(v, wrap), wrap).width == v.width,
{
    let up = next_resolution(v, wrap);
    assert(up.height == next_height(v.height));
    assert(previous_height(up.height, wrap) == v.height);
}

/// The classic heights keep the widths of the machines they come from wherever the
/// picture fits: the handheld heights 102, 144 and 152 lines are 160 pixels wide, the
/// 224 lines of the 16-bit consoles 256, the 240 and 243 lines of the home consoles 320,
/// and the 480 and 486 lines of the TV standards 640. Asking for any of them (by
/// `set_resolution`, or by a step that lands on it) gives that width.
pub proof fn lemma_classic_heights_keep_console_widths(
    max: int,
    minimum_reached: bool,
    maximum_reached: bool,
    wrap: int,
)
    requires
        max >= 640,
        wrap <= 0,
    ensures
        settle(max, 102, minimum_reached, maximum_reached, wrap).width == 160,
        settle(max, 144, minimum_reached, maximum_reached, wrap).width == 160,
        settle(max, 152, minimum_reached, maximum_reached, wrap).width == 160,
        settle(max, 224, minimum_reached, maximum_reached, wrap).width == 256,
        settle(max, 240, minimum_reached, maximum_reached, wrap).width == 320,
        settle(max, 243, minimum_reached, maximum_reached, wrap).width == 320,
        settle(max, 480, minimum_reached, maximum_reached, wrap).width == 640,
        settle(max, 486, minimum_reached, maximum_reached, wrap).width == 640,
        settle(max, 240, minimum_reached, maximum_reached, wrap).height == 240,
        settle(max, 243, minimum_reached, maximum_reached, wrap).height == 243,
{
}

/// Every other height that fits is shown at 16:9: its width is the largest whose 9 parts
/// stay within 16 parts of the height.
pub proof fn lemma_other_heights_are_wide(max: int, h: int, minimum_reached: bool, maximum_reached: bool, wrap: int)
    requires
        settles(max),
        wrap <= 0,
        h > 0,
        fits(max, h),
        h != 102 && h != 144 && h != 152 && h != 224 && h != 240 && h != 243 && h != 480 && h != 486,
    ensures
        settle(max, h, minimum_reached, maximum_reached, wrap).height == h,
        settle(max, h, minimum_reached, maximum_reached, wrap).width * 9 <= h * 16,
        h * 16 < (settle(max, h, minimum_reached, maximum_reached, wrap).width + 1) * 9,
{
}

/// The list of heights, from the handhelds up to full HD: 102, 144, 152, 160, 224, 240,
/// 243, 480, 486, 720 and 1080 lines, each step up giving the next one and each step down
/// the one before; above it the heights double, and a step down halves them.
pub proof fn lemma_height_list(h: int, wrap: int)
    requires
        wrap <= 0,
    ensures
        next_height(102) == 144 && next_height(144) == 152 && next_height(152) == 160,
        next_height(160) == 224 && next_height(224) == 240 && next_height(240) == 243,
        next_height(243) == 480 && next_height(480) == 486 && next_height(486) == 720,
        next_height(720) == 1080 && next_height(1080) == 2160,
        previous_height(1080, wrap) == 720 && previous_height(720, wrap) == 486,
        previous_height(486, wrap) == 480 && previous_height(480, wrap) == 243,
        previous_height(243, wrap) == 240 && previous_height(240, wrap) == 224,
        previous_height(224, wrap) == 160 && previous_height(160, wrap) == 152,
        previous_height(152, wrap) == 144 && previous_height(144, wrap) == 102,
        h > 1080 ==> next_height(h) == 2 * h && previous_height(2 * h, wrap) == h,
{
}

/// The label of a resolution: `<height>p` up to 1080 lines, `<height / 540>K` above.
pub open spec fn resolution_label(h: int) -> Seq<char> {
    if h <= 1080 {
        signed_decimal(h) + "p"@
    } else {
        decimal((h / 540) as nat) + "K"@
    }
}

/// The internal resolution of the simulation: the picture is rendered into a texture of
/// this size, stepped through a list of classic and doubled heights.
#[derive(Clone, Debug)]
pub struct InternalResolution {
    max_texture_size: i32,
    viewport: Size2D<i32>,
    minimum_reached: bool,
    maximum_reached: bool,
}

impl View for InternalResolution {
    type V = ResolutionView;

    closed spec fn view(&self) -> ResolutionView {
        ResolutionView {
            max_texture_size: self.max_texture_size as int,
            height: self.viewport.height as int,
            width: self.viewport.width as int,
            minimum_reached: self.minimum_reached,
            maximum_reached: self.maximum_reached,
        }
    }
}

/// The width goes with the height, and the height is never zero.
pub open spec fn resolution_wf(v: ResolutionView) -> bool {
    &&& v.width == width_for(v.height)
    &&& v.height != 0
    &&& height_in_range(v.height)
    &&& i32::MIN <= v.max_texture_size <= i32::MAX
}

/// A step up or down from `v` stays in range and terminates.
pub open spec fn can_step_resolution(v: ResolutionView) -> bool {
    &&& resolution_wf(v)
    &&& settles(v.max_texture_size)
    &&& v.height <= 67108863
}

/// The resolution one step up the list.
pub open spec fn next_resolution(v: ResolutionView, wrap: int) -> ResolutionView {
    settle(v.max_texture_size, next_height(v.height), false, v.maximum_reached, wrap)
}

/// The resolution one step down the list.
pub open spec fn previous_resolution(v: ResolutionView, wrap: int) -> ResolutionView {
    settle(
        v.max_texture_size,
        previous_height(v.height, wrap),
        v.minimum_reached || at_floor(v.height, wrap),
        false,
        wrap,
    )
}

fn width_for_height(h: i32) -> (w: i32)
    requires
        h != 0,
        height_in_range(h as int),
    ensures
        w == width_for(h as int),
{
    match h {
        102 | 144 | 152 => 160,
        224 => 256,
        240 | 243 => 320,
        480 | 486 => 640,
        _ => if h >= 0 {
            h * 16 / 9
        } else {
            let m: i32 = -h;
            -(m + m * 7 / 9)
        },
    }
}

fn next_height_of(h: i32) -> (r: i32)
    requires
        h <= 67108863,
    ensures
        r == next_height(h as int),
{
    if h <= 0 {
        return 1080;
    }
    match h {
        720 => 1080,
        486 => 720,
        480 => 486,
        243 => 480,
        240 => 243,
        224 => 240,
        160 => 224,
        152 => 160,
        144 => 152,
        102 => 144,
        51..=101 => 102,
        height => height * 2,
    }
}

fn previous_height_of(h: i32, wrap: i32) -> (r: i32)
    requires
        wrap == 0 || wrap == -1,
    ensures
        r == previous_height(h as int, wrap as int),
{
    if h <= wrap {
        1080
    } else {
        match h {
            1080 => 720,
            720 => 486,
            486 => 480,
            480 => 243,
            243 => 240,
            240 => 224,
            224 => 160,
            160 => 152,
            152 => 144,
            144 => 102,
            0..=4 => h,
            height => height / 2,
        }
    }
}

/// Two resolutions that look the same are the same.
pub proof fn lemma_resolution_view_injective(a: InternalResolution, b: InternalResolution)
    requires
        a@ == b@,
    ensures
        a == b,
{
}

impl InternalResolution {
    /// A 4K resolution (3840 x 2160) with no texture limit.
    pub fn new() -> (r: InternalResolution)
        ensures
            r@ == (ResolutionView {
                max_texture_size: i32::MAX as int,
                height: 2160,
                width: 3840,
                minimum_reached: false,
                maximum_reached: false,
            }),
            resolution_wf(r@),
    {
        InternalResolution {
            max_texture_size: i32::MAX,
            viewport: Size2D { width: 3840, height: 2160 },
            minimum_reached: false,
            maximum_reached: false,
        }
    }

    pub fn set_max_texture_size(&mut self, value: i32)
        ensures
            final(self)@ == (ResolutionView { max_texture_size: value as int, ..old(self)@ }),
    {
        self.max_texture_size = value;
    }

    /// Asks for the height `resolution`: where it (or its width) does not fit in a
    /// texture, the next heights down are tried and the top of the list marked reached.
    pub fn set_resolution(&mut self, resolution: i32)
        requires
            resolution != 0,
            height_in_range(resolution as int),
            settles(old(self)@.max_texture_size),
        ensures
            final(self)@ == settle(
                old(self)@.max_texture_size,
                resolution as int,
                old(self)@.minimum_reached,
                old(self)@.maximum_reached,
                0,
            ),
            resolution_wf(final(self)@),
    {
        self.settle_at(resolution, 0);
    }

    pub(crate) fn settle_at(&mut self, resolution: i32, wrap: i32)
        requires
            resolution != 0,
            height_in_range(resolution as int),
            settles(old(self)@.max_texture_size),
            wrap == 0 || wrap == -1,
        ensures
            final(self)@ == settle(
                old(self)@.max_texture_size,
                resolution as int,
                old(self)@.minimum_reached,
                old(self)@.maximum_reached,
                wrap as int,
            ),
            resolution_wf(final(self)@),
    {
        let ghost max = self.max_texture_size as int;
        let ghost start = settle(
            max,
            resolution as int,
            self.minimum_reached,
            self.maximum_reached,
            wrap as int,
        );
        let ghost top0 = self.maximum_reached;
        let mut h = resolution;
        let mut stepped = false;
        loop
            invariant
                h != 0,
                height_in_range(h as int),
                settles(max),
                wrap == 0 || wrap == -1,
                self.max_texture_size == max,
                start == settle(
                    old(self)@.max_texture_size,
                    resolution as int,
                    old(self)@.minimum_reached,
                    old(self)@.maximum_reached,
                    wrap as int,
                ),
                !stepped ==> self.maximum_reached == top0,
                start == settle(
                    max,
                    h as int,
                    self.minimum_reached,
                    if stepped { true } else { top0 },
                    wrap as int,
                ),
            decreases if h > 0 { h as int } else { 0 },
        {
            let w = width_for_height(h);
            self.viewport = Size2D { width: w, height: h };
            if w > self.max_texture_size || h > self.max_texture_size {
                proof {
                    lemma_unfit_steps_down(max, h as int, wrap as int);
                    lemma_settle_marks_top(
                        max,
                        previous_height(h as int, wrap as int),
                        self.minimum_reached,
                        wrap as int,
                    );
                }
                self.maximum_reached = false;
                h = previous_height_of(h, wrap);
                stepped = true;
            } else {
                if stepped {
                    self.maximum_reached = true;
                }
                return;
            }
        }
    }

    pub(crate) fn step_forward(&mut self, wrap: i32)
        requires
            can_step_resolution(old(self)@),
            wrap == 0 || wrap == -1,
        ensures
            final(self)@ == next_resolution(old(self)@, wrap as int),
            resolution_wf(final(self)@),
    {
        self.minimum_reached = false;
        let h = next_height_of(self.viewport.height);
        self.settle_at(h, wrap);
    }

    pub(crate) fn step_back(&mut self, wrap: i32)
        requires
            can_step_resolution(old(self)@),
            wrap == 0 || wrap == -1,
        ensures
            final(self)@ == previous_resolution(old(self)@, wrap as int),
            resolution_wf(final(self)@),
    {
        self.maximum_reached = false;
        let h0 = self.viewport.height;
        if wrap < h0 && 0 <= h0 && h0 <= 4 {
            self.minimum_reached = true;
        }
        let h = previous_height_of(h0, wrap);
        self.settle_at(h, wrap);
    }

    /// A copy of the resolution.
    pub fn clone_resolution(&self) -> (r: InternalResolution)
        ensures
            r == *self,
    {
        InternalResolution {
            max_texture_size: self.max_texture_size,
            viewport: self.viewport,
            minimum_reached: self.minimum_reached,
            maximum_reached: self.maximum_reached,
        }
    }

    pub fn width(&self) -> (r: i32)
        ensures
            r == self@.width,
    {
        self.viewport.width
    }

    pub fn height(&self) -> (r: i32)
        ensures
            r == self@.height,
    {
        self.viewport.height
    }

    /// The label of the resolution, such as `720p` or `4K`.
    pub fn to_string(&self) -> (r: String)
        ensures
            r@ == resolution_label(self@.height),
    {
        let height = self.viewport.height;
        let mut s = String::new();
        if height <= 1080 {
            push_signed_decimal(&mut s, height as i64);
            push_str(&mut s, "p");
        } else {
            push_decimal(&mut s, (height / 540) as u64);
            push_str(&mut s, "K");
        }
        s
    }
}

impl Default for InternalResolution {
    fn default() -> (r: InternalResolution)
        ensures
            r@ == (ResolutionView {
                max_texture_size: i32::MAX as int,
                height: 2160,
                width: 3840,
                minimum_reached: false,
                maximum_reached: false,
            }),
    {
        InternalResolution::new()
    }
}

impl OptionCursor for InternalResolution {
    open spec fn next_spec(self) -> Self {
        choose|r: InternalResolution| r@ == next_resolution(self@, 0)
    }

    open spec fn previous_spec(self) -> Self {
        choose|r: InternalResolution| r@ == previous_resolution(self@, 0)
    }

    open spec fn can_step(self) -> bool {
        can_step_resolution(self@)
    }

    open spec fn maximum_reached_spec(self) -> bool {
        self@.maximum_reached
    }

    open spec fn minimum_reached_spec(self) -> bool {
        self@.minimum_reached
    }

    fn next_option(&mut self)
        ensures
            final(self)@ == next_resolution(old(self)@, 0),
            resolution_wf(final(self)@),
    {
        self.step_forward(0);
    }

    fn previous_option(&mut self)
        ensures
            final(self)@ == previous_resolution(old(self)@, 0),
            resolution_wf(final(self)@),
    {
        self.step_back(0);
    }

    fn has_reached_maximum_limit(&self) -> (r: bool) {
        self.maximum_reached
    }

    fn has_reached_minimum_limit(&self) -> (r: bool) {
        self.minimum_reached
    }
}

} // verus!
