use vstd::prelude::*;

use crate::general_types::{next_enum_variant, next_variant, previous_enum_variant, previous_variant, EnumOptions, OptionCursor};

verus! {

/// One frame of an animated picture: how long it stays on screen.
#[derive(Copy, Clone, Debug, PartialEq, Eq, Structural)]
pub struct AnimationStep {
    pub delay: u32,
}

/// What a hotkey of a settings controller does: step up, step down, or set a value from
/// an event.
#[derive(Copy, Clone, Debug, PartialEq, Eq, Structural)]
pub enum KeyEventKind {
    Inc,
    Dec,
    SetValue,
}

/// The key codes that the settings controllers answer to: for each, what it does and the
/// number of its controller.
#[derive(Clone, Debug)]
pub struct ControllerEvents {
    pub entries: Vec<(String, KeyEventKind, usize)>,
}

/// The entries, viewed.
pub open spec fn events_view(v: Seq<(String, KeyEventKind, usize)>) -> Seq<(Seq<char>, KeyEventKind, usize)> {
    v.map_values(|e: (String, KeyEventKind, usize)| (e.0@, e.1, e.2))
}

/// What the first entry for the key code `key` says, if any.
pub open spec fn event_of(entries: Seq<(Seq<char>, KeyEventKind, usize)>, key: Seq<char>) -> Option<(KeyEventKind, usize)>
    decreases entries.len(),
{
    if entries.len() == 0 {
        None
    } else if entries[0].0 == key {
        Some((entries[0].1, entries[0].2))
    } else {
        event_of(entries.drop_first(), key)
    }
}

impl ControllerEvents {
    pub open spec fn view_entries(&self) -> Seq<(Seq<char>, KeyEventKind, usize)> {
        events_view(self.entries@)
    }

    /// What the key code `key` does, if a controller answers to it.
    pub fn get(&self, key: &str) -> (r: Option<(KeyEventKind, usize)>)
        ensures
            r == event_of(self.view_entries(), key@),
    {
        let ghost all = self.view_entries();
        let mut i: usize = 0;
        proof {
            assert(all.skip(0) =~= all);
        }
        while i < self.entries.len()
            invariant
                all == self.view_entries(),
                0 <= i <= all.len(),
                event_of(all, key@) == event_of(all.skip(i as int), key@),
            decreases all.len() - i,
        {
            proof {
                assert(all.skip(i as int).drop_first() =~= all.skip(i + 1));
                assert(all.skip(i as int)[0] == all[i as int]);
            }
            if crate::text::str_eq(self.entries[i].0.as_str(), key) {
                return Some((self.entries[i].1, self.entries[i].2));
            }
            i = i + 1;
        }
        None
    }

    pub fn contains_key(&self, key: &str) -> (r: bool)
        ensures
            r == event_of(self.view_entries(), key@) is Some,
    {
        self.get(key).is_some()
    }
}

/// The hotkeys and the event tag of one settings controller.
#[derive(Clone, Debug)]
pub struct ControllerKeys {
    pub keys_dec: Vec<String>,
    pub keys_inc: Vec<String>,
    pub event_tag: String,
}

/// The texts of a list of key codes.
pub open spec fn codes_view(v: Seq<String>) -> Seq<Seq<char>> {
    v.map_values(|s: String| s@)
}

/// The entries of the controller numbered `i`: its decrease keys, its increase keys, and
/// its event tag when it has one.
pub open spec fn entries_of(dec: Seq<Seq<char>>, inc: Seq<Seq<char>>, tag: Seq<char>, i: usize) -> Seq<
    (Seq<char>, KeyEventKind, usize),
> {
    dec.map_values(|k: Seq<char>| (k, KeyEventKind::Dec, i)) + inc.map_values(
        |k: Seq<char>| (k, KeyEventKind::Inc, i),
    ) + if tag.len() == 0 {
        Seq::empty()
    } else {
        seq![(tag, KeyEventKind::SetValue, i)]
    }
}

/// The entries of the controllers of `list`, numbered in order.
pub open spec fn controller_entries(list: Seq<ControllerKeys>) -> Seq<(Seq<char>, KeyEventKind, usize)>
    decreases list.len(),
{
    if list.len() == 0 {
        Seq::empty()
    } else {
        let c = list.last();
        controller_entries(list.drop_last()) + entries_of(
            codes_view(c.keys_dec@),
            codes_view(c.keys_inc@),
            c.event_tag@,
            (list.len() - 1) as usize,
        )
    }
}

/// No key code is claimed twice.
pub open spec fn codes_distinct(entries: Seq<(Seq<char>, KeyEventKind, usize)>) -> bool {
    forall|a: int, b: int| 0 <= a < b < entries.len() ==> entries[a].0 != entries[b].0
}

/// Whether some entry claims the key code `key`.
fn claimed(entries: &Vec<(String, KeyEventKind, usize)>, key: &str) -> (r: bool)
    ensures
        r == exists|j: int| 0 <= j < entries@.len() && entries@[j].0@ == key@,
{
    let mut i: usize = 0;
    while i < entries.len()
        invariant
            0 <= i <= entries@.len(),
            forall|j: int| 0 <= j < i ==> entries@[j].0@ != key@,
        decreases entries@.len() - i,
    {
        if crate::text::str_eq(entries[i].0.as_str(), key) {
            return true;
        }
        i = i + 1;
    }
    false
}

/// The message of a key code claimed twice.
pub open spec fn duplicate_text(list_name: Seq<char>, key: Seq<char>) -> Seq<char> {
    "controller_events panic! "@ + list_name + " already included '"@ + key + "'."@
}

fn duplicate_message(list_name: &str, key: &str) -> (r: String)
    ensures
        r@ == duplicate_text(list_name@, key@),
{
    let mut s = "controller_events panic! ".to_owned();
    crate::text::push_str(&mut s, list_name);
    crate::text::push_str(&mut s, " already included '");
    crate::text::push_str(&mut s, key);
    crate::text::push_str(&mut s, "'.");
    s
}

/// The entries of the first controllers come first in the entries of all of them.
proof fn lemma_controller_entries_prefix(list: Seq<ControllerKeys>, j: int)
    requires
        0 <= j <= list.len(),
    ensures
        controller_entries(list.take(j)).len() <= controller_entries(list).len(),
        controller_entries(list) .take(controller_entries(list.take(j)).len() as int) == controller_entries(list.take(j)),
    decreases list.len() - j,
{
    if j == list.len() {
        assert(list.take(j) =~= list);
        assert(controller_entries(list).take(controller_entries(list).len() as int) =~= controller_entries(list));
    } else {
        lemma_controller_entries_prefix(list, j + 1);
        assert(list.take(j + 1).drop_last() =~= list.take(j));
        let a = controller_entries(list.take(j));
        let b = controller_entries(list.take(j + 1));
        let full = controller_entries(list);
        assert(b.take(a.len() as int) =~= a);
        assert(full.take(a.len() as int) =~= full.take(b.len() as int).take(a.len() as int));
    }
}

/// A key code met a second time while the table is built makes the whole table claim it
/// twice.
proof fn lemma_duplicate_found(
    list: Seq<ControllerKeys>,
    i: int,
    cur: Seq<(Seq<char>, KeyEventKind, usize)>,
    e: (Seq<char>, KeyEventKind, usize),
    j: int,
)
    requires
        0 <= i < list.len(),
        cur.len() + 1 <= controller_entries(list.take(i + 1)).len(),
        controller_entries(list.take(i + 1)).take(cur.len() as int + 1) == cur.push(e),
        0 <= j < cur.len(),
        cur[j].0 == e.0,
    ensures
        !codes_distinct(controller_entries(list)),
{
    lemma_controller_entries_prefix(list, i + 1);
    let full = controller_entries(list);
    let part = controller_entries(list.take(i + 1));
    assert(full.take(part.len() as int)[j] == part[j]);
    assert(full.take(part.len() as int)[cur.len() as int] == part[cur.len() as int]);
    assert(part.take(cur.len() as int + 1)[j] == cur[j]);
    assert(part.take(cur.len() as int + 1)[cur.len() as int] == e);
    assert(full[j].0 == full[cur.len() as int].0);
}

/// In a table that claims each key code once, looking a key code up gives the entry that
/// claims it.
pub proof fn lemma_lookup_finds_its_entry(entries: Seq<(Seq<char>, KeyEventKind, usize)>, j: int)
    requires
        codes_distinct(entries),
        0 <= j < entries.len(),
    ensures
        event_of(entries, entries[j].0) == Some((entries[j].1, entries[j].2)),
    decreases j,
{
    if j > 0 {
        let rest = entries.drop_first();
        assert(entries[0].0 != entries[j].0);
        assert(rest[j - 1] == entries[j]);
        assert(codes_distinct(rest)) by {
            assert forall|a: int, b: int| 0 <= a < b < rest.len() implies rest[a].0 != rest[b].0 by {
                assert(rest[a] == entries[a + 1] && rest[b] == entries[b + 1]);
            }
        }
        lemma_lookup_finds_its_entry(rest, j - 1);
    }
}

/// The table of the controllers' hotkeys and event tags, each controller numbered by its
/// place in `controllers`. A key code claimed twice is refused, with the message naming
/// the key.
pub fn build_controller_events(controllers: &Vec<ControllerKeys>) -> (r: Result<ControllerEvents, String>)
    requires
        controllers@.len() <= usize::MAX,
    ensures
        r matches Ok(events) ==> events.view_entries() == controller_entries(controllers@)
            && codes_distinct(events.view_entries()),
        r is Err <==> !codes_distinct(controller_entries(controllers@)),
{
    let mut entries: Vec<(String, KeyEventKind, usize)> = Vec::new();
    let mut i: usize = 0;
    while i < controllers.len()
        invariant
            0 <= i <= controllers@.len(),
            events_view(entries@) == controller_entries(controllers@.take(i as int)),
            codes_distinct(events_view(entries@)),
        decreases controllers@.len() - i,
    {
        proof {
            assert(controllers@.take(i + 1).drop_last() =~= controllers@.take(i as int));
            assert(controllers@.take(i + 1).last() == controllers@[i as int]);
        }
        let c = &controllers[i];
        let ghost base = events_view(entries@);
        let ghost one = entries_of(codes_view(c.keys_dec@), codes_view(c.keys_inc@), c.event_tag@, i);
        let ghost dec = codes_view(c.keys_dec@);
        let ghost inc = codes_view(c.keys_inc@);
        let ghost dmap = dec.map_values(|x: Seq<char>| (x, KeyEventKind::Dec, i));
        let ghost imap = inc.map_values(|x: Seq<char>| (x, KeyEventKind::Inc, i));
        let ghost list = controllers@;
        proof {
            assert(controller_entries(list.take(i + 1)) == base + one);
        }
        let mut k: usize = 0;
        while k < c.keys_dec.len()
            invariant
                0 <= k <= dec.len(),
                dec == codes_view(c.keys_dec@),
                events_view(entries@) == base + dec.take(k as int).map_values(|x: Seq<char>| (x, KeyEventKind::Dec, i)),
                codes_distinct(events_view(entries@)),
                i < list.len(),
                list == controllers@,
                controller_entries(list.take(i + 1)) == base + one,
                one == dmap + imap + (if c.event_tag@.len() == 0 {
                    Seq::<(Seq<char>, KeyEventKind, usize)>::empty()
                } else {
                    seq![(c.event_tag@, KeyEventKind::SetValue, i)]
                }),
                dmap == dec.map_values(|x: Seq<char>| (x, KeyEventKind::Dec, i)),
            decreases dec.len() - k,
        {
            if claimed(&entries, c.keys_dec[k].as_str()) {
                proof {
                    let cur = events_view(entries@);
                    let e = (dec[k as int], KeyEventKind::Dec, i);
                    let j = choose|j: int| 0 <= j < entries@.len() && entries@[j].0@ == dec[k as int];
                    assert(cur[j].0 == e.0);
                    assert((base + one).take(cur.len() as int + 1) =~= cur.push(e));
                    lemma_duplicate_found(list, i as int, cur, e, j);
                }
                return Err(duplicate_message("key_dec", c.keys_dec[k].as_str()));
            }
            let ghost before = events_view(entries@);
            entries.push((c.keys_dec[k].clone(), KeyEventKind::Dec, i));
            proof {
                assert(events_view(entries@) =~= before.push((dec[k as int], KeyEventKind::Dec, i)));
                assert(dec.take(k + 1).map_values(|x: Seq<char>| (x, KeyEventKind::Dec, i)) =~= dec.take(
                    k as int,
                ).map_values(|x: Seq<char>| (x, KeyEventKind::Dec, i)).push((dec[k as int], KeyEventKind::Dec, i)));
            }
            k = k + 1;
        }
        proof {
            assert(dec.take(dec.len() as int) =~= dec);
            assert(events_view(entries@) =~= base + dmap);
        }
        let ghost mid = events_view(entries@);
        let mut k: usize = 0;
        while k < c.keys_inc.len()
            invariant
                0 <= k <= inc.len(),
                inc == codes_view(c.keys_inc@),
                events_view(entries@) == mid + inc.take(k as int).map_values(|x: Seq<char>| (x, KeyEventKind::Inc, i)),
                codes_distinct(events_view(entries@)),
                i < list.len(),
                list == controllers@,
                mid == base + dmap,
                controller_entries(list.take(i + 1)) == base + one,
                one == dmap + imap + (if c.event_tag@.len() == 0 {
                    Seq::<(Seq<char>, KeyEventKind, usize)>::empty()
                } else {
                    seq![(c.event_tag@, KeyEventKind::SetValue, i)]
                }),
                imap == inc.map_values(|x: Seq<char>| (x, KeyEventKind::Inc, i)),
            decreases inc.len() - k,
        {
            if claimed(&entries, c.keys_inc[k].as_str()) {
                proof {
                    let cur = events_view(entries@);
                    let e = (inc[k as int], KeyEventKind::Inc, i);
                    let j = choose|j: int| 0 <= j < entries@.len() && entries@[j].0@ == inc[k as int];
                    assert(cur[j].0 == e.0);
                    assert((base + one).take(cur.len() as int + 1) =~= cur.push(e));
                    lemma_duplicate_found(list, i as int, cur, e, j);
                }
                return Err(duplicate_message("keys_inc", c.keys_inc[k].as_str()));
            }
            let ghost before = events_view(entries@);
            entries.push((c.keys_inc[k].clone(), KeyEventKind::Inc, i));
            proof {
                assert(events_view(entries@) =~= before.push((inc[k as int], KeyEventKind::Inc, i)));
                assert(inc.take(k + 1).map_values(|x: Seq<char>| (x, KeyEventKind::Inc, i)) =~= inc.take(
                    k as int,
                ).map_values(|x: Seq<char>| (x, KeyEventKind::Inc, i)).push((inc[k as int], KeyEventKind::Inc, i)));
            }
            k = k + 1;
        }
        proof {
            assert(inc.take(inc.len() as int) =~= inc);
            assert(events_view(entries@) =~= base + dmap + imap);
            reveal_strlit("");
        }
        if !crate::text::str_eq(c.event_tag.as_str(), "") {
            if claimed(&entries, c.event_tag.as_str()) {
                proof {
                    assert(c.event_tag@.len() > 0) by {
                        if c.event_tag@.len() == 0 {
                            assert(c.event_tag@ =~= ""@);
                        }
                    }
                    let cur = events_view(entries@);
                    let e = (c.event_tag@, KeyEventKind::SetValue, i);
                    let j = choose|j: int| 0 <= j < entries@.len() && entries@[j].0@ == c.event_tag@;
                    assert(cur[j].0 == e.0);
                    assert((base + one).take(cur.len() as int + 1) =~= cur.push(e));
                    lemma_duplicate_found(list, i as int, cur, e, j);
                }
                return Err(duplicate_message("event_tag", c.event_tag.as_str()));
            }
            proof {
                assert(c.event_tag@.len() > 0) by {
                    if c.event_tag@.len() == 0 {
                        assert(c.event_tag@ =~= ""@);
                    }
                }
            }
            let ghost before = events_view(entries@);
            entries.push((c.event_tag.clone(), KeyEventKind::SetValue, i));
            proof {
                assert(events_view(entries@) =~= before.push((c.event_tag@, KeyEventKind::SetValue, i)));
            }
        }
        proof {
            assert(events_view(entries@) =~= base + one);
        }
        i = i + 1;
    }
    proof {
        assert(controllers@.take(controllers@.len() as int) =~= controllers@);
    }
    Ok(ControllerEvents { entries })
}

/// Which of the custom scaling settings the user changed last.
#[derive(Copy, Clone, Debug, PartialEq, Eq, Structural)]
pub enum LatestCustomScalingChange {
    AspectRatio,
    PixelSize,
}

/// The frames a screenshot waits, once taken, before another can be taken.
pub const SCREENSHOT_DELAY: i32 = 120;

/// The state of the screenshot key: a screenshot is taken on the frame the key is
/// released, and the frames after it are counted down before another can be taken.
#[derive(Copy, Clone, Debug, PartialEq, Eq, Structural)]
pub struct ScreenshotTrigger {
    pub is_triggered: bool,
    pub delay: i32,
}

impl ScreenshotTrigger {
    pub fn new() -> (r: ScreenshotTrigger)
        ensures
            r == (ScreenshotTrigger { is_triggered: false, delay: 0 }),
    {
        ScreenshotTrigger { is_triggered: false, delay: 0 }
    }

    /// One frame: while the delay runs it counts down; otherwise a release of the
    /// screenshot key takes a screenshot and starts the delay. Returns whether a screenshot
    /// is taken this frame.
    pub fn update(&mut self, screenshot_just_released: bool) -> (r: bool)
        requires
            old(self).delay > i32::MIN,
        ensures
            r == final(self).is_triggered,
            *final(self) == screenshot_step(*old(self), screenshot_just_released),
            old(self).delay > 0 ==> *final(self) == (ScreenshotTrigger {
                is_triggered: false,
                delay: (old(self).delay - 1) as i32,
            }),
            old(self).delay <= 0 && screenshot_just_released ==> *final(self) == (ScreenshotTrigger {
                is_triggered: true,
                delay: SCREENSHOT_DELAY,
            }),
            old(self).delay <= 0 && !screenshot_just_released ==> *final(self) == (ScreenshotTrigger {
                is_triggered: false,
                delay: old(self).delay,
            }),
    {
        self.is_triggered = false;
        if self.delay > 0 {
            self.delay = self.delay - 1;
        } else if screenshot_just_released {
            self.is_triggered = true;
            self.delay = SCREENSHOT_DELAY;
        }
        self.is_triggered
    }

    /// The frame is drawn: a screenshot is being taken, or none is pending.
    pub fn drawable(&self) -> (r: bool)
        ensures
            r == (self.is_triggered || self.delay <= 0),
    {
        self.is_triggered || self.delay <= 0
    }
}

/// The trigger after one frame, the screenshot key released (`released`) or not.
pub open spec fn screenshot_step(t: ScreenshotTrigger, released: bool) -> ScreenshotTrigger {
    if t.delay > 0 {
        ScreenshotTrigger { is_triggered: false, delay: (t.delay - 1) as i32 }
    } else if released {
        ScreenshotTrigger { is_triggered: true, delay: SCREENSHOT_DELAY }
    } else {
        ScreenshotTrigger { is_triggered: false, delay: t.delay }
    }
}

/// The trigger after a run of frames, and whether any of them took a screenshot.
pub open spec fn screenshot_run(t: ScreenshotTrigger, releases: Seq<bool>) -> (ScreenshotTrigger, bool)
    decreases releases.len(),
{
    if releases.len() == 0 {
        (t, false)
    } else {
        let (t1, any) = screenshot_run(t, releases.drop_last());
        let t2 = screenshot_step(t1, releases.last());
        (t2, any || t2.is_triggered)
    }
}

/// Once a screenshot is taken, no other is taken during the delay that follows, whatever
/// the screenshot key does: a run of frames no longer than the pending delay takes none.
pub proof fn lemma_screenshot_delay_blocks(t: ScreenshotTrigger, releases: Seq<bool>)
    requires
        releases.len() <= t.delay,
    ensures
        !screenshot_run(t, releases).1,
        screenshot_run(t, releases).0.delay == t.delay - releases.len(),
    decreases releases.len(),
{
    if releases.len() > 0 {
        lemma_screenshot_delay_blocks(t, releases.drop_last());
    }
}

/// How the picture is scaled onto the screen.
#[derive(Copy, Clone, Debug, PartialEq, Eq, Structural)]
pub enum ScalingMethod {
    AutoDetect,
    SquaredPixels,
    FullImage4By3,
    StretchToBothEdges,
    StretchToNearestEdge,
    Custom,
}

impl ScalingMethod {
    /// The name shown to the user.
    pub open spec fn label(self) -> Seq<char> {
        match self {
            ScalingMethod::AutoDetect => "Automatic"@,
            ScalingMethod::SquaredPixels => "Squared pixels"@,
            ScalingMethod::FullImage4By3 => "4:3 on full image"@,
            ScalingMethod::StretchToBothEdges => "Stretch to both edges"@,
            ScalingMethod::StretchToNearestEdge => "Stretch to nearest edge"@,
            ScalingMethod::Custom => "Custom"@,
        }
    }

    /// The name shown to the user.
    pub fn to_string(&self) -> (r: String)
        ensures
            r@ == self.label(),
    {
        match self {
            ScalingMethod::AutoDetect => "Automatic".to_owned(),
            ScalingMethod::SquaredPixels => "Squared pixels".to_owned(),
            ScalingMethod::FullImage4By3 => "4:3 on full image".to_owned(),
            ScalingMethod::StretchToBothEdges => "Stretch to both edges".to_owned(),
            ScalingMethod::StretchToNearestEdge => "Stretch to nearest edge".to_owned(),
            ScalingMethod::Custom => "Custom".to_owned(),
        }
    }
}

impl EnumOptions for ScalingMethod {
    open spec fn index(self) -> nat {
        match self {
            ScalingMethod::AutoDetect => 0,
            ScalingMethod::SquaredPixels => 1,
            ScalingMethod::FullImage4By3 => 2,
            ScalingMethod::StretchToBothEdges => 3,
            ScalingMethod::StretchToNearestEdge => 4,
            ScalingMethod::Custom => 5,
        }
    }

    open spec fn count() -> nat {
        6
    }

    open spec fn from_index_spec(i: nat) -> Self {
        if i == 0 {
            ScalingMethod::AutoDetect
        } else if i == 1 {
            ScalingMethod::SquaredPixels
        } else if i == 2 {
            ScalingMethod::FullImage4By3
        } else if i == 3 {
            ScalingMethod::StretchToBothEdges
        } else if i == 4 {
            ScalingMethod::StretchToNearestEdge
        } else {
            ScalingMethod::Custom
        }
    }

    proof fn lemma_index(self) {
    }

    proof fn lemma_from_index(i: nat) {
    }

    fn to_index(&self) -> (r: usize) {
        match self {
            ScalingMethod::AutoDetect => 0,
            ScalingMethod::SquaredPixels => 1,
            ScalingMethod::FullImage4By3 => 2,
            ScalingMethod::StretchToBothEdges => 3,
            ScalingMethod::StretchToNearestEdge => 4,
            ScalingMethod::Custom => 5,
        }
    }

    fn from_index(i: usize) -> (r: Option<Self>) {
        match i {
            0 => Some(ScalingMethod::AutoDetect),
            1 => Some(ScalingMethod::SquaredPixels),
            2 => Some(ScalingMethod::FullImage4By3),
            3 => Some(ScalingMethod::StretchToBothEdges),
            4 => Some(ScalingMethod::StretchToNearestEdge),
            5 => Some(ScalingMethod::Custom),
            _ => None,
        }
    }

    fn len() -> (r: usize) {
        6
    }
}

impl OptionCursor for ScalingMethod {
    open spec fn next_spec(self) -> Self {
        next_variant(self)
    }

    open spec fn previous_spec(self) -> Self {
        previous_variant(self)
    }

    open spec fn can_step(self) -> bool {
        true
    }

    open spec fn maximum_reached_spec(self) -> bool {
        false
    }

    open spec fn minimum_reached_spec(self) -> bool {
        false
    }

    fn next_option(&mut self) {
        next_enum_variant(self);
    }

    fn previous_option(&mut self) {
        previous_enum_variant(self);
    }

    fn has_reached_maximum_limit(&self) -> (r: bool) {
        false
    }

    fn has_reached_minimum_limit(&self) -> (r: bool) {
        false
    }
}

/// The labels the user reads for the scaling methods, each naming its own method.
pub proof fn lemma_scaling_method_labels()
    ensures
        ScalingMethod::AutoDetect.label() == "Automatic"@,
        ScalingMethod::SquaredPixels.label() == "Squared pixels"@,
        ScalingMethod::FullImage4By3.label() == "4:3 on full image"@,
        ScalingMethod::StretchToBothEdges.label() == "Stretch to both edges"@,
        ScalingMethod::StretchToNearestEdge.label() == "Stretch to nearest edge"@,
        ScalingMethod::Custom.label() == "Custom"@,
{
}

} // verus!
