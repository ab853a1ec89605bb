use vstd::prelude::*;

use crate::input_types::{InputEventValue, Pressed};
use crate::simulation_core_state::{event_of, ControllerEvents, KeyEventKind};
use crate::text::{concat, str_eq};

verus! {

/// What the panel has to show, gathered from the simulation between two frames: the
/// last frame rate (as `f32` bits), the messages in order, and the requests to show or
/// hide the panel.
#[derive(Clone, Debug, Default)]
pub struct PanelEventSink {
    pub fps_bits: Option<u32>,
    pub messages: Vec<String>,
    pub toggle_requests: usize,
}

/// What a drain of the sink hands to the panel.
#[derive(Clone, Debug, Default, PartialEq)]
pub struct DrainedPanelEvents {
    pub fps_bits: Option<u32>,
    pub messages: Vec<String>,
    pub toggle_requests: usize,
}

/// The texts of a list of messages.
pub open spec fn texts(v: Seq<String>) -> Seq<Seq<char>> {
    v.map_values(|s: String| s@)
}

impl PanelEventSink {
    pub fn new() -> (r: PanelEventSink)
        ensures
            r.fps_bits is None,
            r.messages@.len() == 0,
            r.toggle_requests == 0,
    {
        PanelEventSink { fps_bits: None, messages: Vec::new(), toggle_requests: 0 }
    }

    /// Keeps the last frame rate reported.
    pub fn set_fps(&mut self, fps_bits: u32)
        ensures
            final(self).fps_bits == Some(fps_bits),
            final(self).messages@ == old(self).messages@,
            final(self).toggle_requests == old(self).toggle_requests,
    {
        self.fps_bits = Some(fps_bits);
    }

    /// Queues a message after the others.
    pub fn push_message(&mut self, message: String)
        ensures
            final(self).messages@ == old(self).messages@.push(message),
            final(self).fps_bits == old(self).fps_bits,
            final(self).toggle_requests == old(self).toggle_requests,
    {
        self.messages.push(message);
    }

    /// Counts a request to show or hide the panel.
    pub fn request_toggle(&mut self)
        requires
            old(self).toggle_requests < usize::MAX,
        ensures
            final(self).toggle_requests == old(self).toggle_requests + 1,
            final(self).fps_bits == old(self).fps_bits,
            final(self).messages@ == old(self).messages@,
    {
        self.toggle_requests = self.toggle_requests + 1;
    }

    /// Hands over everything gathered and leaves the sink empty, in one step.
    pub fn drain(&mut self) -> (r: DrainedPanelEvents)
        ensures
            r.fps_bits == old(self).fps_bits,
            r.messages@ == old(self).messages@,
            r.toggle_requests == old(self).toggle_requests,
            final(self).fps_bits is None,
            final(self).messages@.len() == 0,
            final(self).toggle_requests == 0,
    {
        let fps_bits = self.fps_bits;
        self.fps_bits = None;
        let mut messages: Vec<String> = Vec::new();
        std::mem::swap(&mut messages, &mut self.messages);
        let toggle_requests = self.toggle_requests;
        self.toggle_requests = 0;
        DrainedPanelEvents { fps_bits, messages, toggle_requests }
    }
}

/// A key event of the panel's buttons, viewed: whether the key goes down, and its key.
pub open spec fn key_event_view(e: InputEventValue) -> (bool, Seq<char>) {
    match e {
        InputEventValue::Keyboard { pressed, key } => (pressed == Pressed::Yes, key@),
        _ => (false, Seq::empty()),
    }
}

/// The views of a list of events.
pub open spec fn key_events_view(v: Seq<InputEventValue>) -> Seq<(bool, Seq<char>)> {
    v.map_values(|e: InputEventValue| key_event_view(e))
}

/// `after` keeps every event of `before`, in front, and what it adds are key events.
pub open spec fn only_keys_added(before: Seq<InputEventValue>, after: Seq<InputEventValue>) -> bool {
    &&& before.len() <= after.len()
    &&& after.take(before.len() as int) == before
    &&& forall|i: int| before.len() <= i < after.len() ==> (#[trigger] after[i]) is Keyboard
}

/// `after` is `before` followed by key events that are, in order, `added`.
pub open spec fn appends_key_events(
    before: Seq<InputEventValue>,
    after: Seq<InputEventValue>,
    added: Seq<(bool, Seq<char>)>,
) -> bool {
    &&& only_keys_added(before, after)
    &&& key_events_view(after.subrange(before.len() as int, after.len() as int)) == added
}

proof fn lemma_only_keys_added_trans(a: Seq<InputEventValue>, b: Seq<InputEventValue>, c: Seq<InputEventValue>)
    requires
        only_keys_added(a, b),
        only_keys_added(b, c),
    ensures
        only_keys_added(a, c),
{
    assert(c.take(a.len() as int) =~= b.take(a.len() as int));
    assert forall|i: int| a.len() <= i < c.len() implies (#[trigger] c[i]) is Keyboard by {
        if i < b.len() {
            assert(c.take(b.len() as int)[i] == c[i]);
        }
    }
}

proof fn lemma_appends_from_views(
    before: Seq<InputEventValue>,
    after: Seq<InputEventValue>,
    added: Seq<(bool, Seq<char>)>,
)
    requires
        only_keys_added(before, after),
        key_events_view(after) == key_events_view(before) + added,
    ensures
        appends_key_events(before, after, added),
{
    let tail = after.subrange(before.len() as int, after.len() as int);
    assert(after =~= before + tail);
    assert(key_events_view(before + tail) =~= key_events_view(before) + key_events_view(tail));
    let b = before.len() as int;
    assert(key_events_view(after).len() == before.len() + added.len());
    assert forall|j: int| 0 <= j < tail.len() implies key_events_view(tail)[j] == added[j] by {
        assert(tail[j] == after[b + j]);
        assert(key_events_view(after)[b + j] == (key_events_view(before) + added)[b + j]);
    }
    assert(key_events_view(tail) =~= added);
}

proof fn lemma_push_key_event(before: Seq<InputEventValue>, e: InputEventValue)
    requires
        e is Keyboard,
    ensures
        only_keys_added(before, before.push(e)),
{
    assert(before.push(e).take(before.len() as int) =~= before);
}

proof fn lemma_nothing_added(before: Seq<InputEventValue>)
    ensures
        appends_key_events(before, before, Seq::empty()),
{
    assert(before.take(before.len() as int) =~= before);
    assert(key_events_view(before.subrange(before.len() as int, before.len() as int)) =~= Seq::<(bool, Seq<char>)>::empty());
}

/// The same key goes up for each key of `keys`.
pub open spec fn releases(keys: Seq<Seq<char>>) -> Seq<(bool, Seq<char>)> {
    keys.map_values(|k: Seq<char>| (false, k))
}

/// The keys of `keys` that are in `held`, in order.
pub open spec fn held_among(keys: Seq<Seq<char>>, held: Seq<Seq<char>>) -> Seq<Seq<char>>
    decreases keys.len(),
{
    if keys.len() == 0 {
        Seq::empty()
    } else {
        let rest = held_among(keys.drop_last(), held);
        if held.contains(keys.last()) {
            rest.push(keys.last())
        } else {
            rest
        }
    }
}

/// The keys of `keys` that are not in `seen`, in order.
pub open spec fn missing_from(keys: Seq<Seq<char>>, seen: Seq<Seq<char>>) -> Seq<Seq<char>>
    decreases keys.len(),
{
    if keys.len() == 0 {
        Seq::empty()
    } else {
        let rest = missing_from(keys.drop_last(), seen);
        if !seen.contains(keys.last()) {
            rest.push(keys.last())
        } else {
            rest
        }
    }
}

proof fn lemma_remove_keeps_others(s: Seq<Seq<char>>, i: int, k: Seq<char>)
    requires
        s.no_duplicates(),
        0 <= i < s.len(),
    ensures
        s.remove(i).contains(k) <==> (s.contains(k) && k != s[i]),
        s.remove(i).no_duplicates(),
{
    let t = s.remove(i);
    if t.contains(k) {
        let j = choose|j: int| 0 <= j < t.len() && t[j] == k;
        if j < i {
            assert(s[j] == k);
        } else {
            assert(s[j + 1] == k);
        }
    }
    if s.contains(k) && k != s[i] {
        let j = choose|j: int| 0 <= j < s.len() && s[j] == k;
        if j < i {
            assert(t[j] == k);
        } else {
            assert(t[j - 1] == k);
        }
    }
    assert forall|a: int, b: int| 0 <= a < t.len() && 0 <= b < t.len() && a != b implies t[a] != t[b] by {
        let a1 = if a < i { a } else { a + 1 };
        let b1 = if b < i { b } else { b + 1 };
        assert(t[a] == s[a1] && t[b] == s[b1]);
    }
}

/// Whether the list of keys holds `key`.
fn has_key(v: &Vec<String>, key: &str) -> (r: Option<usize>)
    ensures
        match r {
            Some(i) => i < v@.len() && v@[i as int]@ == key@,
            None => !texts(v@).contains(key@),
        },
{
    let mut i: usize = 0;
    while i < v.len()
        invariant
            0 <= i <= v@.len(),
            forall|j: int| 0 <= j < i ==> v@[j]@ != key@,
        decreases v@.len() - i,
    {
        if str_eq(v[i].as_str(), key) {
            return Some(i);
        }
        i = i + 1;
    }
    proof {
        if texts(v@).contains(key@) {
            let j = choose|j: int| 0 <= j < texts(v@).len() && texts(v@)[j] == key@;
            assert(v@[j]@ == key@);
        }
    }
    None
}

/// Adds `key` to a list of distinct keys, unless it is there.
fn add_key(v: &mut Vec<String>, key: &str)
    requires
        texts(old(v)@).no_duplicates(),
    ensures
        texts(final(v)@).no_duplicates(),
        forall|k: Seq<char>| #[trigger] texts(final(v)@).contains(k) <==> (texts(old(v)@).contains(k) || k == key@),
{
    match has_key(v, key) {
        Some(i) => {
            proof {
                assert(texts(v@)[i as int] == key@);
            }
        },
        None => {
            let ghost before = texts(v@);
            v.push(key.to_owned());
            proof {
                assert(texts(v@) =~= before.push(key@));
                assert forall|k: Seq<char>| #[trigger] texts(v@).contains(k) <==> (before.contains(k) || k == key@) by {
                    if texts(v@).contains(k) && k != key@ {
                        let j = choose|j: int| 0 <= j < texts(v@).len() && texts(v@)[j] == k;
                        assert(before[j] == k);
                    }
                    if before.contains(k) {
                        let j = choose|j: int| 0 <= j < before.len() && before[j] == k;
                        assert(texts(v@)[j] == k);
                    }
                    if k == key@ {
                        assert(texts(v@)[before.len() as int] == k);
                    }
                }
            }
        },
    }
}

/// Removes `key` from a list of distinct keys, if it is there.
fn drop_key(v: &mut Vec<String>, key: &str)
    requires
        texts(old(v)@).no_duplicates(),
    ensures
        texts(final(v)@).no_duplicates(),
        forall|k: Seq<char>| #[trigger] texts(final(v)@).contains(k) <==> (texts(old(v)@).contains(k) && k != key@),
        old(v)@.len() == 0 ==> final(v)@ == old(v)@,
{
    match has_key(v, key) {
        Some(i) => {
            let ghost before = texts(v@);
            v.remove(i);
            proof {
                assert(texts(v@) =~= before.remove(i as int));
                assert forall|k: Seq<char>| #[trigger] texts(v@).contains(k) <==> (before.contains(k) && k != key@) by {
                    lemma_remove_keeps_others(before, i as int, k);
                }
                lemma_remove_keeps_others(before, i as int, key@);
            }
        },
        None => {},
    }
}

/// The keys that the panel's buttons hold down in the simulation: held keys, keys pulsed
/// for one frame, keys that follow a button continuously, and those seen this frame.
#[derive(Clone, Debug, Default)]
pub struct SyntheticKeys {
    pub down: Vec<String>,
    pub release_next_frame: Vec<String>,
    pub continuous_keys: Vec<String>,
    pub seen_continuous_keys: Vec<String>,
}

impl SyntheticKeys {
    /// Each list holds a key at most once.
    pub open spec fn wf(&self) -> bool {
        &&& texts(self.down@).no_duplicates()
        &&& texts(self.release_next_frame@).no_duplicates()
        &&& texts(self.continuous_keys@).no_duplicates()
        &&& texts(self.seen_continuous_keys@).no_duplicates()
    }

    pub open spec fn is_down(&self, k: Seq<char>) -> bool {
        texts(self.down@).contains(k)
    }

    pub open spec fn pulsed(&self, k: Seq<char>) -> bool {
        texts(self.release_next_frame@).contains(k)
    }

    pub open spec fn continuous(&self, k: Seq<char>) -> bool {
        texts(self.continuous_keys@).contains(k)
    }

    pub open spec fn seen(&self, k: Seq<char>) -> bool {
        texts(self.seen_continuous_keys@).contains(k)
    }

    pub fn new() -> (r: SyntheticKeys)
        ensures
            r.wf(),
            r.down@.len() == 0,
            r.release_next_frame@.len() == 0,
            r.continuous_keys@.len() == 0,
            r.seen_continuous_keys@.len() == 0,
    {
        SyntheticKeys {
            down: Vec::new(),
            release_next_frame: Vec::new(),
            continuous_keys: Vec::new(),
            seen_continuous_keys: Vec::new(),
        }
    }

    /// Holds or releases `key`; a change is sent as a key event, and a released key is no
    /// longer pulsed.
    pub fn set_held(&mut self, key: &str, held: bool, output: &mut Vec<InputEventValue>)
        requires
            old(self).wf(),
        ensures
            final(self).wf(),
            held == old(self).is_down(key@) ==> final(self).down@ == old(self).down@
                && final(self).release_next_frame@ == old(self).release_next_frame@
                && final(output)@ == old(output)@,
            held != old(self).is_down(key@) ==> key_events_view(final(output)@) == key_events_view(
                old(output)@,
            ).push((held, key@)),
            appends_key_events(old(output)@, final(output)@, if held == old(self).is_down(key@) {
                Seq::empty()
            } else {
                seq![(held, key@)]
            }),
            forall|k: Seq<char>| #[trigger] final(self).is_down(k) == (if k == key@ { held } else { old(self).is_down(k) }),
            forall|k: Seq<char>| #[trigger] final(self).pulsed(k) == (old(self).pulsed(k) && !(k == key@ && !held
                && old(self).is_down(key@))),
            old(self).release_next_frame@.len() == 0 ==> final(self).release_next_frame@.len() == 0,
            final(self).continuous_keys@ == old(self).continuous_keys@,
            final(self).seen_continuous_keys@ == old(self).seen_continuous_keys@,
    {
        let is_down = match has_key(&self.down, key) {
            Some(i) => {
                proof {
                    assert(texts(self.down@)[i as int] == key@);
                }
                true
            },
            None => false,
        };
        if held == is_down {
            proof {
                lemma_nothing_added(output@);
            }
            return;
        }
        if held {
            add_key(&mut self.down, key);
        } else {
            drop_key(&mut self.down, key);
            drop_key(&mut self.release_next_frame, key);
        }
        let ghost before = output@;
        output.push(InputEventValue::Keyboard { pressed: Pressed::from_bool(held), key: key.to_owned() });
        proof {
            assert(key_events_view(output@) =~= key_events_view(before).push((held, key@)));
            lemma_push_key_event(before, output@.last());
            assert(before.push(output@.last()) =~= output@);
            assert(key_events_view(before) + seq![(held, key@)] =~= key_events_view(before).push((held, key@)));
            lemma_appends_from_views(before, output@, seq![(held, key@)]);
        }
    }

    /// Holds `key` for this frame only: it is released when the next frame begins.
    pub fn pulse(&mut self, key: &str, output: &mut Vec<InputEventValue>)
        requires
            old(self).wf(),
        ensures
            final(self).wf(),
            old(self).is_down(key@) ==> final(output)@ == old(output)@,
            !old(self).is_down(key@) ==> key_events_view(final(output)@) == key_events_view(old(output)@).push(
                (true, key@),
            ),
            appends_key_events(old(output)@, final(output)@, if old(self).is_down(key@) {
                Seq::empty()
            } else {
                seq![(true, key@)]
            }),
            forall|k: Seq<char>| #[trigger] final(self).is_down(k) == (k == key@ || old(self).is_down(k)),
            forall|k: Seq<char>| #[trigger] final(self).pulsed(k) == (k == key@ || old(self).pulsed(k)),
            final(self).continuous_keys@ == old(self).continuous_keys@,
            final(self).seen_continuous_keys@ == old(self).seen_continuous_keys@,
    {
        self.set_held(key, true, output);
        let ghost mid = *self;
        add_key(&mut self.release_next_frame, key);
        proof {
            assert forall|k: Seq<char>| #[trigger] self.is_down(k) == mid.is_down(k) by {}
            assert forall|k: Seq<char>| #[trigger] self.pulsed(k) == (k == key@ || mid.pulsed(k)) by {}
        }
    }

    /// Starts a frame: nothing is seen yet, and the keys pulsed last frame are released.
    pub fn begin_frame(&mut self, output: &mut Vec<InputEventValue>)
        requires
            old(self).wf(),
        ensures
            final(self).wf(),
            final(self).seen_continuous_keys@.len() == 0,
            final(self).release_next_frame@.len() == 0,
            key_events_view(final(output)@) == key_events_view(old(output)@) + releases(
                held_among(texts(old(self).release_next_frame@), texts(old(self).down@)),
            ),
            appends_key_events(old(output)@, final(output)@, releases(
                held_among(texts(old(self).release_next_frame@), texts(old(self).down@)),
            )),
            forall|k: Seq<char>| #[trigger] final(self).is_down(k) == (old(self).is_down(k) && !old(self).pulsed(k)),
            final(self).continuous_keys@ == old(self).continuous_keys@,
    {
        self.seen_continuous_keys = Vec::new();
        let mut releases_now: Vec<String> = Vec::new();
        std::mem::swap(&mut releases_now, &mut self.release_next_frame);
        let ghost r = texts(releases_now@);
        let ghost down0 = texts(self.down@);
        let ghost out0 = key_events_view(output@);
        proof {
            assert(output@.take(output@.len() as int) =~= output@);
        }
        let mut i: usize = 0;
        while i < releases_now.len()
            invariant
                r == texts(releases_now@),
                r.no_duplicates(),
                0 <= i <= r.len(),
                self.wf(),
                self.seen_continuous_keys@.len() == 0,
                self.release_next_frame@.len() == 0,
                self.continuous_keys@ == old(self).continuous_keys@,
                down0 == texts(old(self).down@),
                r == texts(old(self).release_next_frame@),
                out0 == key_events_view(old(output)@),
                key_events_view(output@) == out0 + releases(held_among(r.take(i as int), down0)),
                only_keys_added(old(output)@, output@),
                forall|k: Seq<char>| #[trigger] self.is_down(k) == (down0.contains(k) && !r.take(i as int).contains(k)),
            decreases r.len() - i,
        {
            let ghost before = key_events_view(output@);
            let ghost key = r[i as int];
            proof {
                assert(releases_now@[i as int]@ == key);
                assert(r.take(i + 1).drop_last() =~= r.take(i as int));
                assert(r.take(i + 1).last() == key);
                assert(!r.take(i as int).contains(key)) by {
                    if r.take(i as int).contains(key) {
                        let j = choose|j: int| 0 <= j < i && #[trigger] r.take(i as int)[j] == key;
                        assert(r[j] == r[i as int]);
                    }
                }
                assert forall|k: Seq<char>| #[trigger] r.take(i + 1).contains(k) <==> (r.take(i as int).contains(k) || k == key) by {
                    if r.take(i + 1).contains(k) {
                        let j = choose|j: int| 0 <= j < i + 1 && #[trigger] r.take(i + 1)[j] == k;
                        if j < i {
                            assert(r.take(i as int)[j] == k);
                        }
                    }
                    if r.take(i as int).contains(k) {
                        let j = choose|j: int| 0 <= j < i && #[trigger] r.take(i as int)[j] == k;
                        assert(r.take(i + 1)[j] == k);
                    }
                    if k == key {
                        assert(r.take(i + 1)[i as int] == k);
                    }
                }
                assert(self.is_down(key) == down0.contains(key));
            }
            let ghost raw = output@;
            self.set_held(releases_now[i].as_str(), false, output);
            proof {
                lemma_only_keys_added_trans(old(output)@, raw, output@);
                assert(releases(held_among(r.take(i + 1), down0)) =~= if down0.contains(key) {
                    releases(held_among(r.take(i as int), down0)).push((false, key))
                } else {
                    releases(held_among(r.take(i as int), down0))
                });
                assert(key_events_view(output@) =~= out0 + releases(held_among(r.take(i + 1), down0)));
            }
            i = i + 1;
        }
        proof {
            assert(r.take(r.len() as int) =~= r);
            lemma_appends_from_views(old(output)@, output@, releases(held_among(r, down0)));
        }
    }

    /// A key that follows a button continuously: it is marked as seen this frame, and
    /// held or released as the button is.
    pub fn set_continuous(&mut self, key: &str, held: bool, output: &mut Vec<InputEventValue>)
        requires
            old(self).wf(),
        ensures
            final(self).wf(),
            forall|k: Seq<char>| #[trigger] final(self).continuous(k) == (k == key@ || old(self).continuous(k)),
            forall|k: Seq<char>| #[trigger] final(self).seen(k) == (k == key@ || old(self).seen(k)),
            forall|k: Seq<char>| #[trigger] final(self).is_down(k) == (if k == key@ { held } else { old(self).is_down(k) }),
            held == old(self).is_down(key@) ==> final(output)@ == old(output)@,
            held != old(self).is_down(key@) ==> key_events_view(final(output)@) == key_events_view(
                old(output)@,
            ).push((held, key@)),
            appends_key_events(old(output)@, final(output)@, if held == old(self).is_down(key@) {
                Seq::empty()
            } else {
                seq![(held, key@)]
            }),
    {
        add_key(&mut self.continuous_keys, key);
        add_key(&mut self.seen_continuous_keys, key);
        self.set_held(key, held, output);
    }

    /// Ends a frame: the continuous keys whose button was not seen are released and
    /// forgotten.
    pub fn end_frame(&mut self, output: &mut Vec<InputEventValue>)
        requires
            old(self).wf(),
        ensures
            final(self).wf(),
            forall|k: Seq<char>| #[trigger] final(self).continuous(k) == (old(self).continuous(k) && old(self).seen(k)),
            forall|k: Seq<char>| #[trigger] final(self).is_down(k) == (old(self).is_down(k) && !(old(self).continuous(k)
                && !old(self).seen(k))),
            key_events_view(final(output)@) == key_events_view(old(output)@) + releases(
                held_among(
                    missing_from(texts(old(self).continuous_keys@), texts(old(self).seen_continuous_keys@)),
                    texts(old(self).down@),
                ),
            ),
            appends_key_events(old(output)@, final(output)@, releases(
                held_among(
                    missing_from(texts(old(self).continuous_keys@), texts(old(self).seen_continuous_keys@)),
                    texts(old(self).down@),
                ),
            )),
    {
        let ghost c0 = texts(self.continuous_keys@);
        let ghost s0 = texts(self.seen_continuous_keys@);
        let ghost down0 = texts(self.down@);
        let ghost out0 = key_events_view(output@);
        let mut missing: Vec<String> = Vec::new();
        let mut i: usize = 0;
        while i < self.continuous_keys.len()
            invariant
                c0 == texts(self.continuous_keys@),
                s0 == texts(self.seen_continuous_keys@),
                0 <= i <= c0.len(),
                texts(missing@) == missing_from(c0.take(i as int), s0),
            decreases c0.len() - i,
        {
            proof {
                assert(c0.take(i + 1).drop_last() =~= c0.take(i as int));
            }
            let found = has_key(&self.seen_continuous_keys, self.continuous_keys[i].as_str());
            proof {
                if let Some(j) = found {
                    assert(s0[j as int] == c0[i as int]);
                }
            }
            if found.is_none() {
                let ghost before = texts(missing@);
                missing.push(self.continuous_keys[i].clone());
                proof {
                    assert(texts(missing@) =~= before.push(c0[i as int]));
                }
            }
            i = i + 1;
        }
        proof {
            assert(c0.take(c0.len() as int) =~= c0);
            lemma_missing_from_facts(c0, s0);
        }
        let ghost m = texts(missing@);
        proof {
            assert(output@.take(output@.len() as int) =~= output@);
        }
        let mut i: usize = 0;
        while i < missing.len()
            invariant
                m == texts(missing@),
                m == missing_from(c0, s0),
                m.no_duplicates(),
                forall|k: Seq<char>| #[trigger] m.contains(k) <==> (c0.contains(k) && !s0.contains(k)),
                0 <= i <= m.len(),
                self.wf(),
                down0 == texts(old(self).down@),
                c0 == texts(old(self).continuous_keys@),
                s0 == texts(old(self).seen_continuous_keys@),
                out0 == key_events_view(old(output)@),
                texts(self.seen_continuous_keys@) == s0,
                key_events_view(output@) == out0 + releases(held_among(m.take(i as int), down0)),
                only_keys_added(old(output)@, output@),
                forall|k: Seq<char>| #[trigger] self.is_down(k) == (down0.contains(k) && !m.take(i as int).contains(k)),
                forall|k: Seq<char>| #[trigger] self.continuous(k) == (c0.contains(k) && !m.take(i as int).contains(k)),
            decreases m.len() - i,
        {
            let ghost key = m[i as int];
            proof {
                assert(missing@[i as int]@ == key);
                assert(m.take(i + 1).drop_last() =~= m.take(i as int));
                assert(m.take(i + 1).last() == key);
                assert(!m.take(i as int).contains(key)) by {
                    if m.take(i as int).contains(key) {
                        let j = choose|j: int| 0 <= j < i && #[trigger] m.take(i as int)[j] == key;
                        assert(m[j] == m[i as int]);
                    }
                }
                assert forall|k: Seq<char>| #[trigger] m.take(i + 1).contains(k) <==> (m.take(i as int).contains(k) || k == key) by {
                    if m.take(i + 1).contains(k) {
                        let j = choose|j: int| 0 <= j < i + 1 && #[trigger] m.take(i + 1)[j] == k;
                        if j < i {
                            assert(m.take(i as int)[j] == k);
                        }
                    }
                    if m.take(i as int).contains(k) {
                        let j = choose|j: int| 0 <= j < i && #[trigger] m.take(i as int)[j] == k;
                        assert(m.take(i + 1)[j] == k);
                    }
                    if k == key {
                        assert(m.take(i + 1)[i as int] == k);
                    }
                }
                assert(self.is_down(key) == down0.contains(key));
            }
            let ghost prev = *self;
            let ghost raw = output@;
            self.set_held(missing[i].as_str(), false, output);
            proof {
                lemma_only_keys_added_trans(old(output)@, raw, output@);
            }
            let ghost mid = *self;
            drop_key(&mut self.continuous_keys, missing[i].as_str());
            proof {
                assert forall|k: Seq<char>| #[trigger] self.is_down(k) == (down0.contains(k) && !m.take(i + 1).contains(k)) by {
                    assert(self.is_down(k) == mid.is_down(k));
                    assert(mid.is_down(k) == (if k == key { false } else { prev.is_down(k) }));
                }
                assert forall|k: Seq<char>| #[trigger] self.continuous(k) == (c0.contains(k) && !m.take(i + 1).contains(k)) by {
                    assert(mid.continuous(k) == prev.continuous(k));
                }
                assert(releases(held_among(m.take(i + 1), down0)) =~= if down0.contains(key) {
                    releases(held_among(m.take(i as int), down0)).push((false, key))
                } else {
                    releases(held_among(m.take(i as int), down0))
                });
                assert(key_events_view(output@) =~= out0 + releases(held_among(m.take(i + 1), down0)));
            }
            i = i + 1;
        }
        proof {
            assert(m.take(m.len() as int) =~= m);
            lemma_appends_from_views(old(output)@, output@, releases(held_among(m, down0)));
        }
    }

    /// Releases every held key, each with a key event, and forgets all the keys.
    pub fn release_all(&mut self, output: &mut Vec<InputEventValue>)
        requires
            old(self).wf(),
        ensures
            final(self).wf(),
            final(self).down@.len() == 0,
            final(self).release_next_frame@.len() == 0,
            final(self).continuous_keys@.len() == 0,
            final(self).seen_continuous_keys@.len() == 0,
            key_events_view(final(output)@) == key_events_view(old(output)@) + releases(texts(old(self).down@)),
            final(output)@.len() == old(output)@.len() + old(self).down@.len(),
            final(output)@.take(old(output)@.len() as int) == old(output)@,
            appends_key_events(old(output)@, final(output)@, releases(texts(old(self).down@))),
    {
        self.release_next_frame = Vec::new();
        self.continuous_keys = Vec::new();
        self.seen_continuous_keys = Vec::new();
        let mut held: Vec<String> = Vec::new();
        std::mem::swap(&mut held, &mut self.down);
        let ghost d = texts(held@);
        let ghost out0 = key_events_view(output@);
        proof {
            assert(output@.take(output@.len() as int) =~= output@);
        }
        let mut i: usize = 0;
        while i < held.len()
            invariant
                d == texts(held@),
                0 <= i <= d.len(),
                out0 == key_events_view(old(output)@),
                d == texts(old(self).down@),
                key_events_view(output@) == out0 + releases(d.take(i as int)),
                output@.len() == old(output)@.len() + i,
                output@.take(old(output)@.len() as int) == old(output)@,
                only_keys_added(old(output)@, output@),
            decreases d.len() - i,
        {
            let ghost before = key_events_view(output@);
            let ghost raw = output@;
            output.push(InputEventValue::Keyboard { pressed: Pressed::No, key: held[i].clone() });
            proof {
                assert(key_events_view(output@) =~= before.push((false, d[i as int])));
                assert(releases(d.take(i + 1)) =~= releases(d.take(i as int)).push((false, d[i as int])));
                assert(output@.take(old(output)@.len() as int) =~= raw.take(old(output)@.len() as int));
                lemma_push_key_event(raw, output@.last());
                assert(raw.push(output@.last()) =~= output@);
                lemma_only_keys_added_trans(old(output)@, raw, output@);
            }
            i = i + 1;
        }
        proof {
            assert(d.take(d.len() as int) =~= d);
            lemma_appends_from_views(old(output)@, output@, releases(d));
        }
    }
}

/// The keys missing from `seen` are distinct where `keys` are, and are exactly those of
/// `keys` not in `seen`.
proof fn lemma_missing_from_facts(keys: Seq<Seq<char>>, seen: Seq<Seq<char>>)
    requires
        keys.no_duplicates(),
    ensures
        missing_from(keys, seen).no_duplicates(),
        forall|k: Seq<char>| #[trigger] missing_from(keys, seen).contains(k) <==> (keys.contains(k) && !seen.contains(k)),
    decreases keys.len(),
{
    if keys.len() > 0 {
        let rest = keys.drop_last();
        assert(rest.no_duplicates());
        lemma_missing_from_facts(rest, seen);
        let m = missing_from(rest, seen);
        let x = keys.last();
        assert(!rest.contains(x)) by {
            if rest.contains(x) {
                let j = choose|j: int| 0 <= j < rest.len() && rest[j] == x;
                assert(keys[j] == keys[keys.len() - 1]);
            }
        }
        assert forall|k: Seq<char>| #[trigger] keys.contains(k) <==> (rest.contains(k) || k == x) by {
            if keys.contains(k) {
                let j = choose|j: int| 0 <= j < keys.len() && keys[j] == k;
                if j < keys.len() - 1 {
                    assert(rest[j] == k);
                }
            }
            if rest.contains(k) {
                let j = choose|j: int| 0 <= j < rest.len() && rest[j] == k;
                assert(keys[j] == k);
            }
            if k == x {
                assert(keys[keys.len() - 1] == k);
            }
        }
        if !seen.contains(x) {
            let mp = m.push(x);
            assert forall|k: Seq<char>| #[trigger] mp.contains(k) <==> (m.contains(k) || k == x) by {
                if mp.contains(k) {
                    let j = choose|j: int| 0 <= j < mp.len() && mp[j] == k;
                    if j < m.len() {
                        assert(m[j] == k);
                    }
                }
                if m.contains(k) {
                    let j = choose|j: int| 0 <= j < m.len() && m[j] == k;
                    assert(mp[j] == k);
                }
                if k == x {
                    assert(mp[m.len() as int] == k);
                }
            }
            assert forall|a: int, b: int| 0 <= a < mp.len() && 0 <= b < mp.len() && a != b implies mp[a] != mp[b] by {
                if a == m.len() {
                    assert(m.contains(mp[b]));
                } else if b == m.len() {
                    assert(m.contains(mp[a]));
                }
            }
        }
    }
}

/// The categories of the panel.
#[derive(Copy, Clone, Debug, PartialEq, Eq, Structural)]
pub enum SimPanelSection {
    Presets,
    ImageScaling,
    Performance,
    Colors,
    GeometryAndTextures,
    Camera,
    CommandModifiers,
    WebGlSettings,
    Extra,
}

/// Which categories of the panel are expanded.
#[derive(Copy, Clone, Debug, PartialEq, Eq, Structural)]
pub struct SectionStates {
    pub presets: bool,
    pub image_scaling: bool,
    pub performance: bool,
    pub colors: bool,
    pub geometry: bool,
    pub camera: bool,
    pub modifiers: bool,
    pub webgl: bool,
    pub extra: bool,
}

impl SectionStates {
    /// The categories expanded at start: the presets and the performance.
    pub fn new() -> (r: SectionStates)
        ensures
            r == (SectionStates {
                presets: true,
                image_scaling: false,
                performance: true,
                colors: false,
                geometry: false,
                camera: false,
                modifiers: false,
                webgl: false,
                extra: false,
            }),
    {
        SectionStates {
            presets: true,
            image_scaling: false,
            performance: true,
            colors: false,
            geometry: false,
            camera: false,
            modifiers: false,
            webgl: false,
            extra: false,
        }
    }

    /// Whether the category `section` is expanded.
    pub open spec fn is_open(self, section: SimPanelSection) -> bool {
        match section {
            SimPanelSection::Presets => self.presets,
            SimPanelSection::ImageScaling => self.image_scaling,
            SimPanelSection::Performance => self.performance,
            SimPanelSection::Colors => self.colors,
            SimPanelSection::GeometryAndTextures => self.geometry,
            SimPanelSection::Camera => self.camera,
            SimPanelSection::CommandModifiers => self.modifiers,
            SimPanelSection::WebGlSettings => self.webgl,
            SimPanelSection::Extra => self.extra,
        }
    }

    /// Expands the category `section` and collapses all the others.
    pub fn open_only(&mut self, section: SimPanelSection)
        ensures
            forall|s: SimPanelSection| #[trigger] final(self).is_open(s) == (s == section),
    {
        *self = SectionStates {
            presets: section == SimPanelSection::Presets,
            image_scaling: section == SimPanelSection::ImageScaling,
            performance: section == SimPanelSection::Performance,
            colors: section == SimPanelSection::Colors,
            geometry: section == SimPanelSection::GeometryAndTextures,
            camera: section == SimPanelSection::Camera,
            modifiers: section == SimPanelSection::CommandModifiers,
            webgl: section == SimPanelSection::WebGlSettings,
            extra: section == SimPanelSection::Extra,
        };
    }
}

/// The error of a value sent to a controller event that does not set a value.
pub open spec fn not_a_set_event(event_tag: Seq<char>) -> Seq<char> {
    event_tag + " is not a set event"@
}

/// The error of a value sent to an event no controller has.
pub open spec fn unknown_controller_event(event_tag: Seq<char>) -> Seq<char> {
    "unknown controller event "@ + event_tag
}

/// Where the panel routes a value it sets on a controller: the index of the controller
/// whose event `event_tag` sets a value.
pub fn route_controller_index(events: &ControllerEvents, event_tag: &str) -> (r: Result<usize, String>)
    ensures
        match event_of(events.view_entries(), event_tag@) {
            Some((KeyEventKind::SetValue, index)) => r == Ok::<usize, String>(index),
            Some(_) => r matches Err(e) && e@ == not_a_set_event(event_tag@),
            None => r matches Err(e) && e@ == unknown_controller_event(event_tag@),
        },
{
    match events.get(event_tag) {
        Some((KeyEventKind::SetValue, index)) => Ok(index),
        Some(_) => Err(concat(event_tag, " is not a set event")),
        None => Err(concat("unknown controller event ", event_tag)),
    }
}

} // verus!
