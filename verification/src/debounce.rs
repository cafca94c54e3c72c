use vstd::prelude::*;

use crate::hotkey::Key;
use crate::key_code::lemma_raw_spec_bound;
use crate::key_code::lemma_raw_spec_injective;
use crate::key_code::KeyCode;

verus! {

/// Number of per-key held slots; a key's slot is its raw hardware code.
pub const KEY_SLOTS: usize = 255;

/// The held flags after one raw transition. A press marks the key held; a
/// release always clears the mark, whatever its prior state.
pub open spec fn held_after(held: Seq<bool>, code: KeyCode, down: bool) -> Seq<bool> {
    let i = code.raw_spec() as int;
    if down {
        if held[i] {
            held
        } else {
            held.update(i, true)
        }
    } else {
        held.update(i, false)
    }
}

/// The semantic event one raw transition produces. A press of a key already
/// marked held is OS key-repeat auto-fire and produces nothing; a release
/// always produces `Release`, even with no matching press on record.
pub open spec fn emitted(held: Seq<bool>, code: KeyCode, down: bool) -> Option<Key> {
    if down {
        if held[code.raw_spec() as int] {
            None
        } else {
            Some(Key::Press(code))
        }
    } else {
        Some(Key::Release(code))
    }
}

/// The held flags after a whole sequence of raw transitions, oldest first.
pub open spec fn run_held(held: Seq<bool>, evs: Seq<(KeyCode, bool)>) -> Seq<bool>
    decreases evs.len(),
{
    if evs.len() == 0 {
        held
    } else {
        run_held(held_after(held, evs[0].0, evs[0].1), evs.drop_first())
    }
}

/// The semantic events a whole sequence of raw transitions produces, in the
/// order the transitions were observed.
pub open spec fn run_emitted(held: Seq<bool>, evs: Seq<(KeyCode, bool)>) -> Seq<Key>
    decreases evs.len(),
{
    if evs.len() == 0 {
        Seq::empty()
    } else {
        let rest = run_emitted(held_after(held, evs[0].0, evs[0].1), evs.drop_first());
        match emitted(held, evs[0].0, evs[0].1) {
            Some(k) => seq![k] + rest,
            None => rest,
        }
    }
}

/// How many entries of `out` equal the event `k`.
pub open spec fn count_key(out: Seq<Key>, k: Key) -> nat
    decreases out.len(),
{
    if out.len() == 0 {
        0
    } else {
        (if out[0] == k {
            1nat
        } else {
            0nat
        }) + count_key(out.drop_first(), k)
    }
}

/// How many raw release notifications for `code` the input holds.
pub open spec fn count_releases(evs: Seq<(KeyCode, bool)>, code: KeyCode) -> nat
    decreases evs.len(),
{
    if evs.len() == 0 {
        0
    } else {
        (if evs[0] == (code, false) {
            1nat
        } else {
            0nat
        }) + count_releases(evs.drop_first(), code)
    }
}

proof fn lemma_count_key_cons(k0: Key, rest: Seq<Key>, k: Key)
    ensures
        count_key(seq![k0] + rest, k) == (if k0 == k {
            1nat
        } else {
            0nat
        }) + count_key(rest, k),
{
    let s = seq![k0] + rest;
    assert(s[0] == k0);
    assert(s.drop_first() =~= rest);
}

/// Repeat suppression: a run of raw press notifications for one key with no
/// intervening release produces at most one `Press` event — exactly one when
/// the key was not already held, and none at all when it was.
pub proof fn lemma_repeat_suppression(held: Seq<bool>, code: KeyCode, evs: Seq<(KeyCode, bool)>)
    requires
        held.len() == KEY_SLOTS,
        forall|i: int| 0 <= i < evs.len() ==> evs[i] == (code, true),
    ensures
        run_emitted(held, evs) == if evs.len() == 0 || held[code.raw_spec() as int] {
            Seq::<Key>::empty()
        } else {
            seq![Key::Press(code)]
        },
        count_key(run_emitted(held, evs), Key::Press(code)) <= 1,
    decreases evs.len(),
{
    lemma_raw_spec_bound(code);
    assert(count_key(seq![Key::Press(code)], Key::Press(code)) == 1) by {
        let s = seq![Key::Press(code)];
        assert(s[0] == Key::Press(code));
        assert(s.drop_first() =~= Seq::<Key>::empty());
        assert(count_key(Seq::<Key>::empty(), Key::Press(code)) == 0);
    }
    if evs.len() != 0 {
        assert(evs[0] == (code, true));
        let held1 = held_after(held, code, true);
        assert(held1[code.raw_spec() as int]);
        assert forall|i: int| 0 <= i < evs.drop_first().len() implies evs.drop_first()[i] == (
            code,
            true,
        ) by {
            assert(evs.drop_first()[i] == evs[i + 1]);
        }
        lemma_repeat_suppression(held1, code, evs.drop_first());
        if held[code.raw_spec() as int] {
            assert(run_emitted(held, evs) =~= Seq::<Key>::empty());
        } else {
            assert(run_emitted(held, evs) =~= seq![Key::Press(code)]);
        }
    }
}

/// No release suppression: each raw release notification for a key produces
/// exactly one `Release` event for it, whatever the held flags say.
pub proof fn lemma_release_preservation(
    held: Seq<bool>,
    code: KeyCode,
    evs: Seq<(KeyCode, bool)>,
)
    ensures
        count_key(run_emitted(held, evs), Key::Release(code)) == count_releases(evs, code),
    decreases evs.len(),
{
    if evs.len() != 0 {
        let held1 = held_after(held, evs[0].0, evs[0].1);
        let rest = run_emitted(held1, evs.drop_first());
        lemma_release_preservation(held1, code, evs.drop_first());
        match emitted(held, evs[0].0, evs[0].1) {
            Some(k) => {
                lemma_count_key_cons(k, rest, Key::Release(code));
            },
            None => {},
        }
    }
}

/// Order preservation: the events of an earlier batch of raw notifications
/// precede those of any later batch, and the later batch is interpreted from
/// the held flags the earlier one left behind. With the single FIFO event
/// channel this pins the delivery order to the generation order.
pub proof fn lemma_run_order(
    held: Seq<bool>,
    evs1: Seq<(KeyCode, bool)>,
    evs2: Seq<(KeyCode, bool)>,
)
    ensures
        run_held(held, evs1 + evs2) == run_held(run_held(held, evs1), evs2),
        run_emitted(held, evs1 + evs2) == run_emitted(held, evs1) + run_emitted(
            run_held(held, evs1),
            evs2,
        ),
    decreases evs1.len(),
{
    if evs1.len() == 0 {
        assert(evs1 + evs2 =~= evs2);
        assert(run_emitted(held, evs1) + run_emitted(held, evs2) =~= run_emitted(held, evs2));
    } else {
        let held1 = held_after(held, evs1[0].0, evs1[0].1);
        assert((evs1 + evs2)[0] == evs1[0]);
        assert((evs1 + evs2).drop_first() =~= evs1.drop_first() + evs2);
        lemma_run_order(held1, evs1.drop_first(), evs2);
        let a = run_emitted(held1, evs1.drop_first());
        let b = run_emitted(run_held(held1, evs1.drop_first()), evs2);
        match emitted(held, evs1[0].0, evs1[0].1) {
            Some(k) => {
                assert(seq![k] + (a + b) =~= (seq![k] + a) + b);
            },
            None => {},
        }
    }
}

/// Per-key "currently held" flags that suppress the duplicate press
/// notifications generated by OS key-repeat auto-fire, while always
/// forwarding release notifications.
pub struct DebounceState {
    held: Vec<bool>,
}

impl View for DebounceState {
    type V = Seq<bool>;

    closed spec fn view(&self) -> Seq<bool> {
        self.held@
    }
}

impl DebounceState {
    pub open spec fn well_formed(self) -> bool {
        self@.len() == KEY_SLOTS
    }

    /// A fresh state with no key held.
    pub fn new() -> (s: DebounceState)
        ensures
            s.well_formed(),
            forall|i: int| 0 <= i < s@.len() ==> !s@[i],
    {
        DebounceState { held: vec![false; KEY_SLOTS] }
    }

    /// One raw transition for a recognized key: update the held flag and
    /// derive the semantic event, if any, exactly as `held_after` and
    /// `emitted` describe.
    pub fn on_transition(&mut self, code: KeyCode, down: bool) -> (r: Option<Key>)
        requires
            old(self).well_formed(),
        ensures
            final(self).well_formed(),
            final(self)@ == held_after(old(self)@, code, down),
            r == emitted(old(self)@, code, down),
    {
        proof {
            lemma_raw_spec_bound(code);
        }
        let i = code.raw_value() as usize;
        if down {
            if self.held[i] {
                None
            } else {
                self.held[i] = true;
                Some(Key::Press(code))
            }
        } else {
            self.held[i] = false;
            Some(Key::Release(code))
        }
    }

    /// One raw transition straight from the platform notification: a raw
    /// code outside the recognized set produces nothing and leaves the
    /// state untouched; a recognized one behaves as `on_transition`.
    pub fn on_raw_transition(&mut self, raw: u32, down: bool) -> (r: Option<Key>)
        requires
            old(self).well_formed(),
        ensures
            final(self).well_formed(),
            (forall|k: KeyCode| #[trigger] k.raw_spec() as u32 != raw) ==> r is None
                && final(self)@ == old(self)@,
            forall|k: KeyCode| #[trigger] k.raw_spec() as u32 == raw ==> final(self)@
                == held_after(old(self)@, k, down) && r == emitted(old(self)@, k, down),
    {
        if raw <= 0xff {
            match KeyCode::from_raw(raw as u8) {
                Some(code) => {
                    let r = self.on_transition(code, down);
                    proof {
                        assert forall|k: KeyCode| #[trigger] k.raw_spec() as u32 == raw implies
                            final(self)@ == held_after(old(self)@, k, down)
                            && r == emitted(old(self)@, k, down) by {
                            lemma_raw_spec_injective(code, k);
                        }
                    }
                    r
                },
                None => None,
            }
        } else {
            None
        }
    }
}

} // verus!
