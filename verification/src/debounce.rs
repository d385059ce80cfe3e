//! Per-button rising-edge cooldown (a standard double-click / bounce filter).
//!
//! A press is accepted only if that same button has not been accepted within
//! the configured window. Releases always pass through immediately, so a held
//! button is never locked and a human mash whose interval is longer than the
//! window is not dropped.
//!
//! Time is a monotonic clock reading in nanoseconds; only differences between
//! readings matter.

use vstd::prelude::*;

use crate::bits::{has_bit, lemma_bit_ops, lemma_bits_ext, lemma_single_bit, lemma_subset_bits};
use crate::config::AntiDoubleClickConfig;

verus! {

/// Number of button bits in a state packet.
pub const BUTTON_COUNT: usize = 16;

/// Length of the cooldown window in nanoseconds.
pub open spec fn window_ns(cfg: AntiDoubleClickConfig) -> int {
    cfg.window_ms as int * 1_000_000
}

/// Time from `then` to `now`, or zero when `now` is not after `then`.
pub open spec fn elapsed(now: u64, then: u64) -> int {
    if now >= then {
        now - then
    } else {
        0
    }
}

/// Whether a press at `now` falls inside the window of the last accepted one.
pub open spec fn pressed_too_soon(last: Option<u64>, now: u64, cfg: AntiDoubleClickConfig) -> bool {
    match last {
        Some(t) => elapsed(now, t) < window_ns(cfg),
        None => false,
    }
}

/// The abstract state of a debouncer.
pub struct DebouncerView {
    /// Buttons as they were physically reported last time.
    pub last_physical: u16,
    /// Buttons held down physically whose press was dropped.
    pub suppressed: u16,
    /// For each button, when its last press was accepted.
    pub last_accepted_press: Seq<Option<u64>>,
}

impl DebouncerView {
    /// A dropped press is only remembered while the button stays down.
    pub open spec fn wf(self) -> bool {
        &&& self.last_accepted_press.len() == BUTTON_COUNT
        &&& self.suppressed & !self.last_physical == 0
    }

    /// Button `i` went down with this report.
    pub open spec fn is_rising(self, buttons: u16, i: u16) -> bool {
        has_bit(buttons, i) && !has_bit(self.last_physical, i)
    }

    /// Button `i` went up with this report.
    pub open spec fn is_falling(self, buttons: u16, i: u16) -> bool {
        !has_bit(buttons, i) && has_bit(self.last_physical, i)
    }

    /// Whether button `i` is held back after a report of `buttons` at `now`.
    pub open spec fn suppressed_after(
        self,
        buttons: u16,
        cfg: AntiDoubleClickConfig,
        now: u64,
        i: u16,
    ) -> bool {
        &&& cfg.is_active()
        &&& has_bit(cfg.buttons, i)
        &&& {
            ||| has_bit(self.suppressed, i) && !self.is_falling(buttons, i)
            ||| self.is_rising(buttons, i) && pressed_too_soon(
                self.last_accepted_press[i as int],
                now,
                cfg,
            )
        }
    }

    /// Whether a report of `buttons` at `now` is an accepted new press of button `i`.
    pub open spec fn accepts_press(
        self,
        buttons: u16,
        cfg: AntiDoubleClickConfig,
        now: u64,
        i: u16,
    ) -> bool {
        &&& cfg.is_active()
        &&& has_bit(cfg.buttons, i)
        &&& self.is_rising(buttons, i)
        &&& !pressed_too_soon(self.last_accepted_press[i as int], now, cfg)
    }

    /// `post` and `out` are the state and the output after a report of
    /// `buttons` at `now`, starting from `self`.
    pub open spec fn step(
        self,
        buttons: u16,
        cfg: AntiDoubleClickConfig,
        now: u64,
        post: DebouncerView,
        out: u16,
    ) -> bool {
        &&& post.last_physical == buttons
        &&& post.last_accepted_press.len() == BUTTON_COUNT
        &&& forall|i: u16|
            i < 16 ==> {
                &&& #[trigger] has_bit(post.suppressed, i) == self.suppressed_after(
                    buttons,
                    cfg,
                    now,
                    i,
                )
                &&& post.last_accepted_press[i as int] == if self.accepts_press(
                    buttons,
                    cfg,
                    now,
                    i,
                ) {
                    Some(now)
                } else {
                    self.last_accepted_press[i as int]
                }
                &&& has_bit(out, i) == (has_bit(buttons, i) && !self.suppressed_after(
                    buttons,
                    cfg,
                    now,
                    i,
                ))
            }
    }

    /// The state of a fresh debouncer.
    pub open spec fn initial() -> DebouncerView {
        DebouncerView {
            last_physical: 0,
            suppressed: 0,
            last_accepted_press: Seq::new(BUTTON_COUNT as nat, |i: int| None),
        }
    }
}

/// Filters the button word of each state packet of one slot.
#[derive(Debug)]
pub struct ButtonDebouncer {
    last_physical: u16,
    suppressed: u16,
    last_accepted_press: [Option<u64>; 16],
}

impl View for ButtonDebouncer {
    type V = DebouncerView;

    closed spec fn view(&self) -> DebouncerView {
        DebouncerView {
            last_physical: self.last_physical,
            suppressed: self.suppressed,
            last_accepted_press: self.last_accepted_press@,
        }
    }
}

impl ButtonDebouncer {
    #[verifier::type_invariant]
    spec fn inv(self) -> bool {
        self.suppressed & !self.last_physical == 0
    }

    /// Forgets every press and release seen so far.
    pub fn reset(&mut self)
        ensures
            final(self)@ == DebouncerView::initial(),
    {
        *self = Self::default();
    }

    /// Filters one button word reported at `now_ns` and returns the buttons
    /// to present to the host.
    pub fn apply(&mut self, buttons: u16, cfg: &AntiDoubleClickConfig, now_ns: u64) -> (out: u16)
        ensures
            old(self)@.step(buttons, *cfg, now_ns, final(self)@, out),
            final(self)@.wf(),
    {
        proof {
            use_type_invariant(&*self);
        }
        let ghost pre = self@;
        if !cfg.enabled || cfg.buttons == 0 || cfg.window_ms == 0 {
            proof {
                assert forall|i: u16| i < 16 implies #[trigger] has_bit(0u16, i) == false by {
                    lemma_bit_ops(0u16, 0u16, i);
                }
                lemma_subset_bits(0u16, buttons);
            }
            *self = ButtonDebouncer {
                last_physical: buttons,
                suppressed: 0,
                last_accepted_press: self.last_accepted_press,
            };
            return buttons;
        }
        let window: u64 = cfg.window_ms as u64 * 1_000_000;
        let mask = cfg.buttons;
        let rising = buttons & !self.last_physical;
        let falling = self.last_physical & !buttons;
        let remaining = rising & mask;
        let mut suppressed = (self.suppressed & !falling) & mask;
        let mut accepted = self.last_accepted_press;
        proof {
            assert forall|j: u16| j < 16 implies #[trigger] has_bit(remaining, j) == (
            pre.is_rising(buttons, j) && has_bit(mask, j)) by {
                lemma_bit_ops(buttons, !pre.last_physical, j);
                lemma_bit_ops(rising, mask, j);
                lemma_bit_ops(pre.last_physical, pre.last_physical, j);
            }
            assert forall|j: u16| j < 16 implies #[trigger] has_bit(suppressed, j) == (has_bit(
                pre.suppressed,
                j,
            ) && !pre.is_falling(buttons, j) && has_bit(mask, j)) by {
                lemma_bit_ops(buttons, !pre.last_physical, j);
                lemma_bit_ops(pre.last_physical, !buttons, j);
                lemma_bit_ops(rising, mask, j);
                lemma_bit_ops(pre.suppressed, !falling, j);
                lemma_bit_ops(pre.suppressed & !falling, mask, j);
                lemma_bit_ops(buttons, buttons, j);
                lemma_bit_ops(pre.last_physical, pre.last_physical, j);
                lemma_bit_ops(falling, falling, j);
            }
        }
        proof {
            lemma_subset_bits(pre.suppressed, pre.last_physical);
        }
        let mut i: u16 = 0;
        while i < 16
            invariant
                0 <= i <= 16,
                pre.last_accepted_press.len() == 16,
                cfg.is_active(),
                mask == cfg.buttons,
                window == window_ns(*cfg),
                forall|j: u16|
                    j < 16 ==> #[trigger] has_bit(remaining, j) == (pre.is_rising(buttons, j)
                        && has_bit(mask, j)),
                forall|j: u16|
                    j < 16 ==> #[trigger] has_bit(suppressed, j) == if j < i {
                        pre.suppressed_after(buttons, *cfg, now_ns, j)
                    } else {
                        has_bit(pre.suppressed, j) && !pre.is_falling(buttons, j) && has_bit(
                            mask,
                            j,
                        )
                    },
                accepted@.len() == 16,
                forall|j: u16|
                    j < 16 && #[trigger] has_bit(pre.suppressed, j) ==> has_bit(
                        pre.last_physical,
                        j,
                    ),
                forall|j: int|
                    0 <= j < 16 ==> #[trigger] accepted@[j] == if j < i && pre.accepts_press(
                        buttons,
                        *cfg,
                        now_ns,
                        j as u16,
                    ) {
                        Some(now_ns)
                    } else {
                        pre.last_accepted_press[j]
                    },
            decreases 16 - i,
        {
            let bit: u16 = 1u16 << i;
            proof {
                assert forall|j: u16| j < 16 implies #[trigger] has_bit(remaining & bit, j) == (
                has_bit(remaining, j) && j == i) by {
                    lemma_bit_ops(remaining, bit, j);
                    lemma_single_bit(i, j);
                }
            }
            if remaining & bit != 0 {
                let too_soon = match accepted[i as usize] {
                    Some(t) => now_ns.saturating_sub(t) < window,
                    None => false,
                };
                assert(too_soon == pressed_too_soon(pre.last_accepted_press[i as int], now_ns, *cfg));
                proof {
                    if !has_bit(remaining, i) {
                        assert forall|j: u16| j < 16 implies #[trigger] has_bit(remaining & bit, j)
                            == has_bit(0u16, j) by {
                            lemma_bit_ops(0u16, 0u16, j);
                        }
                        lemma_bits_ext(remaining & bit, 0u16);
                    }
                }
                if too_soon {
                    let ghost before = suppressed;
                    suppressed = suppressed | bit;
                    proof {
                        assert forall|j: u16| j < 16 implies #[trigger] has_bit(suppressed, j) == (
                        has_bit(before, j) || j == i) by {
                            lemma_bit_ops(before, bit, j);
                            lemma_single_bit(i, j);
                        }
                    }
                } else {
                    accepted[i as usize] = Some(now_ns);
                }
            } else {
                proof {
                    if has_bit(remaining, i) {
                        assert(has_bit(remaining & bit, i));
                        lemma_bit_ops(0u16, 0u16, i);
                    }
                }
            }
            i = i + 1;
        }
        let out = buttons & !(suppressed & mask);
        proof {
            assert forall|j: u16| j < 16 implies #[trigger] has_bit(out, j) == (has_bit(buttons, j)
                && !pre.suppressed_after(buttons, *cfg, now_ns, j)) by {
                lemma_bit_ops(suppressed, mask, j);
                lemma_bit_ops(buttons, !(suppressed & mask), j);
                lemma_bit_ops(suppressed & mask, suppressed & mask, j);
            }
            assert forall|j: u16| j < 16 && #[trigger] has_bit(suppressed, j) implies has_bit(
                buttons,
                j,
            ) by {
                lemma_bit_ops(pre.suppressed, !pre.last_physical, j);
                lemma_bit_ops(pre.last_physical, pre.last_physical, j);
                lemma_bit_ops(0u16, 0u16, j);
            }
            lemma_subset_bits(suppressed, buttons);
        }
        *self = ButtonDebouncer {
            last_physical: buttons,
            suppressed,
            last_accepted_press: accepted,
        };
        out
    }
}

impl Clone for ButtonDebouncer {
    fn clone(&self) -> (c: Self)
        ensures
            c@ == self@,
    {
        proof {
            use_type_invariant(self);
        }
        ButtonDebouncer {
            last_physical: self.last_physical,
            suppressed: self.suppressed,
            last_accepted_press: self.last_accepted_press,
        }
    }
}

impl Default for ButtonDebouncer {
    fn default() -> (d: Self)
        ensures
            d@ == DebouncerView::initial(),
    {
        assert(0u16 & !0u16 == 0u16) by (bit_vector);
        let d = ButtonDebouncer { last_physical: 0, suppressed: 0, last_accepted_press: [None; 16] };
        assert(d.last_accepted_press@ =~= DebouncerView::initial().last_accepted_press);
        d
    }
}

} // verus!

verus! {

/// A button that is up in the report is up in the output: releases are never
/// delayed, and a dropped press is forgotten once the button is released.
pub proof fn lemma_releases_pass_through(
    pre: DebouncerView,
    buttons: u16,
    cfg: AntiDoubleClickConfig,
    now: u64,
    post: DebouncerView,
    out: u16,
)
    requires
        pre.wf(),
        pre.step(buttons, cfg, now, post, out),
    ensures
        out & !buttons == 0,
        forall|i: u16| i < 16 && !has_bit(buttons, i) ==> !#[trigger] has_bit(post.suppressed, i),
{
    assert forall|i: u16| i < 16 && #[trigger] has_bit(out, i) implies has_bit(buttons, i) by {
        assert(has_bit(post.suppressed, i) == pre.suppressed_after(buttons, cfg, now, i));
    }
    lemma_subset_bits(out, buttons);
    lemma_subset_bits(pre.suppressed, pre.last_physical);
    assert forall|i: u16| i < 16 && !has_bit(buttons, i) implies !#[trigger] has_bit(
        post.suppressed,
        i,
    ) by {
        assert(has_bit(post.suppressed, i) == pre.suppressed_after(buttons, cfg, now, i));
    }
}

/// Buttons outside the filter's mask are reported exactly as they arrive.
pub proof fn lemma_unfiltered_buttons_pass_through(
    pre: DebouncerView,
    buttons: u16,
    cfg: AntiDoubleClickConfig,
    now: u64,
    post: DebouncerView,
    out: u16,
)
    requires
        pre.step(buttons, cfg, now, post, out),
    ensures
        out & !cfg.buttons == buttons & !cfg.buttons,
{
    assert forall|i: u16| i < 16 implies #[trigger] has_bit(out & !cfg.buttons, i) == has_bit(
        buttons & !cfg.buttons,
        i,
    ) by {
        assert(has_bit(post.suppressed, i) == pre.suppressed_after(buttons, cfg, now, i));
        lemma_bit_ops(out, !cfg.buttons, i);
        lemma_bit_ops(buttons, !cfg.buttons, i);
        lemma_bit_ops(cfg.buttons, cfg.buttons, i);
    }
    lemma_bits_ext(out & !cfg.buttons, buttons & !cfg.buttons);
}

/// A disabled filter (or one with an empty mask or a zero window) passes the
/// report through, holds nothing back and forgets no accepted press.
pub proof fn lemma_inactive_is_passthrough(
    pre: DebouncerView,
    buttons: u16,
    cfg: AntiDoubleClickConfig,
    now: u64,
    post: DebouncerView,
    out: u16,
)
    requires
        pre.step(buttons, cfg, now, post, out),
        pre.last_accepted_press.len() == BUTTON_COUNT,
        !cfg.is_active(),
    ensures
        out == buttons,
        post.suppressed == 0,
        post.last_accepted_press == pre.last_accepted_press,
{
    assert forall|i: u16| i < 16 implies #[trigger] has_bit(out, i) == has_bit(buttons, i) by {
        assert(has_bit(post.suppressed, i) == pre.suppressed_after(buttons, cfg, now, i));
    }
    lemma_bits_ext(out, buttons);
    assert forall|i: u16| i < 16 implies #[trigger] has_bit(post.suppressed, i) == has_bit(
        0u16,
        i,
    ) by {
        lemma_bit_ops(0u16, 0u16, i);
    }
    lemma_bits_ext(post.suppressed, 0u16);
    assert forall|k: int| 0 <= k < 16 implies #[trigger] post.last_accepted_press[k]
        == pre.last_accepted_press[k] by {
        let i = k as u16;
        assert(has_bit(post.suppressed, i) == pre.suppressed_after(buttons, cfg, now, i));
    }
    assert(post.last_accepted_press =~= pre.last_accepted_press);
}

/// Holding the same buttons is never a new press: a second report of the same
/// word, at any later time and with the same settings, gives the same output
/// and leaves the state unchanged. In particular a dropped press stays
/// reported as released until the button is physically released.
pub proof fn lemma_hold_keeps_output(
    s0: DebouncerView,
    buttons: u16,
    cfg: AntiDoubleClickConfig,
    t1: u64,
    s1: DebouncerView,
    out1: u16,
    t2: u64,
    s2: DebouncerView,
    out2: u16,
)
    requires
        s0.step(buttons, cfg, t1, s1, out1),
        s1.step(buttons, cfg, t2, s2, out2),
    ensures
        out2 == out1,
        s2 == s1,
{
    assert forall|i: u16| i < 16 implies #[trigger] has_bit(s2.suppressed, i) == has_bit(
        s1.suppressed,
        i,
    ) by {
        assert(has_bit(s1.suppressed, i) == s0.suppressed_after(buttons, cfg, t1, i));
        assert(has_bit(s2.suppressed, i) == s1.suppressed_after(buttons, cfg, t2, i));
    }
    lemma_bits_ext(s2.suppressed, s1.suppressed);
    assert forall|i: u16| i < 16 implies #[trigger] has_bit(out2, i) == has_bit(out1, i) by {
        assert(has_bit(s1.suppressed, i) == s0.suppressed_after(buttons, cfg, t1, i));
        assert(has_bit(s2.suppressed, i) == s1.suppressed_after(buttons, cfg, t2, i));
    }
    lemma_bits_ext(out2, out1);
    assert forall|k: int| 0 <= k < 16 implies #[trigger] s2.last_accepted_press[k]
        == s1.last_accepted_press[k] by {
        let i = k as u16;
        assert(has_bit(s2.suppressed, i) == s1.suppressed_after(buttons, cfg, t2, i));
    }
    assert(s2.last_accepted_press =~= s1.last_accepted_press);
}

/// A new press of a filtered button is reported exactly when no press of that
/// button was accepted within the window before it; an accepted press is
/// remembered at the time it arrived.
pub proof fn lemma_press_accepted_iff_outside_window(
    pre: DebouncerView,
    buttons: u16,
    cfg: AntiDoubleClickConfig,
    now: u64,
    post: DebouncerView,
    out: u16,
    i: u16,
)
    requires
        pre.wf(),
        pre.step(buttons, cfg, now, post, out),
        cfg.is_active(),
        i < 16,
        has_bit(cfg.buttons, i),
        pre.is_rising(buttons, i),
    ensures
        has_bit(out, i) == !pressed_too_soon(pre.last_accepted_press[i as int], now, cfg),
        has_bit(out, i) ==> post.last_accepted_press[i as int] == Some(now),
        !has_bit(out, i) ==> post.last_accepted_press[i as int] == pre.last_accepted_press[i as int],
{
    lemma_subset_bits(pre.suppressed, pre.last_physical);
    assert(has_bit(post.suppressed, i) == pre.suppressed_after(buttons, cfg, now, i));
}

} // verus!

verus! {

/// A step keeps the state well formed: a dropped press is only remembered
/// while its button is down.
pub proof fn lemma_step_preserves_wf(
    pre: DebouncerView,
    buttons: u16,
    cfg: AntiDoubleClickConfig,
    now: u64,
    post: DebouncerView,
    out: u16,
)
    requires
        pre.wf(),
        pre.step(buttons, cfg, now, post, out),
    ensures
        post.wf(),
{
    lemma_releases_pass_through(pre, buttons, cfg, now, post, out);
    assert forall|i: u16| i < 16 && #[trigger] has_bit(post.suppressed, i) implies has_bit(
        post.last_physical,
        i,
    ) by {}
    lemma_subset_bits(post.suppressed, post.last_physical);
}

/// Tapping a filtered button, releasing it and pressing it again: the second
/// press is reported exactly when it comes at least one window after the
/// first accepted press. A ghost press inside the window is dropped; a human
/// mash slower than the window is kept.
pub proof fn lemma_second_tap_needs_a_full_window(
    s0: DebouncerView,
    cfg: AntiDoubleClickConfig,
    i: u16,
    b1: u16,
    t1: u64,
    s1: DebouncerView,
    out1: u16,
    b2: u16,
    t2: u64,
    s2: DebouncerView,
    out2: u16,
    b3: u16,
    t3: u64,
    s3: DebouncerView,
    out3: u16,
)
    requires
        s0.wf(),
        cfg.is_active(),
        i < 16,
        has_bit(cfg.buttons, i),
        s0.is_rising(b1, i),
        s0.step(b1, cfg, t1, s1, out1),
        has_bit(out1, i),
        !has_bit(b2, i),
        s1.step(b2, cfg, t2, s2, out2),
        has_bit(b3, i),
        s2.step(b3, cfg, t3, s3, out3),
    ensures
        has_bit(out3, i) == (elapsed(t3, t1) >= window_ns(cfg)),
{
    lemma_press_accepted_iff_outside_window(s0, b1, cfg, t1, s1, out1, i);
    lemma_step_preserves_wf(s0, b1, cfg, t1, s1, out1);
    assert(s2.last_accepted_press[i as int] == s1.last_accepted_press[i as int]) by {
        assert(has_bit(s2.suppressed, i) == s1.suppressed_after(b2, cfg, t2, i));
    }
    lemma_step_preserves_wf(s1, b2, cfg, t2, s2, out2);
    assert(s2.is_rising(b3, i));
    lemma_press_accepted_iff_outside_window(s2, b3, cfg, t3, s3, out3, i);
}

} // verus!

verus! {

/// The buttons reported before call `k` of a history: none before the first.
pub open spec fn prev_buttons(buttons: Seq<u16>, k: int) -> u16 {
    if k <= 0 {
        0
    } else {
        buttons[k - 1]
    }
}

/// Call `j` of a history was an accepted press of button `i`: the button went
/// down with that report and was reported down.
pub open spec fn accepted_at(buttons: Seq<u16>, outs: Seq<u16>, j: int, i: u16) -> bool {
    &&& has_bit(buttons[j], i)
    &&& !has_bit(prev_buttons(buttons, j), i)
    &&& has_bit(outs[j], i)
}

/// `states` and `outs` are what a fresh debouncer goes through when it is
/// handed `buttons[k]` at `times[k]` for each `k` in turn, with settings `cfg`.
pub open spec fn is_history(
    cfg: AntiDoubleClickConfig,
    buttons: Seq<u16>,
    times: Seq<u64>,
    states: Seq<DebouncerView>,
    outs: Seq<u16>,
) -> bool {
    &&& times.len() == buttons.len()
    &&& outs.len() == buttons.len()
    &&& states.len() == buttons.len() + 1
    &&& states[0] == DebouncerView::initial()
    &&& forall|k: int|
        0 <= k < buttons.len() ==> #[trigger] states[k].step(
            buttons[k],
            cfg,
            times[k],
            states[k + 1],
            outs[k],
        )
}

/// The time of the last accepted press of button `i` before call `k`.
pub open spec fn last_accepted(
    buttons: Seq<u16>,
    outs: Seq<u16>,
    times: Seq<u64>,
    i: u16,
    k: int,
) -> Option<u64>
    decreases k,
{
    if k <= 0 {
        None
    } else if accepted_at(buttons, outs, k - 1, i) {
        Some(times[k - 1])
    } else {
        last_accepted(buttons, outs, times, i, k - 1)
    }
}

/// `last_accepted` names the latest accepted press, or none when there was none.
proof fn lemma_last_accepted_is_latest(
    buttons: Seq<u16>,
    outs: Seq<u16>,
    times: Seq<u64>,
    i: u16,
    k: int,
)
    requires
        0 <= k <= buttons.len(),
        outs.len() == buttons.len(),
        times.len() == buttons.len(),
    ensures
        last_accepted(buttons, outs, times, i, k) is None ==> forall|j: int|
            0 <= j < k ==> !#[trigger] accepted_at(buttons, outs, j, i),
        last_accepted(buttons, outs, times, i, k) matches Some(t) ==> exists|m: int|
            {
                &&& 0 <= m < k
                &&& #[trigger] accepted_at(buttons, outs, m, i)
                &&& times[m] == t
                &&& forall|j: int| m < j < k ==> !#[trigger] accepted_at(buttons, outs, j, i)
            },
    decreases k,
{
    if k > 0 {
        lemma_last_accepted_is_latest(buttons, outs, times, i, k - 1);
        if accepted_at(buttons, outs, k - 1, i) {
            assert(forall|j: int| k - 1 < j < k ==> !#[trigger] accepted_at(buttons, outs, j, i));
        } else if let Some(t) = last_accepted(buttons, outs, times, i, k - 1) {
            let m = choose|m: int|
                {
                    &&& 0 <= m < k - 1
                    &&& #[trigger] accepted_at(buttons, outs, m, i)
                    &&& times[m] == t
                    &&& forall|j: int|
                        m < j < k - 1 ==> !#[trigger] accepted_at(buttons, outs, j, i)
                };
            assert(forall|j: int| m < j < k ==> !#[trigger] accepted_at(buttons, outs, j, i));
        }
    }
}

/// Along a history, each state remembers the previous report and, for a
/// filtered button, the time of its last accepted press.
proof fn lemma_history_state(
    cfg: AntiDoubleClickConfig,
    buttons: Seq<u16>,
    times: Seq<u64>,
    states: Seq<DebouncerView>,
    outs: Seq<u16>,
    i: u16,
    k: int,
)
    requires
        is_history(cfg, buttons, times, states, outs),
        cfg.is_active(),
        i < 16,
        has_bit(cfg.buttons, i),
        0 <= k <= buttons.len(),
    ensures
        states[k].wf(),
        states[k].last_physical == prev_buttons(buttons, k),
        states[k].last_accepted_press[i as int] == last_accepted(buttons, outs, times, i, k),
    decreases k,
{
    if k == 0 {
        assert(0u16 & !0u16 == 0u16) by (bit_vector);
    } else {
        lemma_history_state(cfg, buttons, times, states, outs, i, k - 1);
        let j = k - 1;
        let pre = states[j];
        assert(states[j].step(buttons[j], cfg, times[j], states[j + 1], outs[j]));
        assert(j + 1 == k);
        lemma_step_preserves_wf(pre, buttons[k - 1], cfg, times[k - 1], states[k], outs[k - 1]);
        if pre.is_rising(buttons[k - 1], i) {
            lemma_press_accepted_iff_outside_window(
                pre,
                buttons[k - 1],
                cfg,
                times[k - 1],
                states[k],
                outs[k - 1],
                i,
            );
        } else {
            assert(has_bit(states[k].suppressed, i) == pre.suppressed_after(
                buttons[k - 1],
                cfg,
                times[k - 1],
                i,
            ));
        }
    }
}

/// Over any history of a fresh debouncer with fixed, active settings and a
/// clock that does not go back, a new press of a filtered button is reported
/// exactly when no earlier accepted press of that button lies within the
/// window. Dropped presses do not count, so they never restart the window.
pub proof fn lemma_press_accepted_over_history(
    cfg: AntiDoubleClickConfig,
    buttons: Seq<u16>,
    times: Seq<u64>,
    states: Seq<DebouncerView>,
    outs: Seq<u16>,
    i: u16,
    k: int,
)
    requires
        is_history(cfg, buttons, times, states, outs),
        cfg.is_active(),
        i < 16,
        has_bit(cfg.buttons, i),
        forall|a: int, b: int| 0 <= a <= b < times.len() ==> times[a] <= times[b],
        0 <= k < buttons.len(),
        has_bit(buttons[k], i),
        !has_bit(prev_buttons(buttons, k), i),
    ensures
        has_bit(outs[k], i) == !exists|j: int|
            0 <= j < k && #[trigger] accepted_at(buttons, outs, j, i) && elapsed(times[k], times[j])
                < window_ns(cfg),
{
    lemma_history_state(cfg, buttons, times, states, outs, i, k);
    let pre = states[k];
    assert(pre.step(buttons[k], cfg, times[k], states[k + 1], outs[k]));
    lemma_press_accepted_iff_outside_window(pre, buttons[k], cfg, times[k], states[k + 1], outs[k], i);
    lemma_last_accepted_is_latest(buttons, outs, times, i, k);
    match last_accepted(buttons, outs, times, i, k) {
        None => {},
        Some(t) => {
            let m = choose|m: int|
                {
                    &&& 0 <= m < k
                    &&& #[trigger] accepted_at(buttons, outs, m, i)
                    &&& times[m] == t
                    &&& forall|j: int| m < j < k ==> !#[trigger] accepted_at(buttons, outs, j, i)
                };
            if elapsed(times[k], t) >= window_ns(cfg) {
                assert forall|j: int|
                    0 <= j < k && #[trigger] accepted_at(buttons, outs, j, i) implies elapsed(
                    times[k],
                    times[j],
                ) >= window_ns(cfg) by {
                    assert(j <= m);
                    assert(times[j] <= times[m]);
                    assert(times[m] <= times[k]);
                }
            } else {
                assert(accepted_at(buttons, outs, m, i));
            }
        },
    }
}

} // verus!
