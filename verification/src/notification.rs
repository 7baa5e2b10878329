//! Timed overlay notifications. A notification is alive for a bounded
//! span after its creation; the stack drops dead ones before layout and
//! shows at most one per vertical slot, oldest at the top, each panel
//! hugging the right edge of the area.
//!
//! Time enters the core only as a value: the caller reads its monotonic
//! clock and passes the elapsed milliseconds in.

use vstd::prelude::*;
use vstd::string::StrSliceExecFns;
use crate::layout::Rect;
use crate::style::UiColor;

verus! {

/// Rows of one notification slot: each panel gets a band of this height
/// (what is left over below the last full band stays unused).
pub const SLOT_HEIGHT: u16 = 3;

/// The severity of a notification; it controls the border color only.
#[derive(Clone, Copy, PartialEq, Eq, Structural, Debug)]
pub enum NotificationLevel {
    Info,
    Warn,
    Error,
}

impl NotificationLevel {
    /// The border color of a panel at this level.
    pub fn border_color(&self) -> (r: UiColor)
        ensures
            r == (match self {
                NotificationLevel::Info => UiColor::LightBlue,
                NotificationLevel::Warn => UiColor::LightYellow,
                NotificationLevel::Error => UiColor::LightRed,
            }),
    {
        match self {
            NotificationLevel::Info => UiColor::LightBlue,
            NotificationLevel::Warn => UiColor::LightYellow,
            NotificationLevel::Error => UiColor::LightRed,
        }
    }
}

/// An overlay message: immutable once created, shown while alive.
/// Timestamps and durations are monotonic milliseconds.
pub struct Notification {
    pub title: String,
    pub content: String,
    pub duration_ms: u64,
    pub created_at_ms: u64,
    pub level: NotificationLevel,
}

impl Clone for Notification {
    fn clone(&self) -> (r: Self)
        ensures
            r == *self,
    {
        Notification {
            title: self.title.clone(),
            content: self.content.clone(),
            duration_ms: self.duration_ms,
            created_at_ms: self.created_at_ms,
            level: self.level,
        }
    }
}

impl Notification {
    /// Alive means strictly less than the duration has elapsed since
    /// creation. A clock reading from before the creation counts as no
    /// elapsed time at all, hence expired.
    pub open spec fn spec_alive(self, now_ms: u64) -> bool {
        &&& self.created_at_ms <= now_ms
        &&& now_ms - self.created_at_ms < self.duration_ms
    }

    /// The panel area of this notification within a band: the rightmost
    /// `content length + 4` columns, clamped to the band.
    pub open spec fn spec_panel_area(self, band: Rect) -> Rect {
        let need = self.content@.len() + 4;
        if need >= band.width {
            band
        } else {
            Rect {
                x: (band.x + band.width - need) as u16,
                y: band.y,
                width: need as u16,
                height: band.height,
            }
        }
    }

    /// A notification stamped with the given creation instant.
    pub fn new(
        title: String,
        content: String,
        duration_ms: u64,
        level: NotificationLevel,
        now_ms: u64,
    ) -> (r: Notification)
        ensures
            r.title == title,
            r.content == content,
            r.duration_ms == duration_ms,
            r.level == level,
            r.created_at_ms == now_ms,
    {
        Notification { title, content, duration_ms, created_at_ms: now_ms, level }
    }

    /// Whether the notification is still alive at the given instant.
    pub fn should_be_displayed(&self, now_ms: u64) -> (r: bool)
        ensures
            r == self.spec_alive(now_ms),
    {
        if now_ms >= self.created_at_ms {
            now_ms - self.created_at_ms < self.duration_ms
        } else {
            false
        }
    }

    /// Shrinks a band to the columns the panel needs, hugging the right
    /// edge.
    pub fn limit_area_width(&self, area: Rect) -> (r: Rect)
        requires
            area.wf(),
        ensures
            r == self.spec_panel_area(area),
            r.wf(),
            area.spec_contains(r),
    {
        let l: usize = self.content.as_str().unicode_len();
        let w: usize = area.width as usize;
        if w <= l || w - l <= 4 {
            area
        } else {
            let need: u16 = (l + 4) as u16;
            Rect {
                x: area.x + (area.width - need),
                y: area.y,
                width: need,
                height: area.height,
            }
        }
    }
}

/// How many panels fit an area of the given height: one per full slot,
/// and never fewer than one.
pub open spec fn spec_max_slots(height: u16) -> int {
    if height as int / (SLOT_HEIGHT as int) >= 1 {
        height as int / (SLOT_HEIGHT as int)
    } else {
        1
    }
}

/// The `k`-th of `slots` equal horizontal bands of an area, counted from
/// the top.
pub open spec fn spec_band(area: Rect, slots: int, k: int) -> Rect {
    let bh = area.height as int / slots;
    Rect { x: area.x, y: (area.y + k * bh) as u16, width: area.width, height: bh as u16 }
}

/// The ordered stack of notifications, oldest first.
pub struct NotificationStack {
    pub notifications: Vec<Notification>,
}

impl NotificationStack {
    /// An empty stack.
    pub fn new() -> (r: NotificationStack)
        ensures
            r.notifications@ == Seq::<Notification>::empty(),
    {
        NotificationStack { notifications: Vec::new() }
    }

    /// Appends a notification at the end (newest last).
    pub fn push_notification(&mut self, notification: Notification)
        ensures
            final(self).notifications@ == old(self).notifications@.push(notification),
    {
        self.notifications.push(notification);
    }

    /// Whether the stack holds no notifications, expired or not.
    pub fn is_empty(&self) -> (r: bool)
        ensures
            r == (self.notifications@.len() == 0),
    {
        self.notifications.len() == 0
    }

    /// Drops every notification that is no longer alive at the given
    /// instant, in one pass, keeping the order of the rest.
    pub fn remove_timedout_notifications(&mut self, now_ms: u64)
        ensures
            final(self).notifications@ == old(self).notifications@.filter(
                |n: Notification| n.spec_alive(now_ms),
            ),
    {
        let ghost pred = |n: Notification| n.spec_alive(now_ms);
        let mut kept: Vec<Notification> = Vec::new();
        let mut k: usize = 0;
        proof {
            assert(old(self).notifications@.subrange(0, 0).filter(pred) =~= Seq::<
                Notification,
            >::empty()) by {
                reveal_with_fuel(Seq::filter, 1);
            }
        }
        while k < self.notifications.len()
            invariant
                self == old(self),
                k <= self.notifications@.len(),
                kept@ == self.notifications@.subrange(0, k as int).filter(pred),
                pred == (|n: Notification| n.spec_alive(now_ms)),
            decreases self.notifications@.len() - k,
        {
            let alive = self.notifications[k].should_be_displayed(now_ms);
            proof {
                let s = self.notifications@;
                assert(s.subrange(0, k + 1) =~= s.subrange(0, k as int) + seq![s[k as int]]);
                Seq::filter_distributes_over_add(s.subrange(0, k as int), seq![s[k as int]], pred);
                assert(seq![s[k as int]].drop_last() =~= Seq::<Notification>::empty());
                assert(seq![s[k as int]].filter(pred) == if pred(s[k as int]) {
                    seq![s[k as int]]
                } else {
                    Seq::<Notification>::empty()
                }) by {
                    reveal_with_fuel(Seq::filter, 2);
                }
            }
            if alive {
                kept.push(self.notifications[k].clone());
            }
            k = k + 1;
        }
        proof {
            assert(self.notifications@.subrange(0, self.notifications@.len() as int)
                =~= self.notifications@);
        }
        self.notifications = kept;
    }

    /// Drops the dead notifications, then lays out the survivors: the area
    /// splits into equal bands, one per slot, and the first `min(len,
    /// slots)` notifications get a right-hugging panel each, top-down and
    /// oldest first. Never more panels than slots, whatever the stack
    /// holds; the survivors beyond the cap stay in the stack, merely
    /// undrawn.
    pub fn render(&mut self, now_ms: u64, area: Rect) -> (panels: Vec<(Rect, Notification)>)
        requires
            area.wf(),
        ensures
            final(self).notifications@ == old(self).notifications@.filter(
                |n: Notification| n.spec_alive(now_ms),
            ),
            panels@.len() <= spec_max_slots(area.height),
            panels@.len() == if final(self).notifications@.len() as int <= spec_max_slots(
                area.height,
            ) {
                final(self).notifications@.len() as int
            } else {
                spec_max_slots(area.height)
            },
            forall|k: int|
                0 <= k < panels@.len() ==> #[trigger] panels@[k].1
                    == final(self).notifications@[k],
            forall|k: int|
                0 <= k < panels@.len() ==> #[trigger] panels@[k].0
                    == final(self).notifications@[k].spec_panel_area(
                    spec_band(area, spec_max_slots(area.height), k),
                ),
    {
        self.remove_timedout_notifications(now_ms);
        let slots: u16 = if area.height / SLOT_HEIGHT >= 1 { area.height / SLOT_HEIGHT } else { 1 };
        let band_h: u16 = area.height / slots;
        let count: usize = if self.notifications.len() <= slots as usize {
            self.notifications.len()
        } else {
            slots as usize
        };
        let mut panels: Vec<(Rect, Notification)> = Vec::new();
        let mut k: usize = 0;
        while k < count
            invariant
                count <= slots,
                count <= self.notifications@.len(),
                slots as int == spec_max_slots(area.height),
                band_h == area.height as int / (slots as int),
                area.wf(),
                k <= count,
                panels@.len() == k,
                forall|i: int|
                    0 <= i < k ==> #[trigger] panels@[i].1 == self.notifications@[i],
                forall|i: int|
                    0 <= i < k ==> #[trigger] panels@[i].0
                        == self.notifications@[i].spec_panel_area(
                        spec_band(area, slots as int, i),
                    ),
            decreases count - k,
        {
            proof {
                assert((k as int) * (band_h as int) + band_h as int <= area.height as int)
                    by (nonlinear_arith)
                    requires
                        band_h as int == area.height as int / (slots as int),
                        0 < slots,
                        0 <= k < slots,
                ;
            }
            let band = Rect {
                x: area.x,
                y: area.y + (k as u16) * band_h,
                width: area.width,
                height: band_h,
            };
            let rect = self.notifications[k].limit_area_width(band);
            panels.push((rect, self.notifications[k].clone()));
            k = k + 1;
        }
        panels
    }
}

/// A notification with duration `d` is alive any instant strictly before
/// `creation + d` and dead at `creation + d` and from then on.
pub proof fn lemma_notification_expiry(n: Notification, eps: u64)
    requires
        0 < eps <= n.duration_ms,
        n.created_at_ms + n.duration_ms + eps <= u64::MAX,
    ensures
        n.spec_alive((n.created_at_ms + n.duration_ms - eps) as u64),
        !n.spec_alive((n.created_at_ms + n.duration_ms + eps) as u64),
        !n.spec_alive((n.created_at_ms + n.duration_ms) as u64),
{
}

} // verus!
