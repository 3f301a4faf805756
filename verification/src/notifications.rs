//! Notification toasts: timeout policy, action buttons (at most two), the
//! default action, dismissal and auto-dismissal.
use vstd::prelude::*;
use crate::events::{NotificationPayload, ShellEvent};

verus! {

pub const MAX_TIMEOUT_MS: i32 = 30000;
pub const DEFAULT_TIMEOUT_MS: i32 = 5000;
pub const MAX_ACTION_BUTTONS: usize = 2;

/// Display time of a toast for a requested timeout: negative means it stays
/// until dismissed (`None`), 0 means the default, longer is capped.
pub open spec fn timeout_for(ms: i32) -> Option<u32> {
    if ms < 0 {
        None
    } else if ms == 0 {
        Some(DEFAULT_TIMEOUT_MS as u32)
    } else if ms > MAX_TIMEOUT_MS {
        Some(MAX_TIMEOUT_MS as u32)
    } else {
        Some(ms as u32)
    }
}

/// A toast that expires is shown between 1 ms and 30 s.
pub proof fn timeout_bounded(ms: i32)
    ensures
        timeout_for(ms) matches Some(t) ==> 0 < t <= MAX_TIMEOUT_MS,
        timeout_for(ms) is None <==> ms < 0,
{
}

/// The action a click on the toast body triggers: the one keyed "default",
/// if there is one.
pub open spec fn default_key_for(keys: Seq<String>) -> Option<Seq<char>> {
    if exists|i: int| 0 <= i < keys.len() && #[trigger] keys[i]@ == "default"@ {
        Some("default"@)
    } else {
        None
    }
}

/// An action button of a toast.
pub struct NotificationAction {
    pub key: String,
    pub label: String,
}

/// A toast banner.
pub struct NotificationToast {
    pub id: u64,
    pub title: String,
    pub body: String,
    /// Time left before auto-dismissal; `None` never expires.
    pub remaining_ms: Option<u32>,
    pub is_persistent: bool,
    pub is_dismissing: bool,
    pub is_dismissed: bool,
    pub actions: Vec<NotificationAction>,
    pub default_action_key: Option<String>,
}

pub struct NotificationCenter {
    toasts: Vec<NotificationToast>,
    next_id: u64,
}

/// Clamps a requested timeout.
pub fn timeout_ms_for(ms: i32) -> (r: Option<u32>)
    ensures
        r == timeout_for(ms),
{
    if ms < 0 {
        None
    } else {
        let clamped = if ms > MAX_TIMEOUT_MS { MAX_TIMEOUT_MS } else { ms };
        if clamped == 0 {
            Some(DEFAULT_TIMEOUT_MS as u32)
        } else {
            Some(clamped as u32)
        }
    }
}

/// Pairs action keys with labels, at most two buttons.
pub fn build_actions(keys: &Vec<String>, labels: &Vec<String>) -> (r: Vec<NotificationAction>)
    ensures
        r@.len() == vstd::math::min(vstd::math::min(keys@.len() as int, labels@.len() as int), MAX_ACTION_BUTTONS as int),
        forall|i: int| 0 <= i < r@.len() ==> #[trigger] r@[i].key@ == keys@[i]@ && r@[i].label@ == labels@[i]@,
{
    let mut out: Vec<NotificationAction> = Vec::new();
    let mut i: usize = 0;
    while i < keys.len() && i < labels.len() && i < MAX_ACTION_BUTTONS
        invariant
            0 <= i <= MAX_ACTION_BUTTONS,
            i <= keys@.len(),
            i <= labels@.len(),
            out@.len() == i,
            forall|j: int| 0 <= j < i ==> #[trigger] out@[j].key@ == keys@[j]@ && out@[j].label@ == labels@[j]@,
        decreases MAX_ACTION_BUTTONS - i,
    {
        let ghost before = out@;
        let action = NotificationAction { key: keys[i].clone(), label: labels[i].clone() };
        out.push(action);
        assert forall|j: int| 0 <= j < i + 1 implies #[trigger] out@[j].key@ == keys@[j]@ && out@[j].label@
            == labels@[j]@ by {
            if j < i {
                assert(out@[j] == before[j]);
            }
        }
        i = i + 1;
    }
    out
}

/// The key of the default action.
pub fn default_action_key(keys: &Vec<String>) -> (r: Option<String>)
    ensures
        r matches Some(k) ==> default_key_for(keys@) == Some(k@),
        r is None ==> default_key_for(keys@) is None,
{
    let wanted = String::from_str("default");
    let mut i: usize = 0;
    while i < keys.len()
        invariant
            0 <= i <= keys@.len(),
            wanted@ == "default"@,
            forall|j: int| 0 <= j < i ==> #[trigger] keys@[j]@ != "default"@,
        decreases keys@.len() - i,
    {
        if keys[i] == wanted {
            return Some(keys[i].clone());
        }
        i = i + 1;
    }
    None
}

/// Index of the first toast with `id`.
pub open spec fn toast_index(s: Seq<NotificationToast>, id: u64) -> Option<int> {
    if exists|i: int| 0 <= i < s.len() && #[trigger] s[i].id == id {
        Some(choose|i: int| 0 <= i < s.len() && s[i].id == id && forall|j: int| 0 <= j < i ==> #[trigger] s[j].id != id)
    } else {
        None
    }
}

/// A toast after it starts sliding out.
pub open spec fn dismissing(t: NotificationToast) -> NotificationToast {
    NotificationToast { is_dismissing: true, ..t }
}

/// A toast after `dt_ms` of display time.
pub open spec fn aged(t: NotificationToast, dt_ms: u32) -> NotificationToast {
    if t.is_persistent || t.is_dismissing {
        t
    } else {
        match t.remaining_ms {
            Some(r) => if r > dt_ms {
                NotificationToast { remaining_ms: Some((r - dt_ms) as u32), ..t }
            } else {
                NotificationToast { remaining_ms: Some(0), is_dismissing: true, ..t }
            },
            None => t,
        }
    }
}

/// The toast runs out during this update.
pub open spec fn expires(t: NotificationToast, dt_ms: u32) -> bool {
    &&& !t.is_persistent
    &&& !t.is_dismissing
    &&& (t.remaining_ms matches Some(r) && r <= dt_ms)
}

/// A persistent toast never times out: advancing the timers leaves it as
/// it was and never reports it expired, whatever time is left on it.
pub proof fn persistent_toast_never_expires(t: NotificationToast, dt_ms: u32)
    requires
        t.is_persistent,
    ensures
        aged(t, dt_ms) == t,
        !expires(t, dt_ms),
{
}

/// A timed toast that is not dismissing loses `dt_ms` of its time; when
/// no more than `dt_ms` was left it runs out: it starts dismissing with no
/// time left and is reported expired. A toast without a timer, or already
/// dismissing, is left alone and never reported.
pub proof fn timed_toast_runs_down(t: NotificationToast, dt_ms: u32)
    ensures
        !t.is_persistent && !t.is_dismissing && t.remaining_ms is Some && t.remaining_ms->0 > dt_ms ==> aged(t, dt_ms)
            == (NotificationToast { remaining_ms: Some((t.remaining_ms->0 - dt_ms) as u32), ..t }) && !expires(t, dt_ms),
        !t.is_persistent && !t.is_dismissing && t.remaining_ms is Some && t.remaining_ms->0 <= dt_ms ==> aged(t, dt_ms)
            == (NotificationToast { remaining_ms: Some(0), is_dismissing: true, ..t }) && expires(t, dt_ms),
        (t.is_dismissing || t.remaining_ms is None) ==> aged(t, dt_ms) == t && !expires(t, dt_ms),
{
}

/// Every toast whose id an update reports as expired is one of the toasts
/// shown, not persistent and not already dismissing: `k` indexes the
/// reported ids.
pub proof fn expired_toasts_were_timed(s: Seq<NotificationToast>, dt_ms: u32, k: int)
    requires
        0 <= k < s.filter(|t: NotificationToast| expires(t, dt_ms)).len(),
    ensures
        ({
            let t = s.filter(|t: NotificationToast| expires(t, dt_ms))[k];
            &&& s.contains(t)
            &&& !t.is_persistent
            &&& !t.is_dismissing
        }),
{
    let p = |t: NotificationToast| expires(t, dt_ms);
    s.lemma_filter_pred(p, k);
    let t = s.filter(p)[k];
    assert(s.filter(p).contains(t));
    s.lemma_filter_contains_rev(p, t);
}

/// `b` is `a` after posting `payload` as toast `id`: the toast is appended
/// with its clamped timeout, at most two action buttons and its default action.
pub open spec fn nc_after_post(a: NotificationCenter, b: NotificationCenter, payload: NotificationPayload, id: u64) -> bool {
    &&& b.next() == (if a.next() == u64::MAX { 0 } else { a.next() + 1 })
    &&& b.toast_seq().len() == a.toast_seq().len() + 1
    &&& b.toast_seq().drop_last() == a.toast_seq()
    &&& {
        let t = b.toast_seq().last();
        &&& t.id == id
        &&& t.title@ == payload.title@
        &&& t.body@ == payload.body@
        &&& t.remaining_ms == timeout_for(payload.timeout_ms)
        &&& t.is_persistent == payload.is_persistent
        &&& !t.is_dismissing
        &&& !t.is_dismissed
        &&& t.actions@.len() == vstd::math::min(
            vstd::math::min(payload.action_keys@.len() as int, payload.action_labels@.len() as int),
            MAX_ACTION_BUTTONS as int,
        )
        &&& forall|i: int| 0 <= i < t.actions@.len() ==> #[trigger] t.actions@[i].key@
            == payload.action_keys@[i]@ && t.actions@[i].label@ == payload.action_labels@[i]@
        &&& match t.default_action_key {
            Some(k) => default_key_for(payload.action_keys@) == Some(k@),
            None => default_key_for(payload.action_keys@) is None,
        }
    }
}

/// `b` is `a` after `dismiss(id)`: the first toast with that id starts its
/// slide-out; without one nothing changes.
pub open spec fn nc_after_dismiss(a: NotificationCenter, b: NotificationCenter, id: u64) -> bool {
    &&& b.next() == a.next()
    &&& match toast_index(a.toast_seq(), id) {
        Some(i) => b.toast_seq() == a.toast_seq().update(i, dismissing(a.toast_seq()[i])),
        None => b.toast_seq() == a.toast_seq(),
    }
}

/// Two payloads with the same contents.
pub open spec fn same_payload(a: NotificationPayload, b: NotificationPayload) -> bool {
    &&& a.title@ == b.title@
    &&& a.body@ == b.body@
    &&& a.timeout_ms == b.timeout_ms
    &&& a.is_persistent == b.is_persistent
    &&& a.action_keys@ == b.action_keys@
    &&& a.action_labels@ == b.action_labels@
}

/// A copy of a payload.
pub fn clone_payload(p: &NotificationPayload) -> (r: NotificationPayload)
    ensures
        same_payload(r, *p),
{
    NotificationPayload {
        title: p.title.clone(),
        body: p.body.clone(),
        timeout_ms: p.timeout_ms,
        is_persistent: p.is_persistent,
        action_keys: p.action_keys.clone(),
        action_labels: p.action_labels.clone(),
    }
}

impl NotificationCenter {
    pub closed spec fn next(&self) -> u64 {
        self.next_id
    }

    /// The toasts on screen, oldest first.
    pub closed spec fn toast_seq(&self) -> Seq<NotificationToast> {
        self.toasts@
    }

    /// The toasts on screen, oldest first.
    pub fn toasts(&self) -> (r: &[NotificationToast])
        ensures
            r@ == self.toast_seq(),
    {
        self.toasts.as_slice()
    }

    pub fn new() -> (c: Self)
        ensures
            c.toast_seq().len() == 0,
            c.next() == 1,
    {
        NotificationCenter { toasts: Vec::new(), next_id: 1 }
    }

    /// Posts a toast; returns its id and the event published for it. Ids
    /// count up from 1 and wrap around after `u64::MAX`.
    pub fn post(&mut self, payload: NotificationPayload) -> (r: (u64, ShellEvent))
        ensures
            r.0 == old(self).next(),
            nc_after_post(*old(self), *final(self), payload, r.0),
            r.1 == ShellEvent::NotificationPosted(payload),
    {
        let id = self.next_id;
        self.next_id = if self.next_id == u64::MAX { 0 } else { self.next_id + 1 };
        let actions = build_actions(&payload.action_keys, &payload.action_labels);
        let default_key = default_action_key(&payload.action_keys);
        let toast = NotificationToast {
            id,
            title: payload.title.clone(),
            body: payload.body.clone(),
            remaining_ms: timeout_ms_for(payload.timeout_ms),
            is_persistent: payload.is_persistent,
            is_dismissing: false,
            is_dismissed: false,
            actions,
            default_action_key: default_key,
        };
        self.toasts.push(toast);
        assert(self.toasts@.drop_last() =~= old(self).toast_seq());
        (id, ShellEvent::NotificationPosted(payload))
    }

    /// Starts the slide-out of toast `id`; publishes its dismissal.
    pub fn dismiss(&mut self, id: u64) -> (published: Option<ShellEvent>)
        ensures
            nc_after_dismiss(*old(self), *final(self), id),
            published == (if toast_index(old(self).toast_seq(), id) is Some {
                Some(ShellEvent::NotificationDismissed { id })
            } else {
                None
            }),
            final(self).next() == old(self).next(),
            match toast_index(old(self).toast_seq(), id) {
                Some(i) => {
                    &&& final(self).toast_seq() == old(self).toast_seq().update(i, dismissing(old(self).toast_seq()[i]))
                    &&& published == Some(ShellEvent::NotificationDismissed { id })
                },
                None => final(self).toast_seq() == old(self).toast_seq() && published is None,
            },
    {
        let mut i: usize = 0;
        while i < self.toasts.len()
            invariant
                0 <= i <= self.toasts@.len(),
                self.toasts == old(self).toasts,
                self.next_id == old(self).next_id,
                forall|j: int| 0 <= j < i ==> #[trigger] self.toasts@[j].id != id,
            decreases self.toasts@.len() - i,
        {
            if self.toasts[i].id == id {
                proof {
                    let k = choose|k: int| 0 <= k < self.toasts@.len() && self.toasts@[k].id == id
                        && forall|j: int| 0 <= j < k ==> #[trigger] self.toasts@[j].id != id;
                    if k < i {
                    } else if k > i {
                        assert(self.toasts@[i as int].id == id);
                    }
                }
                self.toasts[i].is_dismissing = true;
                return Some(ShellEvent::NotificationDismissed { id });
            }
            i = i + 1;
        }
        None
    }

    /// Click on the toast body: triggers its default action, then dismisses it.
    pub fn on_click(&mut self, id: u64) -> (published: Option<ShellEvent>)
        ensures
            final(self).next() == old(self).next(),
            match toast_index(old(self).toast_seq(), id) {
                Some(i) => {
                    &&& final(self).toast_seq() == old(self).toast_seq().update(i, dismissing(old(self).toast_seq()[i]))
                    &&& published == Some(ShellEvent::NotificationDismissed { id })
                },
                None => final(self).toast_seq() == old(self).toast_seq() && published is None,
            },
    {
        self.dismiss(id)
    }

    /// Click on an action button: invokes it, then dismisses the toast.
    pub fn on_action_click(&mut self, notification_id: u64, action_key: &str) -> (published: Option<ShellEvent>)
        ensures
            final(self).next() == old(self).next(),
            match toast_index(old(self).toast_seq(), notification_id) {
                Some(i) => {
                    &&& final(self).toast_seq() == old(self).toast_seq().update(i, dismissing(old(self).toast_seq()[i]))
                    &&& published == Some(ShellEvent::NotificationDismissed { id: notification_id })
                },
                None => final(self).toast_seq() == old(self).toast_seq() && published is None,
            },
    {
        self.dismiss(notification_id)
    }

    /// Advances the auto-dismiss timers by `dt_ms`. Toasts whose time runs
    /// out start dismissing; their ids are returned in order, one
    /// `NotificationDismissed` each.
    pub fn update(&mut self, dt_ms: u32) -> (expired: Vec<u64>)
        ensures
            final(self).next() == old(self).next(),
            final(self).toast_seq().len() == old(self).toast_seq().len(),
            forall|i: int| 0 <= i < old(self).toast_seq().len() ==> #[trigger] final(self).toast_seq()[i] == aged(
                old(self).toast_seq()[i],
                dt_ms,
            ),
            expired@ == old(self).toast_seq().filter(|t: NotificationToast| expires(t, dt_ms)).map_values(
                |t: NotificationToast| t.id,
            ),
            forall|i: int| 0 <= i < old(self).toast_seq().len() && (#[trigger] old(self).toast_seq()[i]).is_persistent
                ==> final(self).toast_seq()[i] == old(self).toast_seq()[i],
    {
        let ghost p = |t: NotificationToast| expires(t, dt_ms);
        let ghost f = |t: NotificationToast| t.id;
        let mut expired: Vec<u64> = Vec::new();
        let mut i: usize = 0;
        while i < self.toasts.len()
            invariant
                0 <= i <= self.toasts@.len(),
                self.toasts@.len() == old(self).toast_seq().len(),
                self.next_id == old(self).next_id,
                p == (|t: NotificationToast| expires(t, dt_ms)),
                f == (|t: NotificationToast| t.id),
                forall|j: int| 0 <= j < i ==> #[trigger] self.toasts@[j] == aged(old(self).toast_seq()[j], dt_ms),
                forall|j: int| i <= j < self.toasts@.len() ==> #[trigger] self.toasts@[j] == old(self).toast_seq()[j],
                expired@ == old(self).toast_seq().subrange(0, i as int).filter(p).map_values(f),
            decreases self.toasts@.len() - i,
        {
            proof {
                reveal_with_fuel(Seq::filter, 1);
                assert(old(self).toast_seq().subrange(0, i + 1).drop_last() =~= old(self).toast_seq().subrange(0, i as int));
            }
            let ghost before = expired@;
            if !self.toasts[i].is_persistent && !self.toasts[i].is_dismissing {
                if let Some(r) = self.toasts[i].remaining_ms {
                    if r > dt_ms {
                        self.toasts[i].remaining_ms = Some(r - dt_ms);
                    } else {
                        self.toasts[i].remaining_ms = Some(0);
                        self.toasts[i].is_dismissing = true;
                        let id = self.toasts[i].id;
                        expired.push(id);
                    }
                }
            }
            proof {
                let pre = old(self).toast_seq().subrange(0, i as int).filter(p);
                let post = old(self).toast_seq().subrange(0, i + 1).filter(p);
                if p(old(self).toast_seq()[i as int]) {
                    assert(post == pre.push(old(self).toast_seq()[i as int]));
                    assert(post.map_values(f) =~= pre.map_values(f).push(f(old(self).toast_seq()[i as int])));
                } else {
                    assert(post == pre);
                }
            }
            i = i + 1;
        }
        assert(old(self).toast_seq().subrange(0, i as int) =~= old(self).toast_seq());
        expired
    }

    /// Drops the dismissing toasts whose slide-out has finished (`faded`
    /// lists them by id); the others stay in order.
    pub fn remove_faded(&mut self, faded: &Vec<u64>)
        ensures
            final(self).next() == old(self).next(),
            final(self).toast_seq() == old(self).toast_seq().filter(
                |t: NotificationToast| !(t.is_dismissing && faded@.contains(t.id)),
            ),
    {
        let ghost p = |t: NotificationToast| !(t.is_dismissing && faded@.contains(t.id));
        let mut kept: Vec<NotificationToast> = Vec::new();
        let mut rest: Vec<NotificationToast> = Vec::new();
        std::mem::swap(&mut rest, &mut self.toasts);
        let ghost all = rest@;
        let ghost mut i: int = 0;
        while rest.len() > 0
            invariant
                0 <= i <= all.len(),
                all == old(self).toasts@,
                rest@ == all.subrange(i, all.len() as int),
                p == (|t: NotificationToast| !(t.is_dismissing && faded@.contains(t.id))),
                kept@ == all.subrange(0, i).filter(p),
            decreases rest@.len(),
        {
            proof {
                reveal_with_fuel(Seq::filter, 1);
                assert(all.subrange(0, i + 1).drop_last() =~= all.subrange(0, i));
            }
            let t = rest.remove(0);
            assert(t == all[i]);
            let mut gone = false;
            if t.is_dismissing {
                let mut j: usize = 0;
                while j < faded.len()
                    invariant
                        0 <= j <= faded@.len(),
                        gone == (exists|k: int| 0 <= k < j && faded@[k] == t.id),
                    decreases faded@.len() - j,
                {
                    if faded[j] == t.id {
                        gone = true;
                    }
                    j = j + 1;
                }
            }
            proof {
                if t.is_dismissing {
                    if faded@.contains(t.id) {
                        let k = choose|k: int| 0 <= k < faded@.len() && faded@[k] == t.id;
                        assert(gone);
                    }
                }
            }
            if !gone {
                kept.push(t);
            }
            proof {
                i = i + 1;
                assert(rest@ =~= all.subrange(i, all.len() as int));
            }
        }
        assert(all.subrange(0, i) =~= all);
        self.toasts = kept;
    }

    /// Number of toasts on screen.
    pub fn live_count(&self) -> (n: usize)
        ensures
            n == self.toast_seq().len(),
    {
        self.toasts.len()
    }
}

} // verus!
