use vstd::prelude::*;

verus! {

/// How urgent a notification is.
#[derive(Debug, Clone, Copy, PartialEq, Eq, Structural)]
pub enum NotificationLevel {
    Info,
    Success,
    Warning,
    Error,
}

/// A message shown to the player for a while.
#[derive(Debug, Clone)]
pub struct Notification {
    pub level: NotificationLevel,
    pub message: String,
    /// How long it stays, in milliseconds; `None` leaves it to the display's default.
    pub duration_ms: Option<u64>,
    /// A name by which it can be taken down before it expires.
    pub id: Option<String>,
}

/// Whether `n` bears the identifier `id`.
pub open spec fn has_id(n: Notification, id: Seq<char>) -> bool {
    n.id matches Some(i) && i@ == id
}

/// `v` without the notifications that bear the identifier `id`, in order.
pub open spec fn notes_without(v: Seq<Notification>, id: Seq<char>) -> Seq<Notification>
    decreases v.len(),
{
    if v.len() == 0 {
        v
    } else if has_id(v[0], id) {
        notes_without(v.drop_first(), id)
    } else {
        seq![v[0]] + notes_without(v.drop_first(), id)
    }
}

/// A notification taken by the view of its text.
pub open spec fn note_view(n: Notification) -> (NotificationLevel, Seq<char>, Option<u64>) {
    (n.level, n.message@, n.duration_ms)
}

/// The views of a sequence of notifications.
pub open spec fn note_views(v: Seq<Notification>) -> Seq<(NotificationLevel, Seq<char>, Option<u64>)> {
    v.map_values(|n: Notification| note_view(n))
}

impl Notification {
    pub fn info(message: String) -> (r: Self)
        ensures
            note_view(r) == (NotificationLevel::Info, message@, None::<u64>),
            r.id is None,
    {
        Notification { level: NotificationLevel::Info, message, duration_ms: None, id: None }
    }

    pub fn success(message: String) -> (r: Self)
        ensures
            note_view(r) == (NotificationLevel::Success, message@, None::<u64>),
            r.id is None,
    {
        Notification { level: NotificationLevel::Success, message, duration_ms: None, id: None }
    }

    pub fn warning(message: String) -> (r: Self)
        ensures
            note_view(r) == (NotificationLevel::Warning, message@, None::<u64>),
            r.id is None,
    {
        Notification { level: NotificationLevel::Warning, message, duration_ms: None, id: None }
    }

    pub fn error(message: String) -> (r: Self)
        ensures
            note_view(r) == (NotificationLevel::Error, message@, None::<u64>),
            r.id is None,
    {
        Notification { level: NotificationLevel::Error, message, duration_ms: None, id: None }
    }

    /// The same notification, shown for `duration_ms` milliseconds.
    pub fn with_duration(self, duration_ms: u64) -> (r: Self)
        ensures
            note_view(r) == (self.level, self.message@, Some(duration_ms)),
            r.id == self.id,
    {
        Notification { duration_ms: Some(duration_ms), ..self }
    }
}

/// How many lines the event history keeps.
pub const MAX_EVENT_HISTORY: usize = 100;

/// What the interface shows besides the game itself.
#[derive(Debug)]
pub struct UiState {
    pub notifications: Vec<Notification>,
    /// Lines for the developer's trace panel.
    pub trace_log: Vec<String>,
    /// What the user typed and what the connection did, newest last; the oldest lines
    /// go once there are more than `MAX_EVENT_HISTORY`.
    pub event_history: Vec<String>,
}

/// The event history `h` once `line` is added: its newest `MAX_EVENT_HISTORY` lines.
pub open spec fn history_after(h: Seq<Seq<char>>, line: Seq<char>) -> Seq<Seq<char>> {
    let all = h.push(line);
    if all.len() > MAX_EVENT_HISTORY {
        all.subrange(all.len() - MAX_EVENT_HISTORY, all.len() as int)
    } else {
        all
    }
}

/// Whatever it held before, the event history holds at most `MAX_EVENT_HISTORY` lines
/// once a line is added, and that line is its newest.
pub proof fn law_event_history_stays_bounded(h: Seq<Seq<char>>, line: Seq<char>)
    ensures
        history_after(h, line).len() <= MAX_EVENT_HISTORY,
        history_after(h, line).last() == line,
{
}

/// A line of the event history: the time, the title in capitals, and the text.
pub open spec fn event_line(time: Seq<char>, title: Seq<char>, text: Seq<char>) -> Seq<char> {
    "["@ + time + "] ["@ + crate::text::uppercase_of(title) + "] "@ + text
}

impl UiState {
    pub fn new() -> (r: Self)
        ensures
            r.notifications@ == Seq::<Notification>::empty(),
            r.trace_log@ == Seq::<String>::empty(),
            r.event_history@ == Seq::<String>::empty(),
    {
        UiState { notifications: Vec::new(), trace_log: Vec::new(), event_history: Vec::new() }
    }

    /// Adds the line `[time] [TITLE] text`, the title in capitals, to the event history,
    /// which then keeps only its newest `MAX_EVENT_HISTORY` lines.
    pub fn push_event(&mut self, time: &str, title: &str, text: &str)
        ensures
            crate::text::views(final(self).event_history@) == history_after(
                crate::text::views(old(self).event_history@),
                event_line(time@, title@, text@),
            ),
            final(self).notifications == old(self).notifications,
            final(self).trace_log == old(self).trace_log,
    {
        let title = crate::text::to_uppercase(title);
        let line = crate::session::cat3("[", time, "] [").concat(title.as_str()).concat("] ").concat(text);
        let ghost all = crate::text::views(self.event_history@).push(line@);
        self.event_history.push(line);
        assert(crate::text::views(self.event_history@) =~= all);
        while self.event_history.len() > MAX_EVENT_HISTORY
            invariant
                self.notifications == old(self).notifications,
                self.trace_log == old(self).trace_log,
                self.event_history@.len() >= 1,
                all.len() >= self.event_history@.len(),
                crate::text::views(self.event_history@) == all.subrange(
                    all.len() - self.event_history@.len(),
                    all.len() as int,
                ),
                all.len() > MAX_EVENT_HISTORY ==> self.event_history@.len() >= MAX_EVENT_HISTORY,
                all.len() <= MAX_EVENT_HISTORY ==> self.event_history@.len() == all.len(),
            decreases self.event_history@.len(),
        {
            let ghost before = self.event_history@;
            self.event_history.remove(0);
            assert(crate::text::views(self.event_history@) =~= crate::text::views(before).drop_first());
            assert(all.subrange(all.len() - self.event_history@.len(), all.len() as int) =~= all.subrange(
                all.len() - before.len(),
                all.len() as int,
            ).drop_first());
        }
        assert(all.len() <= MAX_EVENT_HISTORY ==> all.subrange(0, all.len() as int) =~= all);
    }

    /// Shows `note` after the notifications already shown.
    pub fn notify(&mut self, note: Notification)
        ensures
            note_views(final(self).notifications@) == note_views(old(self).notifications@).push(
                note_view(note),
            ),
            final(self).trace_log == old(self).trace_log,
            final(self).event_history == old(self).event_history,
    {
        let ghost before = self.notifications@;
        self.notifications.push(note);
        assert(note_views(self.notifications@) =~= note_views(before).push(note_view(note)));
    }
}

impl Notification {
    /// The same notification, bearing the identifier `id`.
    pub fn with_id(self, id: String) -> (r: Self)
        ensures
            note_view(r) == note_view(self),
            r.id == Some(id),
    {
        Notification { id: Some(id), ..self }
    }
}

impl UiState {
    /// Takes down the notifications that bear the identifier `id`.
    pub fn remove_notification(&mut self, id: &str)
        ensures
            final(self).notifications@ == notes_without(old(self).notifications@, id@),
            final(self).trace_log == old(self).trace_log,
            final(self).event_history == old(self).event_history,
    {
        let mut rest: Vec<Notification> = Vec::new();
        std::mem::swap(&mut rest, &mut self.notifications);
        let ghost all = rest@;
        let mut kept: Vec<Notification> = Vec::new();
        while rest.len() > 0
            invariant
                kept@ + notes_without(rest@, id@) == notes_without(all, id@),
            decreases rest.len(),
        {
            let ghost before = rest@;
            let note = rest.remove(0);
            assert(rest@ =~= before.drop_first());
            let matches = match &note.id {
                Some(i) => crate::text::same_text(i.as_str(), id),
                None => false,
            };
            if !matches {
                let ghost done = kept@;
                kept.push(note);
                assert(kept@ + notes_without(rest@, id@) =~= done + notes_without(before, id@));
            }
        }
        assert(kept@ + notes_without(rest@, id@) =~= kept@);
        self.notifications = kept;
    }
}

/// After the notifications bearing an identifier are taken down, none bears it.
pub proof fn law_removed_notifications_are_gone(v: Seq<Notification>, id: Seq<char>)
    ensures
        forall|i: int| 0 <= i < notes_without(v, id).len() ==> !has_id(#[trigger] notes_without(v, id)[i], id),
    decreases v.len(),
{
    if v.len() > 0 {
        law_removed_notifications_are_gone(v.drop_first(), id);
        let rest = notes_without(v.drop_first(), id);
        if !has_id(v[0], id) {
            assert forall|i: int| 0 <= i < (seq![v[0]] + rest).len() implies !has_id(
                #[trigger] (seq![v[0]] + rest)[i],
                id,
            ) by {
                if i > 0 {
                    assert((seq![v[0]] + rest)[i] == rest[i - 1]);
                }
            }
        }
    }
}

} // verus!
