use crate::history::{
    entries_of, find_key, keys_unique, lemma_find_key, lemma_remove_unique, lemma_upsert,
    map_get_index, map_insert_full, map_len, map_new, map_shift_remove, map_shift_remove_index,
    remove_key, upsert, Entries,
};
use crate::output::{status_line, status_line_spec};
use crate::template::{render_template, Notification, NotificationView};
use indexmap::IndexMap;
use vstd::prelude::*;
use vstd::string::StringExecFns;

verus! {

/// Abstract value of the three format templates.
pub struct ConfigView {
    pub read_format: Seq<char>,
    pub unread_format: Seq<char>,
    pub bar_format: Seq<char>,
}

/// The format templates: for read and unread entries of the tooltip, and for
/// the bar text. Each may hold `{app}`, `{summary}` and `{body}`.
#[derive(Debug)]
pub struct NotificationConfig {
    pub read_format: String,
    pub unread_format: String,
    pub bar_format: String,
}

impl View for NotificationConfig {
    type V = ConfigView;

    open spec fn view(&self) -> ConfigView {
        ConfigView {
            read_format: self.read_format@,
            unread_format: self.unread_format@,
            bar_format: self.bar_format@,
        }
    }
}

/// Abstract state of the daemon: the history in insertion order, the entry
/// shown on the bar, the last id handed out, and the templates.
pub struct ServerView {
    pub entries: Entries,
    pub cursor: Option<usize>,
    pub last_id: u32,
    pub config: ConfigView,
}

impl ServerView {
    /// Ids are distinct and the cursor points into the history.
    pub open spec fn wf(self) -> bool {
        &&& keys_unique(self.entries)
        &&& (self.cursor matches Some(i) ==> i < self.entries.len())
    }
}

/// The id handed out after `last`: one more, wrapping from the largest value
/// to 1 so that 0 is never given.
pub open spec fn next_id(last: u32) -> u32 {
    if last == u32::MAX {
        1
    } else {
        (last + 1) as u32
    }
}

/// The entries with the one at `i` marked read.
pub open spec fn mark_read_at(s: Entries, i: int) -> Entries {
    s.update(i, (s[i].0, NotificationView { read: true, ..s[i].1 }))
}

/// The cursor after the history shrank to `len` entries: pulled back to the
/// last entry, or cleared when nothing is left.
pub open spec fn clamp_cursor(c: Option<usize>, len: nat) -> Option<usize> {
    match c {
        Some(i) => if i >= len {
            if len == 0 {
                None
            } else {
                Some((len - 1) as usize)
            }
        } else {
            c
        },
        None => None,
    }
}

/// The state after closing `id`, where 0 stands for the entry on the bar:
/// the entry is removed and the cursor re-clamped.
pub open spec fn after_close(v: ServerView, id: u32) -> ServerView {
    let entries = if id == 0 {
        v.entries.remove(v.cursor->0 as int)
    } else {
        remove_key(v.entries, id)
    };
    ServerView { entries, cursor: clamp_cursor(v.cursor, entries.len()), ..v }
}

/// The state after a "previous" trigger.
pub open spec fn step_previous(v: ServerView) -> ServerView {
    if v.entries.len() == 0 {
        v
    } else {
        match v.cursor {
            None => ServerView { cursor: Some(0), ..v },
            Some(i) => if i == 0 {
                ServerView { entries: mark_read_at(v.entries, 0), ..v }
            } else {
                ServerView {
                    entries: mark_read_at(v.entries, i as int),
                    cursor: Some((i - 1) as usize),
                    ..v
                }
            },
        }
    }
}

/// The state after a "next" trigger.
pub open spec fn step_next(v: ServerView) -> ServerView {
    if v.entries.len() == 0 {
        v
    } else {
        match v.cursor {
            None => ServerView { cursor: Some(0), ..v },
            Some(i) => if i == v.entries.len() - 1 {
                ServerView { entries: mark_read_at(v.entries, i as int), ..v }
            } else {
                ServerView {
                    entries: mark_read_at(v.entries, i as int),
                    cursor: Some((i + 1) as usize),
                    ..v
                }
            },
        }
    }
}

/// The state after a "mark current read" trigger.
pub open spec fn step_mark_current(v: ServerView) -> ServerView {
    match v.cursor {
        Some(i) => ServerView { entries: mark_read_at(v.entries, i as int), ..v },
        None => v,
    }
}

/// One entry formatted with the template that its read flag selects.
pub open spec fn entry_line(e: NotificationView, c: ConfigView) -> Seq<char> {
    render_template(
        if e.read {
            c.read_format
        } else {
            c.unread_format
        },
        e.app_name,
        e.summary,
        e.body,
    )
}

/// Every entry formatted, most recently inserted first, one per line.
pub open spec fn tooltip_text(s: Entries, c: ConfigView) -> Seq<char>
    decreases s.len(),
{
    if s.len() == 0 {
        Seq::empty()
    } else if s.len() == 1 {
        entry_line(s[0].1, c)
    } else {
        tooltip_text(s.subrange(1, s.len() as int), c) + seq!['\n'] + entry_line(s[0].1, c)
    }
}

/// The entry under the cursor formatted with the bar template; empty when
/// nothing is shown.
pub open spec fn bar_text_of(v: ServerView) -> Seq<char> {
    match v.cursor {
        Some(i) => render_template(
            v.config.bar_format,
            v.entries[i as int].1.app_name,
            v.entries[i as int].1.summary,
            v.entries[i as int].1.body,
        ),
        None => Seq::empty(),
    }
}

/// The status line that shows a state.
pub open spec fn rendered(v: ServerView, highlight: bool) -> Seq<char> {
    status_line_spec(bar_text_of(v), tooltip_text(v.entries, v.config), highlight)
}

/// The notification daemon's state: the history, keyed by id in insertion
/// order, and the position shown on the bar.
pub struct NotificationServer {
    history: IndexMap<u32, Notification>,
    visible_on_bar: Option<usize>,
    last_notification_id: u32,
    config: NotificationConfig,
}

impl View for NotificationServer {
    type V = ServerView;

    closed spec fn view(&self) -> ServerView {
        ServerView {
            entries: entries_of(self.history),
            cursor: self.visible_on_bar,
            last_id: self.last_notification_id,
            config: self.config@,
        }
    }
}

impl NotificationServer {
    /// An empty history with nothing shown.
    pub fn new(config: NotificationConfig) -> (r: Self)
        ensures
            r@ == (ServerView {
                entries: Seq::empty(),
                cursor: None,
                last_id: 0,
                config: config@,
            }),
            r@.wf(),
    {
        NotificationServer {
            history: map_new(),
            visible_on_bar: None,
            last_notification_id: 0,
            config,
        }
    }

    /// Number of entries in the history.
    pub fn len(&self) -> (r: usize)
        ensures
            r == self@.entries.len(),
    {
        map_len(&self.history)
    }

    /// The position shown on the bar.
    pub fn visible(&self) -> (r: Option<usize>)
        ensures
            r == self@.cursor,
    {
        self.visible_on_bar
    }

    /// Whether the entry at `index` has been read; `None` past the end.
    pub fn is_read(&self, index: usize) -> (r: Option<bool>)
        ensures
            index < self@.entries.len() ==> r == Some(self@.entries[index as int].1.read),
            index >= self@.entries.len() ==> r is None,
    {
        match map_get_index(&self.history, index) {
            Some(p) => Some(p.1.read),
            None => None,
        }
    }

    /// Inserts under `id`: a present id keeps its position and gets the new
    /// content, a new id is appended.
    pub fn add_to_history(&mut self, id: u32, notification: Notification) -> (r: usize)
        requires
            old(self)@.wf(),
        ensures
            final(self)@ == (ServerView { entries: upsert(old(self)@.entries, id, notification@), ..old(self)@ }),
            r == find_key(final(self)@.entries, id),
            final(self)@.wf(),
    {
        let ghost s = self@.entries;
        proof {
            lemma_find_key(s, id);
            lemma_upsert(s, id, notification@);
        }
        let r = map_insert_full(&mut self.history, id, notification);
        proof {
            if (r as int) < s.len() {
                assert(s[r as int].0 == id);
            }
        }
        r
    }

    /// The tooltip: every entry formatted with the read or unread template,
    /// most recent first, separated by newlines.
    pub fn get_notification_list(&self) -> (r: String)
        ensures
            r@ == tooltip_text(self@.entries, self@.config),
    {
        let n = map_len(&self.history);
        let ghost s = self@.entries;
        let mut out = String::new();
        let mut j: usize = n;
        assert(s.subrange(n as int, n as int) =~= Seq::<(u32, NotificationView)>::empty());
        while j > 0
            invariant
                j <= n,
                n == s.len(),
                s == self@.entries,
                out@ == tooltip_text(s.subrange(j as int, n as int), self@.config),
            decreases j,
        {
            let p = map_get_index(&self.history, j - 1);
            let e = p.unwrap().1;
            let format = if e.read {
                &self.config.read_format
            } else {
                &self.config.unread_format
            };
            let line = e.format_with(format.as_str());
            let ghost before = s.subrange(j as int, n as int);
            let ghost after = s.subrange(j - 1, n as int);
            assert(after.subrange(1, after.len() as int) =~= before);
            assert(after[0] == s[j - 1]);
            if j < n {
                out.append("\n");
            }
            out.append(line.as_str());
            j = j - 1;
            proof {
                reveal_strlit("\n");
                assert(out@ =~= tooltip_text(after, self@.config));
            }
        }
        assert(s.subrange(0, n as int) =~= s);
        out
    }

    /// The entry at `index` formatted with the bar template.
    pub fn bar_text(&self, index: usize) -> (r: String)
        requires
            index < self@.entries.len(),
        ensures
            r@ == render_template(
                self@.config.bar_format,
                self@.entries[index as int].1.app_name,
                self@.entries[index as int].1.summary,
                self@.entries[index as int].1.body,
            ),
    {
        let p = map_get_index(&self.history, index);
        p.unwrap().1.format_with(self.config.bar_format.as_str())
    }

    fn render(&self, highlight: bool) -> (r: String)
        requires
            self@.wf(),
        ensures
            r@ == rendered(self@, highlight),
    {
        let text = match self.visible_on_bar {
            Some(i) => self.bar_text(i),
            None => String::new(),
        };
        let tooltip = self.get_notification_list();
        status_line(text.as_str(), tooltip.as_str(), highlight)
    }

    /// The status line for the current state.
    pub fn display_notifications_on_bar(&self) -> (r: String)
        requires
            self@.wf(),
        ensures
            r@ == rendered(self@, false),
    {
        self.render(false)
    }

    /// The status line for the current state, marked as showing a new
    /// notification.
    pub fn new_notification_display(&self) -> (r: String)
        requires
            self@.wf(),
        ensures
            r@ == rendered(self@, true),
    {
        self.render(true)
    }

    /// Hands out the next id, wrapping past the largest value to 1.
    pub fn new_id(&mut self) -> (r: u32)
        ensures
            r == next_id(old(self)@.last_id),
            final(self)@ == (ServerView { last_id: r, ..old(self)@ }),
    {
        if self.last_notification_id == u32::MAX {
            self.last_notification_id = 1;
        } else {
            self.last_notification_id = self.last_notification_id + 1;
        }
        self.last_notification_id
    }

    /// Marks the entry at `index` read.
    pub fn mark_read(&mut self, index: usize)
        requires
            old(self)@.wf(),
            index < old(self)@.entries.len(),
        ensures
            final(self)@ == (ServerView { entries: mark_read_at(old(self)@.entries, index as int), ..old(self)@ }),
            final(self)@.wf(),
    {
        let ghost s = self@.entries;
        let p = map_get_index(&self.history, index);
        let (k, e) = p.unwrap();
        let id = *k;
        let updated = Notification {
            app_name: e.app_name.clone(),
            summary: e.summary.clone(),
            body: e.body.clone(),
            read: true,
        };
        proof {
            lemma_find_key(s, id);
        }
        let r = map_insert_full(&mut self.history, id, updated);
        proof {
            assert(r == index);
            assert(entries_of(self.history) =~= mark_read_at(s, index as int));
            assert forall|a: int, b: int|
                0 <= a < b < s.len() implies mark_read_at(s, index as int)[a].0 != mark_read_at(
                s,
                index as int,
            )[b].0 by {
                assert(s[a].0 != s[b].0);
            }
        }
    }

    /// Steps the cursor back, marking the entry it leaves read; at the first
    /// entry it stays and marks it read. Gives the status line, or `None`
    /// when the history is empty and nothing changes.
    pub fn previous_notification(&mut self) -> (r: Option<String>)
        requires
            old(self)@.wf(),
        ensures
            final(self)@ == step_previous(old(self)@),
            final(self)@.wf(),
            r is None <==> old(self)@.entries.len() == 0,
            r matches Some(line) ==> line@ == rendered(final(self)@, false),
    {
        if map_len(&self.history) == 0 {
            return None;
        }
        match self.visible_on_bar {
            Some(index) => {
                self.mark_read(index);
                if index > 0 {
                    self.visible_on_bar = Some(index - 1);
                }
            },
            None => {
                self.visible_on_bar = Some(0);
            },
        }
        Some(self.display_notifications_on_bar())
    }

    /// Steps the cursor forward, marking the entry it leaves read; at the last
    /// entry it stays and marks it read. Gives the status line, or `None`
    /// when the history is empty and nothing changes.
    pub fn next_notification(&mut self) -> (r: Option<String>)
        requires
            old(self)@.wf(),
        ensures
            final(self)@ == step_next(old(self)@),
            final(self)@.wf(),
            r is None <==> old(self)@.entries.len() == 0,
            r matches Some(line) ==> line@ == rendered(final(self)@, false),
    {
        let n = map_len(&self.history);
        if n == 0 {
            return None;
        }
        match self.visible_on_bar {
            Some(index) => {
                self.mark_read(index);
                if index < n - 1 {
                    self.visible_on_bar = Some(index + 1);
                }
            },
            None => {
                self.visible_on_bar = Some(0);
            },
        }
        Some(self.display_notifications_on_bar())
    }

    /// Marks the shown entry read, if any, and gives the status line.
    pub fn mark_read_and_render(&mut self) -> (r: String)
        requires
            old(self)@.wf(),
        ensures
            final(self)@ == step_mark_current(old(self)@),
            final(self)@.wf(),
            r@ == rendered(final(self)@, false),
    {
        if let Some(index) = self.visible_on_bar {
            self.mark_read(index);
        }
        self.display_notifications_on_bar()
    }

    /// Pulls the cursor back into the history after a removal.
    fn clamp_visible(&mut self)
        requires
            keys_unique(old(self)@.entries),
        ensures
            final(self)@ == (ServerView { cursor: clamp_cursor(old(self)@.cursor, old(self)@.entries.len()), ..old(self)@ }),
            final(self)@.wf(),
    {
        let n = map_len(&self.history);
        if let Some(i) = self.visible_on_bar {
            if i >= n {
                self.visible_on_bar = if n == 0 {
                    None
                } else {
                    Some(n - 1)
                };
            }
        }
    }

    /// Removes the entry under `id`, if present, and re-clamps the cursor.
    pub fn remove(&mut self, id: u32)
        requires
            old(self)@.wf(),
        ensures
            final(self)@.entries == remove_key(old(self)@.entries, id),
            final(self)@.cursor == clamp_cursor(old(self)@.cursor, final(self)@.entries.len()),
            final(self)@.last_id == old(self)@.last_id,
            final(self)@.config == old(self)@.config,
            final(self)@.wf(),
    {
        let ghost s = self@.entries;
        proof {
            lemma_find_key(s, id);
        }
        let r = map_shift_remove(&mut self.history, id);
        proof {
            if let Some(i) = r {
                assert(s[i as int].0 == id);
                lemma_remove_unique(s, i as int);
            }
        }
        self.clamp_visible();
    }

    /// Removes the entry shown on the bar and re-clamps the cursor.
    pub fn remove_visible(&mut self)
        requires
            old(self)@.wf(),
            old(self)@.cursor is Some,
        ensures
            final(self)@.entries == old(self)@.entries.remove(old(self)@.cursor->0 as int),
            final(self)@.cursor == clamp_cursor(old(self)@.cursor, final(self)@.entries.len()),
            final(self)@.last_id == old(self)@.last_id,
            final(self)@.config == old(self)@.config,
            final(self)@.wf(),
    {
        let ghost s = self@.entries;
        let index = self.visible_on_bar.unwrap();
        map_shift_remove_index(&mut self.history, index);
        proof {
            lemma_remove_unique(s, index as int);
        }
        self.clamp_visible();
    }

    /// Stores a new notification, unread, under `replaces_id`, or under a
    /// fresh id when that is 0, and shows it on the bar. Icon, actions and
    /// timeout are accepted and not used. Returns the id.
    pub fn notify(
        &mut self,
        app_name: &str,
        replaces_id: u32,
        app_icon: &str,
        summary: &str,
        body: &str,
        actions: Vec<String>,
        expire_timeout: i32,
    ) -> (r: u32)
        requires
            old(self)@.wf(),
        ensures
            r == (if replaces_id == 0 {
                next_id(old(self)@.last_id)
            } else {
                replaces_id
            }),
            final(self)@.last_id == (if replaces_id == 0 {
                r
            } else {
                old(self)@.last_id
            }),
            final(self)@.entries == upsert(
                old(self)@.entries,
                r,
                NotificationView {
                    app_name: app_name@,
                    summary: summary@,
                    body: body@,
                    read: false,
                },
            ),
            final(self)@.cursor == Some(find_key(final(self)@.entries, r) as usize),
            final(self)@.config == old(self)@.config,
            final(self)@.wf(),
    {
        let notification = Notification {
            app_name: String::from_str(app_name),
            summary: String::from_str(summary),
            body: String::from_str(body),
            read: false,
        };
        let id = if replaces_id == 0 {
            self.new_id()
        } else {
            replaces_id
        };
        let index = self.add_to_history(id, notification);
        proof {
            lemma_find_key(self@.entries, id);
        }
        self.visible_on_bar = Some(index);
        id
    }

    /// Closes the notification `id`; 0 closes the one shown on the bar.
    /// The cursor is re-clamped and the status line given.
    pub fn close_notification(&mut self, id: u32) -> (r: String)
        requires
            old(self)@.wf(),
            id == 0 ==> old(self)@.cursor is Some,
        ensures
            final(self)@ == after_close(old(self)@, id),
            final(self)@.wf(),
            r@ == rendered(final(self)@, false),
    {
        if id == 0 {
            self.remove_visible();
        } else {
            self.remove(id);
        }
        self.display_notifications_on_bar()
    }

    /// The capabilities this server declares.
    pub fn get_capabilities(&self) -> (r: Vec<&'static str>)
        ensures
            r@ == seq!["body", "actions"],
    {
        let r = vec!["body", "actions"];
        assert(r@ =~= seq!["body", "actions"]);
        r
    }

    /// Name, vendor, version and supported protocol version.
    pub fn get_server_information(&self) -> (r: (&'static str, &'static str, &'static str, &'static str))
        ensures
            r == ("Glance", "Glance", "0.1.0", "1.3"),
    {
        ("Glance", "Glance", "0.1.0", "1.3")
    }
}

} // verus!
