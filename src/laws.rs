use crate::history::{lemma_find_key, Entries};
use crate::server::{
    after_close, bar_text_of, entry_line, mark_read_at, next_id, step_next, tooltip_text,
    ConfigView, ServerView,
};
use crate::template::NotificationView;
use vstd::prelude::*;

verus! {

/// An automatically assigned id is never 0, and the id after the largest
/// representable one is 1.
pub proof fn id_wraps_to_one(last: u32)
    ensures
        next_id(last) != 0,
        last == u32::MAX ==> next_id(last) == 1,
{
}

/// The tooltip lists entries newest first: inserting one more entry puts its
/// line at the top, above the lines that were already there.
pub proof fn tooltip_newest_first(s: Entries, e: (u32, NotificationView), c: ConfigView)
    requires
        s.len() > 0,
    ensures
        tooltip_text(s.push(e), c) == entry_line(e.1, c) + seq!['\n'] + tooltip_text(s, c),
    decreases s.len(),
{
    let t = s.push(e);
    if s.len() == 1 {
        assert(t.subrange(1, t.len() as int) =~= seq![e]);
        assert(tooltip_text(seq![e], c) == entry_line(e.1, c));
    } else {
        let rest = s.subrange(1, s.len() as int);
        assert(t.subrange(1, t.len() as int) =~= rest.push(e));
        tooltip_newest_first(rest, e, c);
        assert(tooltip_text(t, c) =~= entry_line(e.1, c) + seq!['\n'] + tooltip_text(s, c));
    }
}

/// Paging forward three times through three unread entries with nothing
/// shown visits positions 0, 1 and 2, and marks read the two it passed while
/// the last one stays unread.
pub proof fn paging_marks_passed_entries_read(v: ServerView)
    requires
        v.wf(),
        v.entries.len() == 3,
        v.cursor is None,
        forall|i: int| 0 <= i < 3 ==> !v.entries[i].1.read,
    ensures
        step_next(v).cursor == Some(0usize),
        step_next(step_next(v)).cursor == Some(1usize),
        step_next(step_next(step_next(v))).cursor == Some(2usize),
        step_next(step_next(step_next(v))).entries[0].1.read,
        step_next(step_next(step_next(v))).entries[1].1.read,
        !step_next(step_next(step_next(v))).entries[2].1.read,
{
}

/// Once the cursor is on the last entry, "next" keeps it there and marks that
/// entry read, and a further "next" changes nothing more.
pub proof fn next_at_end_is_idempotent(v: ServerView)
    requires
        v.wf(),
        v.cursor matches Some(i) && i + 1 == v.entries.len(),
    ensures
        step_next(v).cursor == v.cursor,
        step_next(v).entries[v.entries.len() - 1].1.read,
        step_next(v).entries.len() == v.entries.len(),
        step_next(step_next(v)) == step_next(v),
{
    let i = v.entries.len() - 1;
    let once = mark_read_at(v.entries, i);
    assert(mark_read_at(once, i) =~= once);
}

/// Closing with id 0 while the last of several entries is shown removes that
/// entry and moves the cursor onto the new last one.
pub proof fn close_zero_removes_shown_entry(v: ServerView)
    requires
        v.wf(),
        v.entries.len() >= 2,
        v.cursor matches Some(i) && i + 1 == v.entries.len(),
    ensures
        after_close(v, 0).entries == v.entries.drop_last(),
        after_close(v, 0).cursor matches Some(j) && j + 2 == v.entries.len(),
{
    assert(v.entries.remove(v.entries.len() - 1) =~= v.entries.drop_last());
}

/// Closing the only remaining entry, by its id or by 0 while it is shown,
/// clears the cursor, and the bar text becomes empty.
pub proof fn closing_last_entry_clears_bar(v: ServerView, id: u32)
    requires
        v.wf(),
        v.entries.len() == 1,
        (id == 0 && v.cursor is Some) || (id != 0 && id == v.entries[0].0),
    ensures
        after_close(v, id).entries.len() == 0,
        after_close(v, id).cursor is None,
        bar_text_of(after_close(v, id)) == Seq::<char>::empty(),
{
    lemma_find_key(v.entries, id);
}

} // verus!
