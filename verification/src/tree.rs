//! What copying a whole tree amounts to.
//!
//! A tree is modelled by its nodes, each directory with its entries in the
//! order in which they are listed. A driver that answers truthfully for such
//! a tree takes the copy through every node of it, and this module states
//! which actions the copy asks for on the way.

use vstd::prelude::*;
use crate::copier::{
    copy_asked, copy_machine, copy_run, next_task, task_of, tasks_of, CopyStateView, StageView,
    TaskView,
};
use crate::paths::joined;
use crate::plan::{
    asked, feed, lemma_feed_first, ActionView, DirEntryView, EntryKind, EventView, StepView,
};

verus! {

/// A node of a file tree: its name within its directory, its kind, and, for
/// a directory, its entries.
pub struct Node {
    pub name: Seq<char>,
    pub kind: EntryKind,
    pub children: Seq<Node>,
}

/// The listing of a directory that holds `children`.
pub open spec fn listing(children: Seq<Node>) -> Seq<DirEntryView> {
    Seq::new(children.len(), |i: int| DirEntryView { name: children[i].name, kind: children[i].kind })
}

/// The actions of copying the directory `source`, which holds `children`, to
/// `dest`: probe, create, list, then each entry in turn.
pub open spec fn dir_actions(source: Seq<char>, dest: Seq<char>, children: Seq<Node>) -> Seq<
    ActionView,
>
    decreases children, 2nat, 0nat,
{
    seq![
        ActionView::Probe { path: source, strict: false },
        ActionView::CreateDir { path: dest },
        ActionView::ListDir { path: source },
    ] + rest_actions(source, dest, children, 0)
}

/// The actions for one entry of the directory `source`: a file is copied
/// under its name, a directory is copied in full, anything else is left out.
pub open spec fn node_actions(source: Seq<char>, dest: Seq<char>, children: Seq<Node>, at: int) -> Seq<
    ActionView,
>
    recommends
        0 <= at < children.len(),
    decreases children, 0nat, 0nat,
{
    if 0 <= at < children.len() {
        let node = children[at];
        match node.kind {
            EntryKind::Directory => dir_actions(
                joined(source, node.name),
                joined(dest, node.name),
                node.children,
            ),
            EntryKind::File => seq![
                ActionView::CopyFile {
                    source: joined(source, node.name),
                    dest: joined(dest, node.name),
                },
            ],
            EntryKind::Other => seq![ActionView::Skip { path: joined(source, node.name) }],
        }
    } else {
        seq![]
    }
}

/// The actions for the entries from index `from` on.
pub open spec fn rest_actions(source: Seq<char>, dest: Seq<char>, children: Seq<Node>, from: int) -> Seq<
    ActionView,
>
    decreases children, 1nat, children.len() - from,
{
    if 0 <= from < children.len() {
        node_actions(source, dest, children, from) + rest_actions(source, dest, children, from + 1)
    } else {
        seq![]
    }
}

/// What a truthful driver reports while the directory is copied.
pub open spec fn dir_events(children: Seq<Node>) -> Seq<EventView>
    decreases children, 2nat, 0nat,
{
    seq![
        EventView::Probed(Some(EntryKind::Directory)),
        EventView::Created,
        EventView::Listed(listing(children)),
    ] + rest_events(children, 0)
}

/// What a truthful driver reports for one entry.
pub open spec fn node_events(children: Seq<Node>, at: int) -> Seq<EventView>
    recommends
        0 <= at < children.len(),
    decreases children, 0nat, 0nat,
{
    if 0 <= at < children.len() {
        match children[at].kind {
            EntryKind::Directory => dir_events(children[at].children),
            EntryKind::File => seq![EventView::FileCopied],
            EntryKind::Other => seq![EventView::Skipped],
        }
    } else {
        seq![]
    }
}

/// What a truthful driver reports for the entries from index `from` on.
pub open spec fn rest_events(children: Seq<Node>, from: int) -> Seq<EventView>
    decreases children, 1nat, children.len() - from,
{
    if 0 <= from < children.len() {
        node_events(children, from) + rest_events(children, from + 1)
    } else {
        seq![]
    }
}

/// Copying one directory from the top of the pending tasks: the copy asks
/// for the actions of the directory, and then stands where it would have
/// stood without it.
proof fn lemma_copy_directory(
    rest: Seq<TaskView>,
    source: Seq<char>,
    dest: Seq<char>,
    children: Seq<Node>,
    more: Seq<EventView>,
)
    ensures
        feed(copy_machine(), next_task(rest.push(TaskView::Tree { source, dest })), dir_events(children) + more)
            == feed(copy_machine(), next_task(rest), more),
        asked(copy_machine(), 
            next_task(rest.push(TaskView::Tree { source, dest })),
            dir_events(children) + more,
        ) == dir_actions(source, dest, children) + asked(copy_machine(), next_task(rest), more),
    decreases children, 1nat, 0nat,
{
    let todo = rest.push(TaskView::Tree { source, dest });
    assert(todo.drop_last() =~= rest);
    let probing = CopyStateView { stage: StageView::Probing { source, dest }, todo: rest };
    let creating = CopyStateView { stage: StageView::Creating { source, dest }, todo: rest };
    let listed = CopyStateView { stage: StageView::Listing { source, dest }, todo: rest };
    let probe = ActionView::Probe { path: source, strict: false };
    let create = ActionView::CreateDir { path: dest };
    let list = ActionView::ListDir { path: source };
    assert(next_task(todo) == StepView::<CopyStateView, ()>::Next(probing, probe));
    let tail = rest_events(children, 0) + more;
    let e3 = seq![EventView::Listed(listing(children))] + tail;
    let e2 = seq![EventView::Created] + e3;
    let found = EventView::Probed(Some(EntryKind::Directory));
    let e1 = seq![found] + e2;
    assert(dir_events(children) + more =~= e1);
    lemma_feed_first(copy_machine(), probing, probe, found, e2);
    lemma_feed_first(copy_machine(), creating, create, EventView::Created, e3);
    lemma_feed_first(copy_machine(), listed, list, EventView::Listed(listing(children)), tail);
    let tasks = tasks_of(source, dest, listing(children));
    assert(tasks.subrange(0, children.len() as int) =~= tasks);
    lemma_copy_entries(rest, source, dest, children, 0, more);
    assert(seq![probe] + (seq![create] + (seq![list] + (rest_actions(source, dest, children, 0)
        + asked(copy_machine(), next_task(rest), more)))) =~= dir_actions(source, dest, children)
        + asked(copy_machine(), next_task(rest), more));
}

/// The same for the entries of a listed directory from index `from` on.
proof fn lemma_copy_entries(
    rest: Seq<TaskView>,
    source: Seq<char>,
    dest: Seq<char>,
    children: Seq<Node>,
    from: int,
    more: Seq<EventView>,
)
    requires
        0 <= from <= children.len(),
    ensures
        feed(copy_machine(), 
            next_task(
                rest + tasks_of(source, dest, listing(children)).subrange(0, children.len() - from),
            ),
            rest_events(children, from) + more,
        ) == feed(copy_machine(), next_task(rest), more),
        asked(copy_machine(), 
            next_task(
                rest + tasks_of(source, dest, listing(children)).subrange(0, children.len() - from),
            ),
            rest_events(children, from) + more,
        ) == rest_actions(source, dest, children, from) + asked(copy_machine(), next_task(rest), more),
    decreases children, 0nat, children.len() - from,
{
    let n = children.len() as int;
    let tasks = tasks_of(source, dest, listing(children));
    let todo = rest + tasks.subrange(0, n - from);
    if from == n {
        assert(todo =~= rest);
        assert(rest_events(children, from) + more =~= more);
        assert(rest_actions(source, dest, children, from) + asked(copy_machine(), next_task(rest), more)
            =~= asked(copy_machine(), next_task(rest), more));
    } else {
        let node = children[from];
        let after = rest + tasks.subrange(0, n - from - 1);
        let later = rest_events(children, from + 1) + more;
        assert(todo.last() == task_of(source, dest, listing(children)[from]));
        assert(todo.drop_last() =~= after);
        lemma_copy_entries(rest, source, dest, children, from + 1, more);
        let asked_later = rest_actions(source, dest, children, from + 1) + asked(copy_machine(), 
            next_task(rest),
            more,
        );
        assert(rest_events(children, from) == node_events(children, from) + rest_events(
            children,
            from + 1,
        ));
        assert(rest_actions(source, dest, children, from) == node_actions(
            source,
            dest,
            children,
            from,
        ) + rest_actions(source, dest, children, from + 1));
        match node.kind {
            EntryKind::Directory => {
                let s = joined(source, node.name);
                let d = joined(dest, node.name);
                assert(todo =~= after.push(TaskView::Tree { source: s, dest: d }));
                assert(node_events(children, from) == dir_events(node.children));
                assert(node_actions(source, dest, children, from) == dir_actions(
                    s,
                    d,
                    node.children,
                ));
                lemma_copy_directory(after, s, d, node.children, later);
                assert(rest_events(children, from) + more =~= dir_events(node.children) + later);
                assert(dir_actions(s, d, node.children) + asked_later =~= rest_actions(
                    source,
                    dest,
                    children,
                    from,
                ) + asked(copy_machine(), next_task(rest), more));
            },
            EntryKind::File => {
                let copying = CopyStateView { stage: StageView::Copying, todo: after };
                let action = ActionView::CopyFile {
                    source: joined(source, node.name),
                    dest: joined(dest, node.name),
                };
                assert(next_task(todo) == StepView::<CopyStateView, ()>::Next(copying, action));
                assert(node_events(children, from) == seq![EventView::FileCopied]);
                assert(node_actions(source, dest, children, from) == seq![action]);
                lemma_feed_first(copy_machine(), copying, action, EventView::FileCopied, later);
                assert(rest_events(children, from) + more =~= seq![EventView::FileCopied] + later);
                assert(seq![action] + asked_later =~= rest_actions(source, dest, children, from)
                    + asked(copy_machine(), next_task(rest), more));
            },
            EntryKind::Other => {
                let skipping = CopyStateView { stage: StageView::Skipping, todo: after };
                let action = ActionView::Skip { path: joined(source, node.name) };
                assert(next_task(todo) == StepView::<CopyStateView, ()>::Next(skipping, action));
                assert(node_events(children, from) == seq![EventView::Skipped]);
                assert(node_actions(source, dest, children, from) == seq![action]);
                lemma_feed_first(copy_machine(), skipping, action, EventView::Skipped, later);
                assert(rest_events(children, from) + more =~= seq![EventView::Skipped] + later);
                assert(seq![action] + asked_later =~= rest_actions(source, dest, children, from)
                    + asked(copy_machine(), next_task(rest), more));
            },
        }
    }
}

/// Copying a tree with a truthful driver ends well, and asks on the way for
/// exactly the actions of the tree: every directory is created and listed,
/// every file is copied, in the order of the listings and depth first.
pub proof fn lemma_copy_follows_the_tree(source: Seq<char>, dest: Seq<char>, children: Seq<Node>)
    ensures
        copy_run(source, dest, dir_events(children)) == StepView::<CopyStateView, ()>::Done(()),
        copy_asked(source, dest, dir_events(children)) == dir_actions(source, dest, children),
{
    let none = Seq::<TaskView>::empty();
    let nothing = Seq::<EventView>::empty();
    assert(none.push(TaskView::Tree { source, dest }) =~= seq![TaskView::Tree { source, dest }]);
    lemma_copy_directory(none, source, dest, children, nothing);
    assert(dir_events(children) + nothing =~= dir_events(children));
    assert(dir_actions(source, dest, children) + Seq::<ActionView>::empty() =~= dir_actions(
        source,
        dest,
        children,
    ));
}

/// The path reached from `base` by going down through `names`.
pub open spec fn descend(base: Seq<char>, names: Seq<Seq<char>>) -> Seq<char>
    decreases names.len(),
{
    if names.len() == 0 {
        base
    } else {
        descend(joined(base, names[0]), names.skip(1))
    }
}

/// Whether the directory that holds `children` has a regular file at the
/// relative path `names`, with the entry at index `picks[k]` taken at depth
/// `k`.
pub open spec fn file_at(children: Seq<Node>, names: Seq<Seq<char>>, picks: Seq<int>) -> bool
    decreases names.len(),
{
    &&& names.len() > 0
    &&& picks.len() == names.len()
    &&& 0 <= picks[0] < children.len()
    &&& children[picks[0]].name == names[0]
    &&& if names.len() == 1 {
        children[picks[0]].kind == EntryKind::File
    } else {
        &&& children[picks[0]].kind == EntryKind::Directory
        &&& file_at(children[picks[0]].children, names.skip(1), picks.skip(1))
    }
}

/// An action for the entry at index `at` is among the actions for the
/// entries from any earlier index on.
proof fn lemma_entry_actions_are_asked(
    source: Seq<char>,
    dest: Seq<char>,
    children: Seq<Node>,
    from: int,
    at: int,
    action: ActionView,
)
    requires
        0 <= from <= at < children.len(),
        node_actions(source, dest, children, at).contains(action),
    ensures
        rest_actions(source, dest, children, from).contains(action),
    decreases at - from,
{
    let head = node_actions(source, dest, children, from);
    let tail = rest_actions(source, dest, children, from + 1);
    if from == at {
        let k = choose|k: int| 0 <= k < head.len() && head[k] == action;
        assert((head + tail)[k] == action);
    } else {
        lemma_entry_actions_are_asked(source, dest, children, from + 1, at, action);
        let k = choose|k: int| 0 <= k < tail.len() && tail[k] == action;
        assert((head + tail)[head.len() + k] == action);
    }
}

/// Every regular file of the tree is copied to the same relative path under
/// the destination.
pub proof fn lemma_every_file_is_copied(
    source: Seq<char>,
    dest: Seq<char>,
    children: Seq<Node>,
    names: Seq<Seq<char>>,
    picks: Seq<int>,
)
    requires
        file_at(children, names, picks),
    ensures
        dir_actions(source, dest, children).contains(
            ActionView::CopyFile { source: descend(source, names), dest: descend(dest, names) },
        ),
    decreases names.len(),
{
    let at = picks[0];
    let node = children[at];
    let s = joined(source, node.name);
    let d = joined(dest, node.name);
    let action = ActionView::CopyFile { source: descend(source, names), dest: descend(dest, names) };
    let own = node_actions(source, dest, children, at);
    assert(descend(source, names) == descend(s, names.skip(1)));
    assert(descend(dest, names) == descend(d, names.skip(1)));
    if names.len() == 1 {
        assert(names.skip(1).len() == 0);
        assert(descend(s, names.skip(1)) == s);
        assert(descend(d, names.skip(1)) == d);
        assert(own =~= seq![action]);
        assert(own[0] == action);
    } else {
        lemma_every_file_is_copied(s, d, node.children, names.skip(1), picks.skip(1));
        assert(own == dir_actions(s, d, node.children));
    }
    assert(own.contains(action));
    lemma_entry_actions_are_asked(source, dest, children, 0, at, action);
    let head = seq![
        ActionView::Probe { path: source, strict: false },
        ActionView::CreateDir { path: dest },
        ActionView::ListDir { path: source },
    ];
    let tail = rest_actions(source, dest, children, 0);
    let k = choose|k: int| 0 <= k < tail.len() && tail[k] == action;
    assert((head + tail)[3 + k] == action);
}

} // verus!
