use crate::chat::Message;
use crate::text::{
    concat_str, is_prefix, split_once, split_once_seq, starts_with, trim, trim_seq, trim_start,
    trim_start_seq, views,
};
use vstd::prelude::*;

verus! {

/// The command palette: a text query matched against the known actions.
#[derive(Debug)]
pub struct CommandPalette {
    /// The actions that the palette offers.
    pub actions: Vec<String>,
    /// The actions whose names begin with the action part of the query.
    pub current_action: Vec<String>,
    /// The argument part of the query (after the first `':'`), trimmed.
    pub current_action_arg: String,
    pub query: String,
    /// Whether the palette is open and has the focus.
    pub active: bool,
    /// The highlighted entry of `current_action`, or -1 for none.
    pub selected_index: i32,
}

/// The entries of `acts` that begin with `prefix`, in order.
pub open spec fn matching_actions(acts: Seq<Seq<char>>, prefix: Seq<char>) -> Seq<Seq<char>>
    decreases acts.len(),
{
    if acts.len() == 0 {
        Seq::empty()
    } else {
        let r = matching_actions(acts.drop_last(), prefix);
        if is_prefix(prefix, acts.last()) {
            r.push(acts.last())
        } else {
            r
        }
    }
}

/// Every match is one of the actions, and matches repeat no action.
pub proof fn lemma_matching_actions(acts: Seq<Seq<char>>, prefix: Seq<char>)
    requires
        acts.no_duplicates(),
    ensures
        matching_actions(acts, prefix).no_duplicates(),
        forall|k: int|
            0 <= k < matching_actions(acts, prefix).len() ==> acts.contains(
                #[trigger] matching_actions(acts, prefix)[k],
            ),
    decreases acts.len(),
{
    if acts.len() > 0 {
        let init = acts.drop_last();
        assert(init.no_duplicates()) by {
            assert forall|a: int, b: int|
                0 <= a < init.len() && 0 <= b < init.len() && a != b implies init[a] != init[b] by {
                assert(init[a] == acts[a] && init[b] == acts[b]);
            }
        }
        lemma_matching_actions(init, prefix);
        let r = matching_actions(init, prefix);
        assert forall|k: int| 0 <= k < r.len() implies acts.contains(#[trigger] r[k]) by {
            let w = choose|w: int| 0 <= w < init.len() && init[w] == r[k];
            assert(acts[w] == r[k]);
        }
        if is_prefix(prefix, acts.last()) {
            let r2 = r.push(acts.last());
            assert forall|k: int| 0 <= k < r.len() implies r[k] != acts.last() by {
                let w = choose|w: int| 0 <= w < init.len() && init[w] == r[k];
                assert(acts[w] == r[k]);
                assert(acts[acts.len() - 1] == acts.last());
            }
            assert forall|a: int, b: int|
                0 <= a < r2.len() && 0 <= b < r2.len() && a != b implies r2[a] != r2[b] by {
                if a < r.len() && b < r.len() {
                    assert(r2[a] == r[a] && r2[b] == r[b]);
                } else if a < r.len() {
                    assert(r2[a] == r[a]);
                } else {
                    assert(r2[b] == r[b]);
                }
            }
            assert forall|k: int| 0 <= k < r2.len() implies acts.contains(#[trigger] r2[k]) by {
                if k < r.len() {
                    assert(r2[k] == r[k]);
                } else {
                    assert(acts[acts.len() - 1] == r2[k]);
                }
            }
        }
    }
}

/// `index` brought into `-1 ..= len - 1`.
pub open spec fn clamp_index(index: int, len: int) -> int {
    if index < -1 {
        -1
    } else if index >= len {
        len - 1
    } else {
        index
    }
}

/// The actions that a query selects: none for an empty action part,
/// otherwise every action whose name begins with it.
pub open spec fn actions_for_query(actions: Seq<Seq<char>>, query: Seq<char>) -> Seq<Seq<char>> {
    let action = split_once_seq(trim_start_seq(query), ':').0;
    if action.len() == 0 {
        Seq::empty()
    } else {
        matching_actions(actions, action)
    }
}

/// The argument part of a query: the text after its first `':'`, trimmed.
pub open spec fn argument_of_query(query: Seq<char>) -> Seq<char> {
    match split_once_seq(trim_start_seq(query), ':').1 {
        Some(rest) => trim_seq(rest),
        None => Seq::empty(),
    }
}

/// `post` is `pre` after the query was set to `query`.
pub open spec fn query_updated(pre: CommandPalette, query: Seq<char>, post: CommandPalette) -> bool {
    let matches = actions_for_query(views(pre.actions@), query);
    &&& post.actions == pre.actions
    &&& post.active == pre.active
    &&& views(post.current_action@) == matches
    &&& post.selected_index == (if matches.len() > 0 && pre.selected_index == -1 {
        0
    } else {
        pre.selected_index
    })
    &&& post.current_action_arg@ == argument_of_query(query)
    &&& post.query@ == trim_start_seq(query)
}

/// `post` is `pre` after the entry at `index` (clamped) was highlighted;
/// `moved` tells whether an entry is highlighted.
pub open spec fn selection_updated(
    pre: CommandPalette,
    index: int,
    post: CommandPalette,
    moved: bool,
) -> bool {
    let idx = clamp_index(index, pre.current_action@.len() as int);
    &&& post.selected_index == idx
    &&& post.actions == pre.actions
    &&& post.current_action == pre.current_action
    &&& post.current_action_arg == pre.current_action_arg
    &&& post.active == pre.active
    &&& moved == (idx >= 0)
    &&& post.query@ == (if idx >= 0 && split_once_seq(pre.query@, ':').1 is None {
        pre.current_action@[idx]@ + ": "@
    } else {
        pre.query@
    })
}

/// What selecting the highlighted entry yields: nothing when no entry is
/// highlighted, otherwise the action with the argument, if any.
pub open spec fn selection_of(p: CommandPalette, r: Option<Message>) -> bool {
    let i = p.selected_index as int;
    if i < 0 || i >= p.current_action@.len() {
        r is None
    } else {
        match r {
            Some(Message::CommandPaletteHandleAction(action, args)) => {
                &&& action@ == p.current_action@[i]@
                &&& if p.current_action_arg@.len() == 0 {
                    args is None
                } else {
                    args matches Some(a) && a@.len() == 1 && a@[0]@ == p.current_action_arg@
                }
            },
            _ => false,
        }
    }
}

impl CommandPalette {
    /// The palette's invariant: the highlighted index is at least -1, all
    /// counts fit in an `i32`, and neither the actions nor the matches repeat
    /// an action.
    pub open spec fn wf(&self) -> bool {
        &&& -1 <= self.selected_index < i32::MAX
        &&& self.actions@.len() < i32::MAX
        &&& self.current_action@.len() <= self.actions@.len()
        &&& views(self.actions@).no_duplicates()
        &&& views(self.current_action@).no_duplicates()
    }

    /// A closed palette that offers the actions `quit` and `open stream`.
    pub fn new() -> (r: Self)
        ensures
            r.wf(),
            views(r.actions@) == seq!["quit"@, "open stream"@],
            r.current_action@.len() == 0,
            r.current_action_arg@.len() == 0,
            r.query@.len() == 0,
            !r.active,
            r.selected_index == -1,
    {
        let mut actions: Vec<String> = Vec::new();
        actions.push(String::from_str("quit"));
        actions.push(String::from_str("open stream"));
        let r = CommandPalette {
            actions,
            current_action: Vec::new(),
            current_action_arg: String::new(),
            query: String::new(),
            active: false,
            selected_index: -1,
        };
        assert(views(r.actions@) =~= seq!["quit"@, "open stream"@]);
        proof {
            reveal_strlit("quit");
            reveal_strlit("open stream");
            assert("quit"@.len() != "open stream"@.len());
            assert(views(r.current_action@) =~= Seq::<Seq<char>>::empty());
        }
        r
    }

    /// Yields the action of the highlighted entry, with the argument when
    /// there is one; nothing when no entry is highlighted.
    pub fn maybe_select(&self) -> (r: Option<Message>)
        requires
            self.wf(),
        ensures
            selection_of(*self, r),
    {
        let len = self.current_action.len() as i32;
        if self.selected_index >= len || self.selected_index < 0 {
            None
        } else {
            let selected_key = self.current_action[self.selected_index as usize].clone();
            let args = if self.current_action_arg.as_str().is_empty() {
                None
            } else {
                let mut a: Vec<String> = Vec::new();
                a.push(self.current_action_arg.clone());
                Some(a)
            };
            Some(Message::CommandPaletteHandleAction(selected_key, args))
        }
    }

    /// Highlights the entry at `index`, clamped to the entries; when an entry
    /// is highlighted and the query has no argument part yet, the query
    /// becomes that entry's name followed by `": "`. Returns whether an entry
    /// is highlighted (the text cursor then goes to the end of the query).
    pub fn update_selected_query(&mut self, index: i32) -> (moved: bool)
        requires
            old(self).wf(),
        ensures
            final(self).wf(),
            selection_updated(*old(self), index as int, *final(self), moved),
    {
        let len = self.current_action.len() as i32;
        let mut index = index;
        if index < -1 {
            index = -1;
        } else if index >= len {
            index = len - 1;
        }
        self.selected_index = index;
        if index >= 0 {
            let (_, rest) = split_once(self.query.as_str(), ':');
            if rest.is_none() {
                let q = concat_str(self.current_action[index as usize].as_str(), ": ");
                self.query = q;
            }
            true
        } else {
            false
        }
    }

    /// Sets the query: leading white space is dropped; the part before the
    /// first `':'` selects the actions that begin with it, and the rest,
    /// trimmed, becomes the argument. When actions match and none is
    /// highlighted, the first is highlighted.
    pub fn update_current_from_query(&mut self, query: String)
        requires
            old(self).wf(),
        ensures
            final(self).wf(),
            query_updated(*old(self), query@, *final(self)),
    {
        let q = trim_start(query.as_str());
        let (action, rest) = split_once(q.as_str(), ':');
        let mut current: Vec<String> = Vec::new();
        let ghost acts = views(self.actions@);
        if !action.as_str().is_empty() {
            let mut i: usize = 0;
            while i < self.actions.len()
                invariant
                    acts == views(self.actions@),
                    i <= self.actions@.len(),
                    current@.len() <= i,
                    views(current@) == matching_actions(acts.take(i as int), action@),
                decreases self.actions@.len() - i,
            {
                let ghost prev = views(current@);
                proof {
                    assert(acts.take(i + 1).drop_last() =~= acts.take(i as int));
                    assert(acts.take(i + 1).last() == self.actions@[i as int]@);
                }
                if starts_with(self.actions[i].as_str(), action.as_str()) {
                    current.push(self.actions[i].clone());
                    proof {
                        assert(views(current@) =~= prev.push(self.actions@[i as int]@));
                    }
                }
                i += 1;
            }
            proof {
                assert(acts.take(self.actions@.len() as int) =~= acts);
                lemma_matching_actions(acts, action@);
            }
        } else {
            assert(views(current@) =~= Seq::<Seq<char>>::empty());
        }
        if current.len() > 0 && self.selected_index == -1 {
            self.selected_index = 0;
        }
        self.current_action = current;
        self.current_action_arg = match rest {
            Some(r) => trim(r.as_str()),
            None => String::new(),
        };
        self.query = q;
    }
}

} // verus!
