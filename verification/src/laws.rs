use crate::chat::{
    chat_index, has_chat, keep_last, key_release_result, step, ChatStreamMessage, Command, KeyInput,
    Message, Modifiers, SpecialKey, StreamChat, MAX_CHAT_MESSAGES,
};
use crate::config::{plan_auth_result, AppConfig, AuthPlan, TwitchAuthPayload};
use crate::csv_stream::{
    csv_fields, csv_rows, csv_rows_result, entry_of_row, released, CsvMessageStream, CsvRow,
};
use crate::emotes::TwitchEmoteDatabase;
use crate::message::UserMessage;
use crate::palette::{
    actions_for_query, argument_of_query, matching_actions, query_updated, selection_of,
    CommandPalette,
};
use crate::stream::{stream_url_result, StreamSource};
use crate::text::{
    first_index, first_occurrence, is_prefix, occurs_at, split_once_seq, split_once_str_seq,
    trim_seq, trim_start_seq, views,
};
use crate::clock::instant_reached;
use std::time::Instant;
use vstd::prelude::*;

verus! {

/// Opening a stream that is not open and then closing the shown chat leaves
/// the same chats open as before.
pub proof fn law_open_then_close_restores_chats(
    pre: StreamChat,
    name: String,
    mid: StreamChat,
    c1: Command,
    post: StreamChat,
    c2: Command,
)
    requires
        pre.wf(),
        !has_chat(pre.chat_instances@, name@),
        step(pre, Message::OpenChatStream(name), mid, c1),
        step(mid, Message::CloseActiveChatStream, post, c2),
    ensures
        post.chat_instances@ == pre.chat_instances@,
        !has_chat(post.chat_instances@, name@),
{
    let insts = mid.chat_instances@;
    let n = insts.len() - 1;
    assert(insts[n].name@ == name@);
    assert forall|a: int, b: int|
        0 <= a < insts.len() && 0 <= b < insts.len() && a != b implies insts[a].name@
        != insts[b].name@ by {
        if a < n && b < n {
            assert(insts[a] == pre.chat_instances@[a] && insts[b] == pre.chat_instances@[b]);
            assert(pre.wf());
        } else if a < n {
            assert(insts[a] == pre.chat_instances@[a]);
        } else {
            assert(insts[b] == pre.chat_instances@[b]);
        }
    }
    assert(has_chat(insts, name@));
    let k = chat_index(insts, name@);
    assert(k == n);
    assert(insts.remove(n) =~= pre.chat_instances@);
}

/// Messages that arrive while the view is scrolled away are not shown; once
/// the view is scrolled back they follow the earlier messages, in arrival
/// order, the list keeping its newest `MAX_CHAT_MESSAGES`.
pub proof fn law_frozen_messages_join_in_order(
    pre: StreamChat,
    m: UserMessage,
    mid: StreamChat,
    c1: Command,
    post: StreamChat,
    c2: Command,
)
    requires
        pre.wf(),
        pre.chat_frozen,
        chat_index(pre.chat_instances@, pre.active_chat_instance@) >= 0,
        step(pre, Message::HandleChatStreamOutput(ChatStreamMessage::MessagePost(m)), mid, c1),
        step(mid, Message::ChatViewportScroll(false), post, c2),
    ensures
        ({
            let i = chat_index(pre.chat_instances@, pre.active_chat_instance@);
            let c = pre.chat_instances@[i];
            &&& mid.chat_instances@[i].active_messages@ == c.active_messages@
            &&& post.chat_instances@[i].active_messages@ == keep_last(
                c.active_messages@ + keep_last(c.frozen_messages@.push(m), MAX_CHAT_MESSAGES as nat),
                MAX_CHAT_MESSAGES as nat,
            )
            &&& post.chat_instances@[i].frozen_messages@.len() == 0
            &&& !post.chat_frozen
        }),
{
    let i = chat_index(pre.chat_instances@, pre.active_chat_instance@);
    assert(mid.chat_instances@.len() == pre.chat_instances@.len());
    assert(mid.chat_instances@[i].name@ == pre.chat_instances@[i].name@);
    assert forall|j: int| 0 <= j < mid.chat_instances@.len() implies #[trigger] mid.chat_instances@[j].name@
        == pre.chat_instances@[j].name@ by {
        if j != i {
            assert(mid.chat_instances@[j] == pre.chat_instances@[j]);
        }
    }
    assert(mid.active_chat_instance == pre.active_chat_instance);
    let k = chat_index(mid.chat_instances@, mid.active_chat_instance@);
    assert(has_chat(mid.chat_instances@, mid.active_chat_instance@)) by {
        assert(mid.chat_instances@[i].name@ == mid.active_chat_instance@);
    }
    assert(mid.chat_instances@[k].name@ == pre.active_chat_instance@);
    assert(pre.chat_instances@[k].name@ == pre.active_chat_instance@);
    if k != i {
        assert(pre.chat_instances@[i].name@ == pre.active_chat_instance@);
    }
    assert(k == i);
}

/// Typing a query that names an action, when no entry was highlighted, and
/// then selecting, yields that first matching action with the query's
/// argument.
pub proof fn law_typed_query_selects_first_match(
    pre: CommandPalette,
    query: Seq<char>,
    post: CommandPalette,
    r: Option<Message>,
)
    requires
        pre.wf(),
        pre.selected_index == -1,
        actions_for_query(views(pre.actions@), query).len() > 0,
        query_updated(pre, query, post),
        selection_of(post, r),
    ensures
        r matches Some(Message::CommandPaletteHandleAction(action, args)) && action@
            == actions_for_query(views(pre.actions@), query)[0] && (args is None
            <==> argument_of_query(query).len() == 0),
{
    assert(views(post.current_action@)[0] == post.current_action@[0]@);
}

/// The address that opening a chat subscribes to reads back as that Twitch
/// channel.
pub proof fn law_chat_url_reads_back(name: Seq<char>, r: Result<StreamSource, String>)
    requires
        stream_url_result("twitch://"@ + name, r),
    ensures
        r matches Ok(StreamSource::Twitch(t)) && t@ == name,
{
    reveal_strlit("twitch://");
    reveal_strlit("://");
    reveal_strlit("twitch");
    let s = "twitch://"@ + name;
    let p = "://"@;
    assert(s.subrange(6, 9) =~= p);
    assert(occurs_at(s, p, 6));
    assert forall|j: int| 0 <= j < 6 implies !occurs_at(s, p, j) by {
        if occurs_at(s, p, j) {
            assert(s.subrange(j, j + 3)[0] == p[0]);
            assert(s[j] == ':');
        }
    }
    let k = first_occurrence(s, p);
    if k < 6 {
        assert(!occurs_at(s, p, k));
    } else if k > 6 {
        assert(!occurs_at(s, p, 6));
    }
    assert(k == 6);
    reveal_strlit("file");
    assert(s.take(6) =~= "twitch"@);
    assert(s.skip(9) =~= name);
    assert(split_once_str_seq(s, p) == ("twitch"@, Some(name)));
    assert("twitch"@ != "file"@) by {
        assert("twitch"@.len() != "file"@.len());
    }
}

/// Credentials that were stored are the ones used: at an instant that has
/// reached their expiry their refresh token is traded for new ones, before
/// that they are used as they are.
pub proof fn law_stored_auth_is_used(p: TwitchAuthPayload, post: AppConfig)
    requires
        post.twitch_auth == Some(p),
    ensures
        forall|now: Instant, plan: AuthPlan|
            plan_auth_result(post, now, plan) ==> if instant_reached(now, p.expiration_timestamp) {
                plan matches AuthPlan::RefreshToken(t) && t@ == p.refresh_token@
            } else {
                plan is UseCachedToken
            },
{
}

/// An emote that was added is found with the address it was added with, and
/// the other emotes keep theirs.
pub proof fn law_emote_added_is_found(
    pre: TwitchEmoteDatabase,
    key: Seq<char>,
    url: Seq<char>,
    post: TwitchEmoteDatabase,
)
    requires
        post.view_map() == pre.view_map().insert(key, url),
    ensures
        post.view_map().dom().contains(key),
        post.view_map()[key] == url,
        forall|k: Seq<char>|
            k != key ==> (#[trigger] post.view_map().dom().contains(k) == pre.view_map().dom().contains(k)
                && (pre.view_map().dom().contains(k) ==> post.view_map()[k] == pre.view_map()[k])),
{
}

/// A replayed chat delivers its messages in file order: the first message
/// delivered is the first data row's, once its time has come.
pub proof fn law_csv_first_row_first(
    contents: Seq<char>,
    v: Vec<CsvRow>,
    s: CsvMessageStream,
    now: Instant,
    r: Option<UserMessage>,
    post: CsvMessageStream,
)
    requires
        csv_rows_result(contents, Ok(v)),
        s.messages@.len() == v@.len(),
        forall|j: int| 0 <= j < v@.len() ==> entry_of_row(#[trigger] s.messages@[j], v@[j]),
        v@.len() > 0,
        instant_reached(now, s.messages@[0].timestamp),
        released(s, now, r, post),
    ensures
        r matches Some(m) && m.username@ == csv_fields(csv_rows(contents)[0])[0]
            && m.message@ == csv_fields(csv_rows(contents)[0])[1],
        post.messages@.len() == v@.len() - 1,
{
    assert(entry_of_row(s.messages@[0], v@[0]));
}

/// The messages that a sequence of deliveries returned, in call order.
pub open spec fn delivered(results: Seq<Option<UserMessage>>) -> Seq<UserMessage>
    decreases results.len(),
{
    if results.len() == 0 {
        Seq::empty()
    } else {
        let d = delivered(results.drop_last());
        match results.last() {
            Some(m) => d.push(m),
            None => d,
        }
    }
}

/// Over any sequence of deliveries from a replayed chat, the messages
/// returned are the first ones of its schedule, in order, each returned
/// once; the stream keeps the rest; and no message is returned at an
/// instant that has not reached its timestamp.
pub proof fn law_csv_delivery_in_file_order(
    states: Seq<CsvMessageStream>,
    times: Seq<Instant>,
    results: Seq<Option<UserMessage>>,
)
    requires
        states.len() == results.len() + 1,
        times.len() == results.len(),
        forall|k: int|
            0 <= k < results.len() ==> released(
                #[trigger] states[k],
                times[k],
                results[k],
                states[k + 1],
            ),
    ensures
        delivered(results).len() <= states[0].messages@.len(),
        delivered(results) == states[0].messages@.take(delivered(results).len() as int),
        states.last().messages@ == states[0].messages@.skip(delivered(results).len() as int),
        forall|k: int|
            0 <= k < results.len() && (#[trigger] results[k]) is Some ==> states[k].messages@.len()
                > 0 && instant_reached(times[k], states[k].messages@[0].timestamp),
    decreases results.len(),
{
    let first = states[0].messages@;
    if results.len() == 0 {
        assert(first.take(0) =~= Seq::<UserMessage>::empty());
        assert(first.skip(0) =~= first);
    } else {
        let n = results.len() - 1;
        let s2 = states.drop_last();
        let e2 = times.drop_last();
        let r2 = results.drop_last();
        assert forall|k: int| 0 <= k < r2.len() implies released(
            #[trigger] s2[k],
            e2[k],
            r2[k],
            s2[k + 1],
        ) by {
            assert(released(states[k], times[k], results[k], states[k + 1]));
        }
        law_csv_delivery_in_file_order(s2, e2, r2);
        let d = delivered(r2);
        let m = d.len() as int;
        assert(s2.last() == states[n]);
        assert(states[n].messages@ == first.skip(m));
        assert(released(states[n], times[n], results[n], states[n + 1]));
        assert(results.last() == results[n]);
        match results[n] {
            Some(msg) => {
                assert(m < first.len());
                assert(msg == first[m]);
                assert(states[n + 1].messages@ =~= first.skip(m + 1));
                assert(first.take(m + 1) =~= first.take(m).push(first[m]));
            },
            None => {
                assert(states[n + 1] == states[n]);
            },
        }
        assert(states.last() == states[n + 1]);
        assert forall|k: int|
            0 <= k < results.len() && (#[trigger] results[k]) is Some implies states[k].messages@.len()
            > 0 && instant_reached(times[k], states[k].messages@[0].timestamp) by {
            assert(released(states[k], times[k], results[k], states[k + 1]));
        }
    }
}

/// Sending the typed text, when it is more than white space, clears the
/// input and posts the text, trimmed, to the broadcaster of the chat that is
/// shown (chat `k`), as the signed-in user, whenever both are known; a post
/// never goes anywhere but to the shown chat's broadcaster.
pub proof fn law_send_goes_to_shown_chat(pre: StreamChat, post: StreamChat, cmd: Command, k: int)
    requires
        pre.wf(),
        step(pre, Message::SendInputMessage, post, cmd),
        0 <= k < pre.chat_instances@.len(),
        pre.chat_instances@[k].name@ == pre.active_chat_instance@,
        trim_seq(pre.input_message@).len() > 0,
    ensures
        post.input_message@.len() == 0,
        post.chat_instances == pre.chat_instances,
        post.active_chat_instance == pre.active_chat_instance,
        (pre.chat_instances@[k].broadcaster_id is Some && pre.user_id is Some)
            <==> cmd is SendChatMessage,
        cmd is SendChatMessage ==> {
            &&& cmd->broadcaster_id@ == pre.chat_instances@[k].broadcaster_id->0@
            &&& cmd->user_id@ == pre.user_id->0@
            &&& cmd->message@ == trim_seq(pre.input_message@)
            &&& pre.api_config == Some(cmd->api_config)
            &&& pre.app_config == Some(cmd->app_config)
        },
        post.user_id == pre.user_id,
        post.command_palette_ctx == pre.command_palette_ctx,
{
    let insts = pre.chat_instances@;
    assert(has_chat(insts, pre.active_chat_instance@));
    let i = chat_index(insts, pre.active_chat_instance@);
    assert(0 <= i < insts.len() && insts[i].name@ == pre.active_chat_instance@);
    assert(i == k);
}

/// With no chat shown, sending posts nothing.
pub proof fn law_send_needs_shown_chat(pre: StreamChat, post: StreamChat, cmd: Command)
    requires
        step(pre, Message::SendInputMessage, post, cmd),
        forall|j: int|
            0 <= j < pre.chat_instances@.len() ==> (#[trigger] pre.chat_instances@[j]).name@
                != pre.active_chat_instance@,
    ensures
        cmd is NoOp,
{
    assert(!has_chat(pre.chat_instances@, pre.active_chat_instance@));
}

/// A message from the chat stream goes to the chat that is shown (chat
/// `k`): to its shown list, or to its held-back list while the view is
/// scrolled away; that list keeps its newest 100 messages, and nothing else
/// changes.
pub proof fn law_message_posted_to_shown_chat(
    pre: StreamChat,
    m: UserMessage,
    post: StreamChat,
    cmd: Command,
    k: int,
)
    requires
        pre.wf(),
        step(pre, Message::HandleChatStreamOutput(ChatStreamMessage::MessagePost(m)), post, cmd),
        0 <= k < pre.chat_instances@.len(),
        pre.chat_instances@[k].name@ == pre.active_chat_instance@,
    ensures
        cmd is NoOp,
        post.chat_instances@.len() == pre.chat_instances@.len(),
        forall|j: int|
            0 <= j < pre.chat_instances@.len() && j != k ==> (#[trigger] post.chat_instances@[j])
                == pre.chat_instances@[j],
        post.chat_instances@[k].name == pre.chat_instances@[k].name,
        post.active_chat_instance == pre.active_chat_instance,
        post.chat_frozen == pre.chat_frozen,
        !pre.chat_frozen ==> {
            let s = pre.chat_instances@[k].active_messages@.push(m);
            &&& post.chat_instances@[k].active_messages@ == (if s.len() > 100 {
                s.skip(s.len() - 100)
            } else {
                s
            })
            &&& post.chat_instances@[k].frozen_messages == pre.chat_instances@[k].frozen_messages
        },
        pre.chat_frozen ==> {
            let s = pre.chat_instances@[k].frozen_messages@.push(m);
            &&& post.chat_instances@[k].frozen_messages@ == (if s.len() > 100 {
                s.skip(s.len() - 100)
            } else {
                s
            })
            &&& post.chat_instances@[k].active_messages == pre.chat_instances@[k].active_messages
        },
{
    let insts = pre.chat_instances@;
    assert(has_chat(insts, pre.active_chat_instance@));
    let i = chat_index(insts, pre.active_chat_instance@);
    assert(0 <= i < insts.len() && insts[i].name@ == pre.active_chat_instance@);
    assert(i == k);
    assert forall|j: int| 0 <= j < insts.len() && j != k implies (#[trigger] post.chat_instances@[j])
        == insts[j] by {
        assert(post.chat_instances@ == insts.update(k, post.chat_instances@[k]));
    }
}

/// With no chat shown, a message from the chat stream changes nothing.
pub proof fn law_message_needs_shown_chat(
    pre: StreamChat,
    m: UserMessage,
    post: StreamChat,
    cmd: Command,
)
    requires
        step(pre, Message::HandleChatStreamOutput(ChatStreamMessage::MessagePost(m)), post, cmd),
        forall|j: int|
            0 <= j < pre.chat_instances@.len() ==> (#[trigger] pre.chat_instances@[j]).name@
                != pre.active_chat_instance@,
    ensures
        post == pre,
        cmd is NoOp,
{
    assert(!has_chat(pre.chat_instances@, pre.active_chat_instance@));
}

/// The palette keys: Escape closes the palette; while it is open, arrow up
/// highlights the entry above and arrow down or tab the entry below, kept
/// between -1 (none) and the last entry; while it is closed the other keys
/// do nothing. The state itself is untouched.
pub proof fn law_palette_keys(pre: StreamChat, key: SpecialKey, post: StreamChat, cmd: Command)
    requires
        step(pre, Message::HandleSpecialKey(key), post, cmd),
    ensures
        post == pre,
        key == SpecialKey::Escape ==> (cmd matches Command::Dispatch(v) && v@ == seq![
            Message::CommandPaletteToggle(false, None),
        ]),
        key != SpecialKey::Escape && !pre.command_palette_ctx.active ==> cmd is NoOp,
        ({
            let s = pre.command_palette_ctx.selected_index as int;
            let last = pre.command_palette_ctx.current_action@.len() - 1;
            let below = if s + 1 < -1 {
                -1
            } else if s + 1 > last {
                last
            } else {
                s + 1
            };
            let above = if s - 1 < -1 {
                -1
            } else if s - 1 > last {
                last
            } else {
                s - 1
            };
            &&& (pre.command_palette_ctx.active && (key == SpecialKey::ArrowDown || key
                == SpecialKey::Tab)) ==> (cmd matches Command::Dispatch(v) && v@ == seq![
                Message::CommandPaletteHighlightActionIndex(below as i32),
            ])
            &&& (pre.command_palette_ctx.active && key == SpecialKey::ArrowUp) ==> (cmd matches Command::Dispatch(
                v,
            ) && v@ == seq![Message::CommandPaletteHighlightActionIndex(above as i32)])
        }),
{
}

/// Tab and arrow down do the same thing.
pub proof fn law_tab_is_arrow_down(
    pre: StreamChat,
    post1: StreamChat,
    cmd1: Command,
    post2: StreamChat,
    cmd2: Command,
)
    requires
        step(pre, Message::HandleSpecialKey(SpecialKey::Tab), post1, cmd1),
        step(pre, Message::HandleSpecialKey(SpecialKey::ArrowDown), post2, cmd2),
    ensures
        post1 == post2,
        cmd1 is NoOp <==> cmd2 is NoOp,
        cmd1 is Dispatch ==> cmd2 is Dispatch && cmd1->Dispatch_0@ == cmd2->Dispatch_0@,
{
}

/// The special keys (Escape, the arrows, tab) reach the window whatever
/// the modifiers; other named keys do nothing.
pub proof fn law_named_keys(key: KeyInput, mods: Modifiers, command: Modifiers, r: Option<Message>)
    requires
        key_release_result(key, mods, command, r),
    ensures
        key matches KeyInput::Named(k) ==> r == Some(Message::HandleSpecialKey(k)),
        key is OtherNamed ==> r is None,
{
}

/// The keyboard shortcuts: `p` with control (or the platform's command
/// modifier) opens the palette; `t` or `n` with control or the logo key
/// opens it on `open stream: `; `w` with control or the command modifier
/// closes the shown chat; other characters do nothing.
pub proof fn law_key_shortcuts(c: String, mods: Modifiers, command: Modifiers, r: Option<Message>)
    requires
        key_release_result(KeyInput::Character(c), mods, command, r),
    ensures
        ({
            let ctrl = Modifiers { ctrl: true, shift: false, alt: false, logo: false };
            let logo = Modifiers { ctrl: false, shift: false, alt: false, logo: true };
            &&& (c@ == "p"@ && (mods == ctrl || mods == command)) ==> r == Some(
                Message::CommandPaletteToggle(true, None),
            )
            &&& ((c@ == "t"@ || c@ == "n"@) && (mods == ctrl || mods == logo)) ==> (r matches Some(
                Message::CommandPaletteToggle(true, Some(q)),
            ) && q@ == "open stream: "@)
            &&& (c@ == "w"@ && (mods == ctrl || mods == command)) ==> r == Some(
                Message::CloseActiveChatStream,
            )
            &&& (c@ != "p"@ && c@ != "t"@ && c@ != "n"@ && c@ != "w"@) ==> r is None
        }),
{
    reveal_strlit("p");
    reveal_strlit("t");
    reveal_strlit("n");
    reveal_strlit("w");
    assert("p"@ != "t"@ && "p"@ != "n"@ && "p"@ != "w"@ && "t"@ != "w"@ && "n"@ != "w"@) by {
        assert("p"@[0] != "t"@[0]);
        assert("p"@[0] != "n"@[0]);
        assert("p"@[0] != "w"@[0]);
        assert("t"@[0] != "w"@[0]);
        assert("n"@[0] != "w"@[0]);
    }
}

/// The first `c` in `s` is at `n` when `s` has none before `n` and one
/// there (or ends there).
proof fn lemma_first_index_at(s: Seq<char>, c: char, n: int)
    requires
        0 <= n <= s.len(),
        forall|j: int| 0 <= j < n ==> s[j] != c,
        n == s.len() || s[n] == c,
    ensures
        first_index(s, c) == (if n < s.len() {
            n
        } else {
            -1
        }),
    decreases n,
{
    if s.len() > 0 && n > 0 {
        assert forall|j: int| 0 <= j < n - 1 implies s.drop_first()[j] != c by {
            assert(s.drop_first()[j] == s[j + 1]);
        }
        if n < s.len() {
            assert(s.drop_first()[n - 1] == s[n]);
        }
        lemma_first_index_at(s.drop_first(), c, n - 1);
    }
}

/// What `matching_actions` lists: actions that begin with the prefix, and
/// every such action.
proof fn lemma_matching_members(acts: Seq<Seq<char>>, p: Seq<char>)
    ensures
        forall|k: int|
            0 <= k < matching_actions(acts, p).len() ==> is_prefix(
                p,
                #[trigger] matching_actions(acts, p)[k],
            ) && acts.contains(matching_actions(acts, p)[k]),
        forall|j: int|
            0 <= j < acts.len() && is_prefix(p, #[trigger] acts[j]) ==> matching_actions(
                acts,
                p,
            ).contains(acts[j]),
    decreases acts.len(),
{
    if acts.len() > 0 {
        let init = acts.drop_last();
        lemma_matching_members(init, p);
        let r = matching_actions(init, p);
        let m = matching_actions(acts, p);
        assert forall|k: int| 0 <= k < m.len() implies is_prefix(p, #[trigger] m[k]) && acts.contains(
            m[k],
        ) by {
            if k < r.len() {
                assert(m[k] == r[k]);
                let w = choose|w: int| 0 <= w < init.len() && init[w] == r[k];
                assert(acts[w] == r[k]);
            } else {
                assert(m[k] == acts.last());
                assert(acts[acts.len() - 1] == acts.last());
            }
        }
        assert forall|j: int| 0 <= j < acts.len() && is_prefix(p, #[trigger] acts[j]) implies m.contains(
            acts[j],
        ) by {
            if j < init.len() {
                assert(init[j] == acts[j]);
                assert(r.contains(init[j]));
                let w = choose|w: int| 0 <= w < r.len() && r[w] == init[j];
                assert(m[w] == r[w]);
            } else {
                assert(m[m.len() - 1] == acts[j]);
            }
        }
    }
}

/// Typing a query into the palette lists exactly the offered actions that
/// begin with its action part `a` (the text before its first `':'`, leading
/// white space dropped), none when that part is empty, and highlights the
/// first entry when entries are listed and none was highlighted.
pub proof fn law_query_filters_actions(
    pre: CommandPalette,
    q: Seq<char>,
    post: CommandPalette,
    a: Seq<char>,
)
    requires
        query_updated(pre, q, post),
        a.len() <= trim_start_seq(q).len(),
        trim_start_seq(q).take(a.len() as int) == a,
        forall|j: int| 0 <= j < a.len() ==> a[j] != ':',
        a.len() == trim_start_seq(q).len() || trim_start_seq(q)[a.len() as int] == ':',
    ensures
        post.actions == pre.actions,
        a.len() == 0 ==> post.current_action@.len() == 0,
        forall|k: int|
            0 <= k < post.current_action@.len() ==> a.len() <= (#[trigger] post.current_action@[k])@.len()
                && post.current_action@[k]@.take(a.len() as int) == a && views(
                pre.actions@,
            ).contains(post.current_action@[k]@),
        a.len() > 0 ==> forall|j: int|
            0 <= j < pre.actions@.len() && a.len() <= (#[trigger] pre.actions@[j])@.len()
                && pre.actions@[j]@.take(a.len() as int) == a ==> views(post.current_action@).contains(
                pre.actions@[j]@,
            ),
        post.selected_index == (if post.current_action@.len() > 0 && pre.selected_index == -1 {
            0
        } else {
            pre.selected_index
        }),
        post.query@ == trim_start_seq(q),
        post.current_action_arg@ == (if a.len() < trim_start_seq(q).len() {
            trim_seq(trim_start_seq(q).skip(a.len() + 1int))
        } else {
            Seq::empty()
        }),
        post.active == pre.active,
{
    let t = trim_start_seq(q);
    assert forall|j: int| 0 <= j < a.len() implies t[j] != ':' by {
        assert(t.take(a.len() as int)[j] == t[j]);
    }
    lemma_first_index_at(t, ':', a.len() as int);
    if a.len() == t.len() {
        assert(t =~= a);
    }
    assert(split_once_seq(t, ':').0 == a);
    let acts = views(pre.actions@);
    let cur = views(post.current_action@);
    if a.len() > 0 {
        assert(cur == matching_actions(acts, a));
        lemma_matching_members(acts, a);
        assert forall|k: int| 0 <= k < post.current_action@.len() implies a.len() <= (
        #[trigger] post.current_action@[k])@.len() && post.current_action@[k]@.take(a.len() as int)
            == a && acts.contains(post.current_action@[k]@) by {
            assert(cur[k] == post.current_action@[k]@);
        }
        assert forall|j: int|
            0 <= j < pre.actions@.len() && a.len() <= (#[trigger] pre.actions@[j])@.len()
                && pre.actions@[j]@.take(a.len() as int) == a implies cur.contains(
            pre.actions@[j]@,
        ) by {
            assert(acts[j] == pre.actions@[j]@);
        }
    } else {
        assert(cur.len() == 0);
    }
}

} // verus!
