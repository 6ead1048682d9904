use crate::config::{ApiConfig, AppConfig};
use crate::emotes::{EmoteDatabaseEnum, TwitchEmoteDatabase};
use crate::message::UserMessage;
use crate::palette::{
    clamp_index, query_updated, selection_of, selection_updated, CommandPalette,
};
use crate::text::{concat_str, equals, trim, trim_seq, views};
use std::collections::VecDeque;
use tokio_util::sync::CancellationToken;
use vstd::prelude::*;

verus! {

/// `tokio_util`'s cancellation token, which stops a running chat stream.
#[verifier::external_type_specification]
#[verifier::external_body]
pub struct ExCancellationToken(CancellationToken);

/// `CancellationToken::clone`: another handle to the same token. Nothing is
/// stated of the result: the handles share the token's state, which the
/// library does not model.
pub assume_specification[ <CancellationToken as Clone>::clone ](t: &CancellationToken) -> CancellationToken;

/// What the task that reads a chat stream reports.
#[derive(Clone, Debug)]
pub enum ChatStreamMessage {
    InitializeChatError(String),
    /// Broadcaster id, broadcaster (stream) name, and the token that stops the stream.
    SaveBroadcasterInfo(String, String, CancellationToken),
    SaveUserId(String),
    /// Whether the stream was set up.
    MessageStreamInitState(bool),
    MessagePost(UserMessage),
    InitializeEmoteDb,
}

/// The keys that the chat window reacts to.
#[derive(Clone, Copy, Debug, PartialEq, Eq, Structural)]
pub enum SpecialKey {
    Escape,
    ArrowUp,
    ArrowDown,
    Tab,
}

/// The events that drive the chat window.
#[derive(Clone, Debug)]
pub enum Message {
    InitializeApp,
    OpenChatStream(String),
    CloseActiveChatStream,
    /// The chat stream task ended; with the error text when it failed.
    ChatStreamError(Option<String>),
    UpdateAppConfig(Option<(ApiConfig, AppConfig)>),
    HandleChatStreamOutput(ChatStreamMessage),
    InputMessageChanged(String),
    SendInputMessage,
    SwitchActiveChat(String),
    /// Attach the emote database to the chat of the named stream.
    AttachEmoteDatabase(String, EmoteDatabaseEnum),
    HandleError(String),
    /// Open (`true`) or close the command palette, with an optional starting query.
    CommandPaletteToggle(bool, Option<String>),
    CommandPaletteSearchChanged(String),
    CommandPaletteSelect,
    /// An action name and its arguments.
    CommandPaletteHandleAction(String, Option<Vec<String>>),
    CommandPaletteHighlightActionIndex(i32),
    HandleSpecialKey(SpecialKey),
    /// Whether the chat view is scrolled away from its newest message.
    ChatViewportScroll(bool),
    FocusChatArea,
    Nothing,
    Terminate,
}

/// How many messages a chat keeps, in its shown list and in its held-back list.
pub const MAX_CHAT_MESSAGES: usize = 100;

/// What the chat window asks its runtime to do after an event.
#[derive(Debug)]
pub enum Command {
    /// Nothing to do.
    NoOp,
    /// Stop the stream that this token belongs to (the chat it fed was closed).
    CancelStream(CancellationToken),
    /// Deliver these events, in order.
    Dispatch(Vec<Message>),
    /// Load the configuration (answered by `UpdateAppConfig`), and focus the chat input.
    InitializeApp,
    /// Start reading the chat stream at `url` for the chat `stream_name`.
    SubscribeChatStream { stream_name: String, url: String },
    /// Build the emote database of the named chat (answered by `AttachEmoteDatabase`).
    CreateEmoteDatabase(String),
    /// Post `message` to the chat of `broadcaster_id` as `user_id`.
    SendChatMessage {
        broadcaster_id: String,
        user_id: String,
        api_config: ApiConfig,
        app_config: AppConfig,
        message: String,
    },
    FocusCommandPalette,
    FocusChatInput,
    MoveCommandPaletteCursorToEnd,
    CloseWindow,
}

/// One open chat.
#[derive(Debug)]
pub struct ChatInstance {
    /// The stream's name, which identifies the chat.
    pub name: String,
    /// The messages shown, oldest first.
    pub active_messages: VecDeque<UserMessage>,
    /// The messages held back while the view is scrolled away from the newest.
    pub frozen_messages: VecDeque<UserMessage>,
    /// Stops the stream that feeds this chat.
    pub cancel_task: Option<CancellationToken>,
    pub broadcaster_name: Option<String>,
    pub broadcaster_id: Option<String>,
    pub emote_db: Option<TwitchEmoteDatabase>,
}

/// The state of the chat window.
#[derive(Debug)]
pub struct StreamChat {
    /// Whether a chat stream has been set up.
    pub subscribed_to_message_stream: bool,
    /// The name of the chat shown, or empty for none.
    pub active_chat_instance: String,
    pub chat_instances: Vec<ChatInstance>,
    /// The text typed into the chat input.
    pub input_message: String,
    pub api_config: Option<ApiConfig>,
    pub app_config: Option<AppConfig>,
    /// The signed-in user's id.
    pub user_id: Option<String>,
    pub command_palette_ctx: CommandPalette,
    /// Whether new messages are held back (the view is scrolled away from the newest).
    pub chat_frozen: bool,
}

/// The last `n` elements of `s` (all of them when there are fewer).
pub open spec fn keep_last<T>(s: Seq<T>, n: nat) -> Seq<T> {
    if s.len() > n {
        s.skip(s.len() - n)
    } else {
        s
    }
}

/// No two chats share a name.
pub open spec fn distinct_chat_names(insts: Seq<ChatInstance>) -> bool {
    forall|i: int, j: int|
        0 <= i < insts.len() && 0 <= j < insts.len() && i != j ==> insts[i].name@
            != insts[j].name@
}

/// Whether a chat named `name` is open.
pub open spec fn has_chat(insts: Seq<ChatInstance>, name: Seq<char>) -> bool {
    exists|i: int| 0 <= i < insts.len() && insts[i].name@ == name
}

/// Index of the chat named `name`, or -1 when none is open.
pub open spec fn chat_index(insts: Seq<ChatInstance>, name: Seq<char>) -> int {
    if has_chat(insts, name) {
        choose|i: int| 0 <= i < insts.len() && insts[i].name@ == name
    } else {
        -1
    }
}

/// A chat just opened for `name`: no messages, no stream details yet.
pub open spec fn is_fresh_chat(c: ChatInstance, name: Seq<char>) -> bool {
    &&& c.name@ == name
    &&& c.active_messages@.len() == 0
    &&& c.frozen_messages@.len() == 0
    &&& c.cancel_task is None
    &&& c.broadcaster_name is None
    &&& c.broadcaster_id is None
    &&& c.emote_db is None
}

/// The command delivers `Terminate` alone.
pub open spec fn emits_terminate(cmd: Command) -> bool {
    cmd matches Command::Dispatch(v) && v@ == seq![Message::Terminate]
}

/// The command delivers one `HandleError` with the given text.
pub open spec fn emits_error(cmd: Command, text: Seq<char>) -> bool {
    cmd matches Command::Dispatch(v) && v@.len() == 1 && (v@[0] matches Message::HandleError(e)
        && e@ == text)
}

/// `post` is `pre` with the chat at `i` replaced by `c`.
pub open spec fn chat_replaced(pre: StreamChat, i: int, c: ChatInstance, post: StreamChat) -> bool {
    &&& post.chat_instances@ == pre.chat_instances@.update(i, c)
    &&& post == StreamChat { chat_instances: post.chat_instances, ..pre }
}

/// The effect of a new message on a chat: it goes to the held-back list while
/// the view is frozen, to the shown list otherwise; either list keeps its
/// newest `MAX_CHAT_MESSAGES`.
pub open spec fn posted(c: ChatInstance, m: UserMessage, frozen: bool, c2: ChatInstance) -> bool {
    if frozen {
        &&& c2 == ChatInstance { frozen_messages: c2.frozen_messages, ..c }
        &&& c2.frozen_messages@ == keep_last(c.frozen_messages@.push(m), MAX_CHAT_MESSAGES as nat)
    } else {
        &&& c2 == ChatInstance { active_messages: c2.active_messages, ..c }
        &&& c2.active_messages@ == keep_last(c.active_messages@.push(m), MAX_CHAT_MESSAGES as nat)
    }
}

/// The effect of unfreezing on a chat: the held-back messages join the shown
/// ones, which keep their newest `MAX_CHAT_MESSAGES`.
pub open spec fn flushed(c: ChatInstance, c2: ChatInstance) -> bool {
    &&& c2 == ChatInstance {
        active_messages: c2.active_messages,
        frozen_messages: c2.frozen_messages,
        ..c
    }
    &&& c2.active_messages@ == keep_last(
        c.active_messages@ + c.frozen_messages@,
        MAX_CHAT_MESSAGES as nat,
    )
    &&& c2.frozen_messages@.len() == 0
}

/// The result of a chat stream report.
pub open spec fn stream_output_step(
    pre: StreamChat,
    m: ChatStreamMessage,
    post: StreamChat,
    cmd: Command,
) -> bool {
    match m {
        ChatStreamMessage::InitializeEmoteDb => {
            &&& post == pre
            &&& cmd matches Command::CreateEmoteDatabase(n) && n@ == pre.active_chat_instance@
        },
        ChatStreamMessage::SaveUserId(u) => {
            &&& post == StreamChat { user_id: Some(u), ..pre }
            &&& cmd is NoOp
        },
        ChatStreamMessage::MessagePost(msg) => {
            let i = chat_index(pre.chat_instances@, pre.active_chat_instance@);
            &&& cmd is NoOp
            &&& if i < 0 {
                post == pre
            } else {
                &&& chat_replaced(pre, i, post.chat_instances@[i], post)
                &&& posted(pre.chat_instances@[i], msg, pre.chat_frozen, post.chat_instances@[i])
            }
        },
        ChatStreamMessage::SaveBroadcasterInfo(id, name, token) => {
            let i = chat_index(pre.chat_instances@, name@);
            if i < 0 {
                &&& post == pre
                &&& emits_error(cmd, "Cannot save broadcast info for broascaster: "@ + name@)
            } else {
                &&& chat_replaced(
                    pre,
                    i,
                    ChatInstance {
                        broadcaster_id: Some(id),
                        broadcaster_name: Some(name),
                        cancel_task: Some(token),
                        ..pre.chat_instances@[i]
                    },
                    post,
                )
                &&& cmd is NoOp
            }
        },
        ChatStreamMessage::MessageStreamInitState(ok) => {
            &&& post == StreamChat { subscribed_to_message_stream: ok, ..pre }
            &&& cmd is NoOp
        },
        ChatStreamMessage::InitializeChatError(e) => {
            &&& post == pre
            &&& emits_error(cmd, e@)
        },
    }
}

/// The result of the palette actions (selected or typed).
pub open spec fn action_step(action: Seq<char>, args: Option<Vec<String>>, cmd: Command) -> bool {
    if action == "quit"@ {
        emits_terminate(cmd)
    } else if action == "open stream"@ {
        match args {
            Some(a) => cmd matches Command::Dispatch(v) && v@.len() == 1 && (v@[0] matches Message::OpenChatStream(
                n,
            ) && n@ == a@[0]@),
            None => emits_error(cmd, "No stream selected to open..."@),
        }
    } else {
        emits_error(cmd, "Unknown action: "@ + action)
    }
}

/// The result of `update(msg)` on `pre`: the new state `post` and the command.
pub open spec fn step(pre: StreamChat, msg: Message, post: StreamChat, cmd: Command) -> bool {
    match msg {
        Message::InitializeApp => post == pre && cmd is InitializeApp,
        Message::CloseActiveChatStream => {
            let i = chat_index(pre.chat_instances@, pre.active_chat_instance@);
            let remaining = if i >= 0 {
                pre.chat_instances@.remove(i)
            } else {
                pre.chat_instances@
            };
            &&& post.chat_instances@ == remaining
            &&& post.active_chat_instance@ == (if remaining.len() > 0 {
                remaining[0].name@
            } else {
                Seq::empty()
            })
            &&& post == StreamChat {
                chat_instances: post.chat_instances,
                active_chat_instance: post.active_chat_instance,
                ..pre
            }
            &&& if i >= 0 && pre.chat_instances@[i].cancel_task is Some {
                cmd == Command::CancelStream(pre.chat_instances@[i].cancel_task->0)
            } else {
                cmd is NoOp
            }
        },
        Message::OpenChatStream(name) => {
            if has_chat(pre.chat_instances@, name@) {
                post == pre && cmd is NoOp
            } else {
                &&& post.chat_instances@.len() == pre.chat_instances@.len() + 1
                &&& post.chat_instances@.drop_last() == pre.chat_instances@
                &&& is_fresh_chat(post.chat_instances@.last(), name@)
                &&& post.active_chat_instance@ == name@
                &&& post == StreamChat {
                    chat_instances: post.chat_instances,
                    active_chat_instance: post.active_chat_instance,
                    ..pre
                }
                &&& cmd matches Command::SubscribeChatStream { stream_name, url }
                    && stream_name@ == name@ && url@ == "twitch://"@ + name@
            }
        },
        Message::ChatStreamError(e) => {
            &&& post == pre
            &&& if e is Some {
                emits_terminate(cmd)
            } else {
                cmd is NoOp
            }
        },
        Message::UpdateAppConfig(c) => match c {
            None => post == pre && emits_error(cmd, "Failed to initialize config."@),
            Some((api, app)) => {
                &&& post == StreamChat { api_config: Some(api), app_config: Some(app), ..pre }
                &&& cmd is NoOp
            },
        },
        Message::HandleChatStreamOutput(m) => stream_output_step(pre, m, post, cmd),
        Message::InputMessageChanged(m) => post == StreamChat { input_message: m, ..pre }
            && cmd is NoOp,
        Message::SendInputMessage => {
            let text = trim_seq(pre.input_message@);
            let i = chat_index(pre.chat_instances@, pre.active_chat_instance@);
            if text.len() == 0 {
                post == pre && cmd is NoOp
            } else {
                &&& post.input_message@.len() == 0
                &&& post == StreamChat { input_message: post.input_message, ..pre }
                &&& if i >= 0 && pre.chat_instances@[i].broadcaster_id is Some
                    && pre.user_id is Some {
                    cmd matches Command::SendChatMessage {
                        broadcaster_id,
                        user_id,
                        api_config,
                        app_config,
                        message,
                    } && broadcaster_id@ == pre.chat_instances@[i].broadcaster_id->0@ && user_id@
                        == pre.user_id->0@ && pre.api_config == Some(api_config)
                        && pre.app_config == Some(app_config) && message@ == text
                } else {
                    cmd is NoOp
                }
            }
        },
        Message::SwitchActiveChat(c) => {
            &&& cmd is NoOp
            &&& if has_chat(pre.chat_instances@, c@) {
                post == StreamChat { active_chat_instance: c, ..pre }
            } else {
                post == pre
            }
        },
        Message::AttachEmoteDatabase(id, db) => {
            let i = chat_index(pre.chat_instances@, id@);
            &&& cmd is NoOp
            &&& match db {
                EmoteDatabaseEnum::TwitchEmoteDatabase(d) => if i >= 0 {
                    chat_replaced(
                        pre,
                        i,
                        ChatInstance { emote_db: Some(d), ..pre.chat_instances@[i] },
                        post,
                    )
                } else {
                    post == pre
                },
                EmoteDatabaseEnum::NoDatabase => post == pre,
            }
        },
        Message::HandleError(_) => post == pre && emits_terminate(cmd),
        Message::CommandPaletteToggle(enable, start) => {
            let p1 = CommandPalette { active: enable, ..pre.command_palette_ctx };
            &&& post == StreamChat { command_palette_ctx: post.command_palette_ctx, ..pre }
            &&& if enable {
                &&& match start {
                    Some(q) => query_updated(p1, q@, post.command_palette_ctx),
                    None => post.command_palette_ctx == p1,
                }
                &&& cmd is FocusCommandPalette
            } else {
                &&& query_updated(p1, Seq::empty(), post.command_palette_ctx)
                &&& cmd matches Command::Dispatch(v) && v@ == seq![Message::FocusChatArea]
            }
        },
        Message::CommandPaletteSearchChanged(q) => {
            &&& query_updated(pre.command_palette_ctx, q@, post.command_palette_ctx)
            &&& post == StreamChat { command_palette_ctx: post.command_palette_ctx, ..pre }
            &&& cmd is NoOp
        },
        Message::CommandPaletteSelect => {
            let p = pre.command_palette_ctx;
            &&& post == pre
            &&& if 0 <= p.selected_index < p.current_action@.len() {
                cmd matches Command::Dispatch(v) && v@.len() == 2 && selection_of(p, Some(v@[0]))
                    && v@[1] == Message::CommandPaletteToggle(false, None)
            } else {
                cmd is NoOp
            }
        },
        Message::CommandPaletteHandleAction(action, args) => {
            &&& post == pre
            &&& action_step(action@, args, cmd)
        },
        Message::CommandPaletteHighlightActionIndex(index) => {
            &&& post == StreamChat { command_palette_ctx: post.command_palette_ctx, ..pre }
            &&& exists|moved: bool|
                selection_updated(
                    pre.command_palette_ctx,
                    index as int,
                    post.command_palette_ctx,
                    moved,
                ) && (if moved {
                    cmd is MoveCommandPaletteCursorToEnd
                } else {
                    cmd is NoOp
                })
        },
        Message::HandleSpecialKey(key) => {
            let p = pre.command_palette_ctx;
            &&& post == pre
            &&& if key == SpecialKey::Escape {
                cmd matches Command::Dispatch(v) && v@ == seq![
                    Message::CommandPaletteToggle(false, None),
                ]
            } else if p.active {
                let delta: int = if key == SpecialKey::ArrowUp {
                    -1
                } else {
                    1
                };
                let next = clamp_index(p.selected_index + delta, p.current_action@.len() as int);
                cmd matches Command::Dispatch(v) && v@ == seq![
                    Message::CommandPaletteHighlightActionIndex(next as i32),
                ]
            } else {
                cmd is NoOp
            }
        },
        Message::ChatViewportScroll(scrolled) => {
            let i = chat_index(pre.chat_instances@, pre.active_chat_instance@);
            &&& cmd is NoOp
            &&& if pre.chat_frozen && !scrolled && i >= 0 {
                &&& post.chat_instances@ == pre.chat_instances@.update(
                    i,
                    post.chat_instances@[i],
                )
                &&& flushed(pre.chat_instances@[i], post.chat_instances@[i])
                &&& post == StreamChat {
                    chat_instances: post.chat_instances,
                    chat_frozen: scrolled,
                    ..pre
                }
            } else {
                post == StreamChat { chat_frozen: scrolled, ..pre }
            }
        },
        Message::FocusChatArea => post == pre && cmd is FocusChatInput,
        Message::Nothing => post == pre && cmd is NoOp,
        Message::Terminate => post == pre && cmd is CloseWindow,
    }
}

/// What `update(msg)` needs beyond the state's invariant: sending a typed
/// message needs the configuration, and opening a stream from the palette
/// needs its name.
pub open spec fn update_requires(s: StreamChat, msg: Message) -> bool {
    match msg {
        Message::SendInputMessage => trim_seq(s.input_message@).len() > 0 ==> (
        s.api_config is Some && s.app_config is Some),
        Message::CommandPaletteHandleAction(action, args) => (action@ == "open stream"@
            && args is Some) ==> args->0@.len() > 0,
        _ => true,
    }
}

/// Replacing a chat by one with the same name and message lists keeps the
/// window's invariant.
proof fn lemma_wf_replace(pre: StreamChat, i: int, c2: ChatInstance, post: StreamChat)
    requires
        pre.wf(),
        0 <= i < pre.chat_instances@.len(),
        chat_replaced(pre, i, c2, post),
        c2.name == pre.chat_instances@[i].name,
        c2.active_messages == pre.chat_instances@[i].active_messages,
        c2.frozen_messages == pre.chat_instances@[i].frozen_messages,
    ensures
        post.wf(),
{
    let r = post.chat_instances@;
    let insts = pre.chat_instances@;
    assert forall|a: int| 0 <= a < r.len() implies (#[trigger] r[a]).name@ == insts[a].name@
        && r[a].active_messages@.len() <= MAX_CHAT_MESSAGES && r[a].frozen_messages@.len()
        <= MAX_CHAT_MESSAGES by {
        if a != i {
            assert(r[a] == insts[a]);
        }
    }
    if pre.active_chat_instance@.len() > 0 {
        let k = choose|k: int| 0 <= k < insts.len() && insts[k].name@ == pre.active_chat_instance@;
        assert(r[k].name@ == post.active_chat_instance@);
    }
}

/// A released key, as far as the chat window tells keys apart.
#[derive(Debug)]
pub enum KeyInput {
    Named(SpecialKey),
    /// Another named key (shift, enter, ...).
    OtherNamed,
    /// A key that types text.
    Character(String),
}

/// The modifier keys held with a key.
#[derive(Clone, Copy, Debug, PartialEq, Eq, Structural)]
pub struct Modifiers {
    pub ctrl: bool,
    pub shift: bool,
    pub alt: bool,
    pub logo: bool,
}

/// Control alone.
pub open spec fn ctrl_only() -> Modifiers {
    Modifiers { ctrl: true, shift: false, alt: false, logo: false }
}

/// The logo (super) key alone.
pub open spec fn logo_only() -> Modifiers {
    Modifiers { ctrl: false, shift: false, alt: false, logo: true }
}

/// The event that a released key produces, given the platform's command
/// modifier (control, or the logo key on macOS): the special keys whatever
/// the modifiers; `p` with control or command opens the palette; `t` or `n`
/// with the logo key or control opens it to open a stream; `w` with control
/// or command closes the shown chat.
pub open spec fn key_release_result(
    key: KeyInput,
    mods: Modifiers,
    command: Modifiers,
    r: Option<Message>,
) -> bool {
    match key {
        KeyInput::Named(k) => r == Some(Message::HandleSpecialKey(k)),
        KeyInput::OtherNamed => r is None,
        KeyInput::Character(c) => if c@ == "p"@ && (mods == ctrl_only() || mods == command) {
            r == Some(Message::CommandPaletteToggle(true, None))
        } else if (c@ == "t"@ || c@ == "n"@) && (mods == logo_only() || mods == ctrl_only()) {
            r matches Some(Message::CommandPaletteToggle(true, Some(q))) && q@ == "open stream: "@
        } else if c@ == "w"@ && (mods == ctrl_only() || mods == command) {
            r == Some(Message::CloseActiveChatStream)
        } else {
            r is None
        },
    }
}

/// The event that a released key produces, if any.
pub fn key_release_message(key: KeyInput, mods: Modifiers, command: Modifiers) -> (r: Option<
    Message,
>)
    ensures
        key_release_result(key, mods, command, r),
{
    let ctrl = Modifiers { ctrl: true, shift: false, alt: false, logo: false };
    let logo = Modifiers { ctrl: false, shift: false, alt: false, logo: true };
    match key {
        KeyInput::Named(k) => Some(Message::HandleSpecialKey(k)),
        KeyInput::OtherNamed => None,
        KeyInput::Character(c) => {
            if equals(c.as_str(), "p") && (mods == ctrl || mods == command) {
                Some(Message::CommandPaletteToggle(true, None))
            } else if (equals(c.as_str(), "t") || equals(c.as_str(), "n")) && (mods == logo || mods
                == ctrl) {
                Some(Message::CommandPaletteToggle(true, Some(String::from_str("open stream: "))))
            } else if equals(c.as_str(), "w") && (mods == ctrl || mods == command) {
                Some(Message::CloseActiveChatStream)
            } else {
                None
            }
        },
    }
}

/// A command that delivers `m` alone.
fn dispatch_one(m: Message) -> (cmd: Command)
    ensures
        cmd matches Command::Dispatch(v) && v@ == seq![m],
{
    let mut v: Vec<Message> = Vec::new();
    v.push(m);
    Command::Dispatch(v)
}

/// The command for a palette action with its arguments.
fn handle_action(action: String, args: Option<Vec<String>>) -> (cmd: Command)
    requires
        (action@ == "open stream"@ && args is Some) ==> args->0@.len() > 0,
    ensures
        action_step(action@, args, cmd),
{
    if equals(action.as_str(), "quit") {
        dispatch_one(Message::Terminate)
    } else if equals(action.as_str(), "open stream") {
        match args {
            Some(a) => dispatch_one(Message::OpenChatStream(a[0].clone())),
            None => dispatch_one(Message::HandleError(String::from_str("No stream selected to open..."))),
        }
    } else {
        dispatch_one(Message::HandleError(concat_str("Unknown action: ", action.as_str())))
    }
}

/// Drops the oldest messages of `dq` until at most `n` remain.
fn truncate_front(dq: &mut VecDeque<UserMessage>, n: usize)
    ensures
        final(dq)@ == keep_last(old(dq)@, n as nat),
{
    let ghost orig = dq@;
    while dq.len() > n
        invariant
            dq@.len() <= orig.len(),
            dq@ == orig.skip(orig.len() - dq@.len()),
            orig.len() > n ==> dq@.len() >= n,
            orig.len() <= n ==> dq@ == orig,
        decreases dq@.len(),
    {
        let ghost before = dq@;
        let _ = dq.pop_front();
        proof {
            assert(dq@ =~= orig.skip(orig.len() - dq@.len()));
        }
    }
    proof {
        if orig.len() <= n {
            assert(orig.skip(0) =~= orig);
        }
    }
}

impl StreamChat {
    /// The invariant of the chat window: chat names are distinct, the shown
    /// chat is open (or none is shown), every list of messages holds at most
    /// `MAX_CHAT_MESSAGES`, and the palette keeps its own invariant.
    pub open spec fn wf(&self) -> bool {
        &&& distinct_chat_names(self.chat_instances@)
        &&& (self.active_chat_instance@.len() == 0 || has_chat(
            self.chat_instances@,
            self.active_chat_instance@,
        ))
        &&& forall|i: int|
            0 <= i < self.chat_instances@.len() ==> (#[trigger] self.chat_instances@[i]).active_messages@.len()
                <= MAX_CHAT_MESSAGES && self.chat_instances@[i].frozen_messages@.len()
                <= MAX_CHAT_MESSAGES
        &&& self.command_palette_ctx.wf()
    }

    /// A window with no chat open, no configuration yet, and a closed palette.
    pub fn new() -> (r: Self)
        ensures
            r.wf(),
            r.chat_instances@.len() == 0,
            r.active_chat_instance@.len() == 0,
            r.input_message@.len() == 0,
            r.api_config is None,
            r.app_config is None,
            r.user_id is None,
            !r.subscribed_to_message_stream,
            !r.chat_frozen,
            !r.command_palette_ctx.active,
            views(r.command_palette_ctx.actions@) == seq!["quit"@, "open stream"@],
            r.command_palette_ctx.current_action@.len() == 0,
            r.command_palette_ctx.current_action_arg@.len() == 0,
            r.command_palette_ctx.query@.len() == 0,
            r.command_palette_ctx.selected_index == -1,
    {
        StreamChat {
            subscribed_to_message_stream: false,
            active_chat_instance: String::new(),
            chat_instances: Vec::new(),
            input_message: String::new(),
            api_config: None,
            app_config: None,
            user_id: None,
            command_palette_ctx: CommandPalette::new(),
            chat_frozen: false,
        }
    }

    /// The window title: the shown chat's name in brackets, or `unnamed`.
    pub fn title(&self) -> (r: String)
        ensures
            r@ == "StreamChat - ["@ + (if self.active_chat_instance@.len() > 0 {
                self.active_chat_instance@
            } else {
                "unnamed"@
            }) + "]"@,
    {
        let name = if !self.active_chat_instance.as_str().is_empty() {
            self.active_chat_instance.clone()
        } else {
            String::from_str("unnamed")
        };
        let head = concat_str("StreamChat - [", name.as_str());
        concat_str(head.as_str(), "]")
    }

    /// Closes the shown chat, hands its stream's stop token to the runtime to
    /// cancel, and shows the first chat that remains open, if any.
    fn close_active_chat_stream(&mut self) -> (cmd: Command)
        requires
            old(self).wf(),
        ensures
            final(self).wf(),
            step(*old(self), Message::CloseActiveChatStream, *final(self), cmd),
    {
        let ghost insts = self.chat_instances@;
        let cmd = match self.get_chat_instance_index(self.active_chat_instance.as_str()) {
            Some(i) => {
                let inst = self.chat_instances.remove(i);
                proof {
                    let r = self.chat_instances@;
                    assert(r == insts.remove(i as int));
                    assert forall|a: int, b: int|
                        0 <= a < r.len() && 0 <= b < r.len() && a != b implies r[a].name@
                        != r[b].name@ by {
                        let a2 = if a < i { a } else { a + 1 };
                        let b2 = if b < i { b } else { b + 1 };
                        assert(r[a] == insts[a2] && r[b] == insts[b2]);
                    }
                    assert forall|a: int| 0 <= a < r.len() implies (#[trigger] r[a]).active_messages@.len()
                        <= MAX_CHAT_MESSAGES && r[a].frozen_messages@.len() <= MAX_CHAT_MESSAGES by {
                        let a2 = if a < i { a } else { a + 1 };
                        assert(r[a] == insts[a2]);
                    }
                }
                match inst.cancel_task {
                    Some(t) => Command::CancelStream(t),
                    None => Command::NoOp,
                }
            },
            None => Command::NoOp,
        };
        if self.chat_instances.len() > 0 {
            self.active_chat_instance = self.chat_instances[0].name.clone();
            proof {
                assert(self.chat_instances@[0].name@ == self.active_chat_instance@);
            }
        } else {
            self.active_chat_instance = String::new();
        }
        cmd
    }

    /// Opens a chat for `name` and shows it, unless one is open already.
    fn open_chat_stream(&mut self, name: String) -> (cmd: Command)
        requires
            old(self).wf(),
        ensures
            final(self).wf(),
            step(*old(self), Message::OpenChatStream(name), *final(self), cmd),
    {
        match self.get_chat_instance_index(name.as_str()) {
            Some(_) => Command::NoOp,
            None => {
                let ghost insts = self.chat_instances@;
                let inst = ChatInstance {
                    name: name.clone(),
                    active_messages: VecDeque::new(),
                    frozen_messages: VecDeque::new(),
                    cancel_task: None,
                    broadcaster_name: None,
                    broadcaster_id: None,
                    emote_db: None,
                };
                self.chat_instances.push(inst);
                let url = concat_str("twitch://", name.as_str());
                self.active_chat_instance = name.clone();
                proof {
                    let r = self.chat_instances@;
                    assert(r.drop_last() =~= insts);
                    assert forall|a: int, b: int|
                        0 <= a < r.len() && 0 <= b < r.len() && a != b implies r[a].name@
                        != r[b].name@ by {
                        if a < insts.len() && b < insts.len() {
                            assert(r[a] == insts[a] && r[b] == insts[b]);
                        } else if a < insts.len() {
                            assert(r[a] == insts[a]);
                        } else {
                            assert(r[b] == insts[b]);
                        }
                    }
                    assert forall|a: int| 0 <= a < r.len() implies (#[trigger] r[a]).active_messages@.len()
                        <= MAX_CHAT_MESSAGES && r[a].frozen_messages@.len() <= MAX_CHAT_MESSAGES by {
                        if a < insts.len() {
                            assert(r[a] == insts[a]);
                        }
                    }
                    assert(r[r.len() - 1].name@ == name@);
                }
                Command::SubscribeChatStream { stream_name: name, url }
            },
        }
    }

    /// Records the stream details of the chat named `name`.
    fn save_broadcaster_info(&mut self, id: String, name: String, token: CancellationToken) -> (cmd: Command)
        requires
            old(self).wf(),
        ensures
            final(self).wf(),
            stream_output_step(
                *old(self),
                ChatStreamMessage::SaveBroadcasterInfo(id, name, token),
                *final(self),
                cmd,
            ),
    {
        match self.get_chat_instance_index(name.as_str()) {
            Some(i) => {
                let ghost insts = self.chat_instances@;
                let ghost c = insts[i as int];
                self.chat_instances[i].broadcaster_id = Some(id);
                self.chat_instances[i].broadcaster_name = Some(name);
                self.chat_instances[i].cancel_task = Some(token);
                proof {
                    let c2 = self.chat_instances@[i as int];
                    assert(self.chat_instances@ =~= insts.update(i as int, c2));
                    assert(c2 == ChatInstance {
                        broadcaster_id: Some(id),
                        broadcaster_name: Some(name),
                        cancel_task: Some(token),
                        ..c
                    });
                    lemma_wf_replace(*old(self), i as int, c2, *self);
                }
                Command::NoOp
            },
            None => {
                let text = concat_str("Cannot save broadcast info for broascaster: ", name.as_str());
                dispatch_one(Message::HandleError(text))
            },
        }
    }

    /// Sends the typed message to the shown chat, when it has text.
    fn send_input_message(&mut self) -> (cmd: Command)
        requires
            old(self).wf(),
            update_requires(*old(self), Message::SendInputMessage),
        ensures
            final(self).wf(),
            step(*old(self), Message::SendInputMessage, *final(self), cmd),
    {
        let text = trim(self.input_message.as_str());
        if text.as_str().is_empty() {
            return Command::NoOp;
        }
        self.input_message = String::new();
        let api_config = self.api_config.as_ref().unwrap().clone();
        let app_config = self.app_config.as_ref().unwrap().clone();
        match self.get_chat_instance_index(self.active_chat_instance.as_str()) {
            Some(i) => match (&self.chat_instances[i].broadcaster_id, &self.user_id) {
                (Some(b), Some(u)) => Command::SendChatMessage {
                    broadcaster_id: b.clone(),
                    user_id: u.clone(),
                    api_config,
                    app_config,
                    message: text,
                },
                _ => Command::NoOp,
            },
            None => Command::NoOp,
        }
    }

    /// Opens or closes the command palette.
    fn toggle_palette(&mut self, enable: bool, start: Option<String>) -> (cmd: Command)
        requires
            old(self).wf(),
        ensures
            final(self).wf(),
            step(*old(self), Message::CommandPaletteToggle(enable, start), *final(self), cmd),
    {
        self.command_palette_ctx.active = enable;
        if enable {
            match start {
                Some(q) => self.command_palette_ctx.update_current_from_query(q),
                None => {},
            }
            Command::FocusCommandPalette
        } else {
            self.command_palette_ctx.update_current_from_query(String::new());
            dispatch_one(Message::FocusChatArea)
        }
    }

    /// Escape closes the palette; the arrows and tab move its highlight.
    fn special_key(&self, key: SpecialKey) -> (cmd: Command)
        requires
            self.wf(),
        ensures
            step(*self, Message::HandleSpecialKey(key), *self, cmd),
    {
        match key {
            SpecialKey::Escape => dispatch_one(Message::CommandPaletteToggle(false, None)),
            _ => {
                let delta: i32 = if key == SpecialKey::ArrowUp {
                    -1
                } else {
                    1
                };
                if self.command_palette_ctx.active {
                    let mut next = self.command_palette_ctx.selected_index + delta;
                    let len = self.command_palette_ctx.current_action.len() as i32;
                    if next < -1 {
                        next = -1;
                    }
                    if next >= len {
                        next = len - 1;
                    }
                    dispatch_one(Message::CommandPaletteHighlightActionIndex(next))
                } else {
                    Command::NoOp
                }
            },
        }
    }

    /// Records whether the view is scrolled away from the newest message;
    /// scrolling back releases the held-back messages into the shown ones.
    fn viewport_scroll(&mut self, scrolled: bool) -> (cmd: Command)
        requires
            old(self).wf(),
        ensures
            final(self).wf(),
            step(*old(self), Message::ChatViewportScroll(scrolled), *final(self), cmd),
    {
        let previously_frozen = self.chat_frozen;
        self.chat_frozen = scrolled;
        if previously_frozen && !self.chat_frozen {
            match self.get_chat_instance_index(self.active_chat_instance.as_str()) {
                Some(i) => {
                    let ghost insts = self.chat_instances@;
                    let ghost c = insts[i as int];
                    let inst = &mut self.chat_instances[i];
                    inst.active_messages.append(&mut inst.frozen_messages);
                    truncate_front(&mut inst.active_messages, MAX_CHAT_MESSAGES);
                    proof {
                        let c2 = self.chat_instances@[i as int];
                        assert(self.chat_instances@ =~= insts.update(i as int, c2));
                        assert(c2 == ChatInstance {
                            active_messages: c2.active_messages,
                            frozen_messages: c2.frozen_messages,
                            ..c
                        });
                    }
                },
                None => {},
            }
        }
        Command::NoOp
    }

    /// Attaches an emote database to the chat named `id`.
    fn attach_emote_database(&mut self, id: String, db: EmoteDatabaseEnum) -> (cmd: Command)
        requires
            old(self).wf(),
        ensures
            final(self).wf(),
            step(*old(self), Message::AttachEmoteDatabase(id, db), *final(self), cmd),
    {
        match db {
            EmoteDatabaseEnum::NoDatabase => Command::NoOp,
            EmoteDatabaseEnum::TwitchEmoteDatabase(d) => {
                match self.get_chat_instance_index(id.as_str()) {
                    Some(i) => {
                        let ghost insts = self.chat_instances@;
                        let ghost c = insts[i as int];
                        self.chat_instances[i].emote_db = Some(d);
                        proof {
                            let c2 = self.chat_instances@[i as int];
                            assert(self.chat_instances@ =~= insts.update(i as int, c2));
                            assert(c2 == ChatInstance { emote_db: Some(d), ..c });
                            lemma_wf_replace(*old(self), i as int, c2, *self);
                        }
                        Command::NoOp
                    },
                    None => Command::NoOp,
                }
            },
        }
    }

    /// Handles a report of the chat stream task.
    fn stream_output(&mut self, m: ChatStreamMessage) -> (cmd: Command)
        requires
            old(self).wf(),
        ensures
            final(self).wf(),
            stream_output_step(*old(self), m, *final(self), cmd),
    {
        match m {
            ChatStreamMessage::InitializeEmoteDb => Command::CreateEmoteDatabase(
                self.active_chat_instance.clone(),
            ),
            ChatStreamMessage::SaveUserId(u) => {
                self.user_id = Some(u);
                Command::NoOp
            },
            ChatStreamMessage::MessagePost(msg) => self.post_message(msg),
            ChatStreamMessage::SaveBroadcasterInfo(id, name, token) => self.save_broadcaster_info(
                id,
                name,
                token,
            ),
            ChatStreamMessage::MessageStreamInitState(ok) => {
                self.subscribed_to_message_stream = ok;
                Command::NoOp
            },
            ChatStreamMessage::InitializeChatError(e) => dispatch_one(Message::HandleError(e)),
        }
    }

    /// Applies one event to the chat window and says what the runtime must
    /// do next.
    pub fn update(&mut self, message: Message) -> (cmd: Command)
        requires
            old(self).wf(),
            update_requires(*old(self), message),
        ensures
            final(self).wf(),
            step(*old(self), message, *final(self), cmd),
    {
        match message {
            Message::InitializeApp => Command::InitializeApp,
            Message::CloseActiveChatStream => self.close_active_chat_stream(),
            Message::OpenChatStream(name) => self.open_chat_stream(name),
            Message::ChatStreamError(e) => match e {
                Some(_) => dispatch_one(Message::Terminate),
                None => Command::NoOp,
            },
            Message::UpdateAppConfig(c) => match c {
                None => dispatch_one(
                    Message::HandleError(String::from_str("Failed to initialize config.")),
                ),
                Some((api, app)) => {
                    self.api_config = Some(api);
                    self.app_config = Some(app);
                    Command::NoOp
                },
            },
            Message::HandleChatStreamOutput(m) => self.stream_output(m),
            Message::HandleError(_) => dispatch_one(Message::Terminate),
            Message::Terminate => Command::CloseWindow,
            Message::InputMessageChanged(m) => {
                self.input_message = m;
                Command::NoOp
            },
            Message::CommandPaletteSearchChanged(q) => {
                self.command_palette_ctx.update_current_from_query(q);
                Command::NoOp
            },
            Message::CommandPaletteSelect => match self.command_palette_ctx.maybe_select() {
                Some(msg) => {
                    let mut v: Vec<Message> = Vec::new();
                    v.push(msg);
                    v.push(Message::CommandPaletteToggle(false, None));
                    Command::Dispatch(v)
                },
                None => Command::NoOp,
            },
            Message::SendInputMessage => self.send_input_message(),
            Message::SwitchActiveChat(c) => {
                match self.get_chat_instance_index(c.as_str()) {
                    Some(_) => {
                        self.active_chat_instance = c;
                    },
                    None => {},
                }
                Command::NoOp
            },
            Message::CommandPaletteToggle(enable, start) => self.toggle_palette(enable, start),
            Message::FocusChatArea => Command::FocusChatInput,
            Message::HandleSpecialKey(key) => self.special_key(key),
            Message::CommandPaletteHighlightActionIndex(index) => {
                let moved = self.command_palette_ctx.update_selected_query(index);
                if moved {
                    Command::MoveCommandPaletteCursorToEnd
                } else {
                    Command::NoOp
                }
            },
            Message::CommandPaletteHandleAction(action, args) => handle_action(action, args),
            Message::ChatViewportScroll(scrolled) => self.viewport_scroll(scrolled),
            Message::AttachEmoteDatabase(id, db) => self.attach_emote_database(id, db),
            Message::Nothing => Command::NoOp,
        }
    }

    /// Files a new message into the shown chat.
    fn post_message(&mut self, m: UserMessage) -> (cmd: Command)
        requires
            old(self).wf(),
        ensures
            final(self).wf(),
            stream_output_step(
                *old(self),
                ChatStreamMessage::MessagePost(m),
                *final(self),
                cmd,
            ),
    {
        let frozen = self.chat_frozen;
        match self.get_chat_instance_index(self.active_chat_instance.as_str()) {
            Some(i) => {
                let ghost c = self.chat_instances@[i as int];
                let ghost insts = self.chat_instances@;
                if frozen {
                    self.chat_instances[i].frozen_messages.push_back(m);
                    truncate_front(&mut self.chat_instances[i].frozen_messages, MAX_CHAT_MESSAGES);
                } else {
                    self.chat_instances[i].active_messages.push_back(m);
                    truncate_front(&mut self.chat_instances[i].active_messages, MAX_CHAT_MESSAGES);
                }
                proof {
                    let c2 = self.chat_instances@[i as int];
                    assert(self.chat_instances@ =~= insts.update(i as int, c2));
                    if frozen {
                        assert(c2 == ChatInstance { frozen_messages: c2.frozen_messages, ..c });
                    } else {
                        assert(c2 == ChatInstance { active_messages: c2.active_messages, ..c });
                    }
                    assert(posted(c, m, frozen, c2));
                    assert(chat_replaced(*old(self), i as int, c2, *self));
                }
                Command::NoOp
            },
            None => Command::NoOp,
        }
    }

    /// Whether the window listens to keys: once both configurations are loaded.
    pub fn listens_to_keys(&self) -> (r: bool)
        ensures
            r == (self.api_config is Some && self.app_config is Some),
    {
        self.api_config.is_some() && self.app_config.is_some()
    }

    /// Whether a message was written by the signed-in user (it is highlighted).
    pub fn is_own_message(&self, m: &UserMessage) -> (r: bool)
        ensures
            r == (self.user_id matches Some(u) && u@ == m.user_id@),
    {
        match &self.user_id {
            Some(u) => equals(m.user_id.as_str(), u.as_str()),
            None => false,
        }
    }

    /// Whether the send button is enabled: something is typed.
    pub fn can_send(&self) -> (r: bool)
        ensures
            r == (self.input_message@.len() > 0),
    {
        !self.input_message.as_str().is_empty()
    }

    /// Index of the chat named `name`, if one is open.
    pub fn get_chat_instance_index(&self, name: &str) -> (r: Option<usize>)
        requires
            distinct_chat_names(self.chat_instances@),
        ensures
            match r {
                Some(i) => i < self.chat_instances@.len() && chat_index(
                    self.chat_instances@,
                    name@,
                ) == i && self.chat_instances@[i as int].name@ == name@,
                None => chat_index(self.chat_instances@, name@) == -1 && !has_chat(
                    self.chat_instances@,
                    name@,
                ),
            },
    {
        let mut i: usize = 0;
        while i < self.chat_instances.len()
            invariant
                distinct_chat_names(self.chat_instances@),
                i <= self.chat_instances@.len(),
                forall|j: int| 0 <= j < i ==> self.chat_instances@[j].name@ != name@,
            decreases self.chat_instances@.len() - i,
        {
            if equals(self.chat_instances[i].name.as_str(), name) {
                proof {
                    let insts = self.chat_instances@;
                    assert(has_chat(insts, name@));
                    let k = choose|k: int| 0 <= k < insts.len() && insts[k].name@ == name@;
                    assert(k == i);
                }
                return Some(i);
            }
            i += 1;
        }
        None
    }
}

} // verus!
