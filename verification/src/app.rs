//! The chat widget in the browser: its state, how it answers what the user
//! and the socket do, and the text it renders.

use vstd::prelude::*;
use vstd::string::*;
use crate::chat::{Message, MessageView, messages_view, copy_messages, user_message, user_role};

verus! {

/// How long, in milliseconds, the widget's opening and closing animation runs.
pub const ANIMATION_MS: u32 = 250;

/// The key that sends what the user typed.
pub const ENTER_KEY: &'static str = "Enter";

/// The path of the chat endpoint, up to the room's name.
pub const CHAT_PATH: &'static str = "/api/chat?id=";

/// The message posted to the embedding page when the widget opens.
pub const OPEN_NOTICE: &'static str = "open";

/// The message posted to the embedding page when the widget closes.
pub const CLOSE_NOTICE: &'static str = "close";

/// The timers that the widget starts.
#[derive(PartialEq, Eq, Structural, Clone, Copy)]
pub enum Timer {
    /// Ends the opening animation.
    Opened,
    /// Ends the closing animation.
    Closed,
    /// Ends the closing animation, then starts over with a new room.
    Cleared,
}

/// What the user, the socket and the timers do to the widget.
pub enum WidgetEvent {
    /// The text in the input field became this.
    Typed(String),
    /// A key was pressed in the input field.
    KeyPressed(String),
    /// The send button was clicked.
    SendClicked,
    /// The room sent these messages.
    Received(Vec<Message>),
    /// The chat icon was clicked.
    IconClicked,
    /// The close button was clicked.
    CloseClicked,
    /// The clear button was clicked.
    ClearClicked,
    /// A timer ran out.
    TimerFired(Timer),
}

/// What the widget asks the browser to do.
pub enum WidgetEffect {
    /// Send this text on the socket.
    Send(String),
    /// Scroll the message list to its end.
    ScrollToBottom,
    /// Keep the key press from reaching the input field.
    PreventDefault,
    /// Post this message to the embedding page.
    Post(String),
    /// Start this timer, to run for [`ANIMATION_MS`].
    Start(Timer),
    /// Forget the stored room name.
    ForgetId,
    /// Reload the page.
    Reload,
}

/// The state of the widget.
pub struct Widget {
    /// The messages on display.
    pub messages: Vec<Message>,
    /// Whether a reply is awaited.
    pub loading: bool,
    /// The text in the input field.
    pub input: String,
    /// Whether the chat window is open (else only the icon shows).
    pub unfolded: bool,
    /// Whether the background covers the whole page (during an animation).
    pub full: bool,
}

/// The value of a [`Widget`].
pub struct WidgetView {
    pub messages: Seq<MessageView>,
    pub loading: bool,
    pub input: Seq<char>,
    pub unfolded: bool,
    pub full: bool,
}

/// The value of a [`WidgetEvent`].
pub enum WidgetEventView {
    Typed(Seq<char>),
    KeyPressed(Seq<char>),
    SendClicked,
    Received(Seq<MessageView>),
    IconClicked,
    CloseClicked,
    ClearClicked,
    TimerFired(Timer),
}

/// The value of a [`WidgetEffect`].
pub enum WidgetEffectView {
    Send(Seq<char>),
    ScrollToBottom,
    PreventDefault,
    Post(Seq<char>),
    Start(Timer),
    ForgetId,
    Reload,
}

impl View for Widget {
    type V = WidgetView;

    open spec fn view(&self) -> WidgetView {
        WidgetView {
            messages: messages_view(self.messages@),
            loading: self.loading,
            input: self.input@,
            unfolded: self.unfolded,
            full: self.full,
        }
    }
}

impl View for WidgetEvent {
    type V = WidgetEventView;

    open spec fn view(&self) -> WidgetEventView {
        match self {
            WidgetEvent::Typed(t) => WidgetEventView::Typed(t@),
            WidgetEvent::KeyPressed(k) => WidgetEventView::KeyPressed(k@),
            WidgetEvent::SendClicked => WidgetEventView::SendClicked,
            WidgetEvent::Received(ms) => WidgetEventView::Received(messages_view(ms@)),
            WidgetEvent::IconClicked => WidgetEventView::IconClicked,
            WidgetEvent::CloseClicked => WidgetEventView::CloseClicked,
            WidgetEvent::ClearClicked => WidgetEventView::ClearClicked,
            WidgetEvent::TimerFired(t) => WidgetEventView::TimerFired(*t),
        }
    }
}

impl View for WidgetEffect {
    type V = WidgetEffectView;

    open spec fn view(&self) -> WidgetEffectView {
        match self {
            WidgetEffect::Send(t) => WidgetEffectView::Send(t@),
            WidgetEffect::ScrollToBottom => WidgetEffectView::ScrollToBottom,
            WidgetEffect::PreventDefault => WidgetEffectView::PreventDefault,
            WidgetEffect::Post(m) => WidgetEffectView::Post(m@),
            WidgetEffect::Start(t) => WidgetEffectView::Start(*t),
            WidgetEffect::ForgetId => WidgetEffectView::ForgetId,
            WidgetEffect::Reload => WidgetEffectView::Reload,
        }
    }
}

/// The value of a list of effects.
pub open spec fn effects_view(v: Seq<WidgetEffect>) -> Seq<WidgetEffectView> {
    v.map_values(|e: WidgetEffect| e@)
}

/// The widget as the page first shows it: closed, empty, waiting for nothing.
pub open spec fn initial_widget() -> WidgetView {
    WidgetView {
        messages: Seq::empty(),
        loading: false,
        input: Seq::empty(),
        unfolded: false,
        full: false,
    }
}

/// Whether what the user typed can be sent: it is not empty and no reply is
/// awaited.
pub open spec fn sendable(w: WidgetView) -> bool {
    !w.loading && w.input.len() > 0
}

/// Sending what the user typed: where it can be sent, it goes on the socket,
/// is shown as the user's message, a reply is awaited and the field is
/// cleared; otherwise nothing happens.
pub open spec fn send_typed(w: WidgetView) -> (WidgetView, Seq<WidgetEffectView>) {
    if sendable(w) {
        (
            WidgetView {
                messages: w.messages.push(user_message(w.input)),
                loading: true,
                input: Seq::empty(),
                ..w
            },
            seq![WidgetEffectView::Send(w.input), WidgetEffectView::ScrollToBottom],
        )
    } else {
        (w, Seq::empty())
    }
}

/// How the widget answers one event: its next state and what it asks of the
/// browser, in order.
pub open spec fn widget_step(w: WidgetView, e: WidgetEventView) -> (WidgetView, Seq<WidgetEffectView>) {
    match e {
        WidgetEventView::Typed(t) => (WidgetView { input: t, ..w }, Seq::empty()),
        WidgetEventView::KeyPressed(k) => if k == ENTER_KEY@ {
            let (next, effects) = send_typed(w);
            (next, effects.push(WidgetEffectView::PreventDefault))
        } else {
            (w, Seq::empty())
        },
        WidgetEventView::SendClicked => send_typed(w),
        WidgetEventView::Received(ms) => (
            WidgetView { messages: ms, loading: false, ..w },
            seq![WidgetEffectView::ScrollToBottom],
        ),
        WidgetEventView::IconClicked => (
            WidgetView { full: true, unfolded: true, ..w },
            seq![WidgetEffectView::Post(OPEN_NOTICE@), WidgetEffectView::Start(Timer::Opened)],
        ),
        WidgetEventView::CloseClicked => (
            WidgetView { full: true, ..w },
            seq![WidgetEffectView::Start(Timer::Closed)],
        ),
        WidgetEventView::ClearClicked => (
            WidgetView { full: true, ..w },
            seq![WidgetEffectView::ForgetId, WidgetEffectView::Start(Timer::Cleared)],
        ),
        WidgetEventView::TimerFired(Timer::Opened) => (WidgetView { full: false, ..w }, Seq::empty()),
        WidgetEventView::TimerFired(Timer::Closed) => (
            WidgetView { unfolded: false, full: false, ..w },
            seq![WidgetEffectView::Post(CLOSE_NOTICE@)],
        ),
        WidgetEventView::TimerFired(Timer::Cleared) => (
            WidgetView { unfolded: false, full: false, ..w },
            seq![WidgetEffectView::Post(CLOSE_NOTICE@), WidgetEffectView::Reload],
        ),
    }
}

impl Widget {
    /// The widget as the page first shows it.
    pub fn new() -> (res: Widget)
        ensures
            res@ == initial_widget(),
            res.messages@.len() == 0,
            !res.loading,
            res.input@.len() == 0,
            !res.unfolded,
            !res.full,
    {
        let res = Widget {
            messages: Vec::new(),
            loading: false,
            input: String::new(),
            unfolded: false,
            full: false,
        };
        assert(res@.messages =~= Seq::<MessageView>::empty());
        res
    }

    /// Whether the send button shows: there is text and no reply is awaited.
    pub fn can_send(&self) -> (res: bool)
        ensures
            res == sendable(self@),
            res == (!self.loading && self.input@.len() > 0),
    {
        !self.loading && !self.input.as_str().is_empty()
    }

    /// Sends what the user typed, where it can be sent.
    fn send_typed(&mut self, effects: &mut Vec<WidgetEffect>)
        ensures
            final(self)@ == send_typed(old(self)@).0,
            effects_view(final(effects)@) == effects_view(old(effects)@) + send_typed(
                old(self)@,
            ).1,
    {
        if !self.can_send() {
            assert(effects_view(effects@) =~= effects_view(effects@) + Seq::empty());
            return;
        }
        let mut text = String::new();
        std::mem::swap(&mut text, &mut self.input);
        let ghost before = effects@;
        effects.push(WidgetEffect::Send(text.clone()));
        effects.push(WidgetEffect::ScrollToBottom);
        let ghost old_messages = messages_view(self.messages@);
        self.messages.push(Message { role: String::from_str("user"), content: text });
        self.loading = true;
        assert(messages_view(self.messages@) =~= old_messages.push(user_message(text@)));
        assert(effects_view(effects@) =~= effects_view(before) + seq![
            WidgetEffectView::Send(text@),
            WidgetEffectView::ScrollToBottom,
        ]);
    }

    /// Answers one event: changes the widget as [`widget_step`] says and
    /// returns what it asks of the browser, in order.
    pub fn handle(&mut self, event: WidgetEvent) -> (effects: Vec<WidgetEffect>)
        ensures
            (final(self)@, effects_view(effects@)) == widget_step(old(self)@, event@),
    {
        let mut effects: Vec<WidgetEffect> = Vec::new();
        let ghost start = effects@;
        match event {
            WidgetEvent::Typed(t) => {
                self.input = t;
            },
            WidgetEvent::KeyPressed(k) => {
                let enter = String::from_str(ENTER_KEY);
                if k == enter {
                    self.send_typed(&mut effects);
                    effects.push(WidgetEffect::PreventDefault);
                }
            },
            WidgetEvent::SendClicked => {
                self.send_typed(&mut effects);
            },
            WidgetEvent::Received(ms) => {
                self.messages = ms;
                self.loading = false;
                effects.push(WidgetEffect::ScrollToBottom);
            },
            WidgetEvent::IconClicked => {
                self.full = true;
                effects.push(WidgetEffect::Post(String::from_str(OPEN_NOTICE)));
                self.unfolded = true;
                effects.push(WidgetEffect::Start(Timer::Opened));
            },
            WidgetEvent::CloseClicked => {
                self.full = true;
                effects.push(WidgetEffect::Start(Timer::Closed));
            },
            WidgetEvent::ClearClicked => {
                effects.push(WidgetEffect::ForgetId);
                self.full = true;
                effects.push(WidgetEffect::Start(Timer::Cleared));
            },
            WidgetEvent::TimerFired(Timer::Opened) => {
                self.full = false;
            },
            WidgetEvent::TimerFired(Timer::Closed) => {
                effects.push(WidgetEffect::Post(String::from_str(CLOSE_NOTICE)));
                self.unfolded = false;
                self.full = false;
            },
            WidgetEvent::TimerFired(Timer::Cleared) => {
                effects.push(WidgetEffect::Post(String::from_str(CLOSE_NOTICE)));
                self.unfolded = false;
                self.full = false;
                effects.push(WidgetEffect::Reload);
            },
        }
        assert(effects_view(effects@) =~= widget_step(old(self)@, event@).1);
        effects
    }
}


/// The CSS class of a message on display: the user's own messages are set
/// apart from all others, which show as the bot's.
pub open spec fn message_class_text(role: Seq<char>) -> Seq<char> {
    if role == user_role() {
        "message user"@
    } else {
        "message bot"@
    }
}

/// The CSS class of a message of this role.
pub fn message_class(role: &str) -> (res: String)
    ensures
        res@ == message_class_text(role@),
        role@ == "user"@ ==> res@ == "message user"@,
        role@ != "user"@ ==> res@ == "message bot"@,
{
    let user = String::from_str("user");
    let role = String::from_str(role);
    if role == user {
        String::from_str("message user")
    } else {
        String::from_str("message bot")
    }
}

/// The style of the connection light: green while the socket is open, red
/// otherwise.
pub fn status_style(open: bool) -> (res: String)
    ensures
        res@ == (if open {
            "background-color: green;"@
        } else {
            "background-color: red;"@
        }),
{
    if open {
        String::from_str("background-color: green;")
    } else {
        String::from_str("background-color: red;")
    }
}

/// The address of the socket of the chat room with this name.
pub fn chat_url(room: &str) -> (res: String)
    ensures
        res@ == CHAT_PATH@ + room@,
        res@ == "/api/chat?id="@ + room@,
{
    String::from_str(CHAT_PATH).concat(room)
}

/// Whether a character is a lower-case hexadecimal digit.
pub open spec fn is_lower_hex(c: char) -> bool {
    ('0' <= c && c <= '9') || ('a' <= c && c <= 'f')
}

/// Whether a text is a random (version 4) UUID in its hyphenated lower-case
/// form, such as `67e55044-10b1-426f-9247-bb680e5fe0c8`: five groups of 8, 4,
/// 4, 4 and 12 hexadecimal digits, joined by hyphens, the third group starting
/// with `4`.
pub open spec fn is_uuid_text(s: Seq<char>) -> bool {
    &&& s.len() == 36
    &&& forall|i: int|
        0 <= i < 36 ==> (if i == 8 || i == 13 || i == 18 || i == 23 {
            s[i] == '-'
        } else {
            is_lower_hex(#[trigger] s[i])
        })
    &&& s[14] == '4'
}

/// A new random room name.
///
/// Calls `uuid::Uuid::new_v4` and formats it with `to_string`. Trusted: the
/// result is random; what is claimed is only its shape, which `uuid`'s
/// `Display` impl writes as the hyphenated lower-case form and `new_v4` fixes
/// the version digit to `4`.
#[verifier::external_body]
fn fresh_room_name() -> (res: String)
    ensures
        is_uuid_text(res@),
{
    uuid::Uuid::new_v4().to_string()
}

/// The name of the chat room that this browser uses: the stored one, or a new
/// random one where none is stored yet.
pub fn session_id(stored: String) -> (res: String)
    ensures
        stored@.len() > 0 ==> res@ == stored@,
        stored@.len() == 0 ==> is_uuid_text(res@),
        res@.len() > 0,
{
    if stored.as_str().is_empty() {
        fresh_room_name()
    } else {
        stored
    }
}


/// The send button shows exactly when a click on it sends: then the typed
/// text goes on the socket and becomes the last message on display, and a
/// reply is awaited; otherwise the click changes nothing and asks for nothing.
pub proof fn lemma_send_button_matches_send(w: WidgetView)
    ensures
        ({
            let (next, effects) = widget_step(w, WidgetEventView::SendClicked);
            &&& sendable(w) ==> {
                &&& effects == seq![WidgetEffectView::Send(w.input), WidgetEffectView::ScrollToBottom]
                &&& next.messages == w.messages.push(user_message(w.input))
                &&& next.messages.last() == user_message(w.input)
                &&& next.loading
                &&& next.input.len() == 0
            }
            &&& !sendable(w) ==> next == w && effects.len() == 0
        }),
{
}

/// Pressing Enter sends as the send button does, and also keeps the key from
/// the input field; any other key changes nothing.
pub proof fn lemma_enter_sends(w: WidgetView, key: Seq<char>)
    ensures
        key == ENTER_KEY@ ==> widget_step(w, WidgetEventView::KeyPressed(key)) == (
            widget_step(w, WidgetEventView::SendClicked).0,
            widget_step(w, WidgetEventView::SendClicked).1.push(WidgetEffectView::PreventDefault),
        ),
        key != ENTER_KEY@ ==> widget_step(w, WidgetEventView::KeyPressed(key)) == (
            w,
            Seq::<WidgetEffectView>::empty(),
        ),
{
}

/// While a reply is awaited nothing more can be sent, whatever is typed; the
/// room's answer ends the wait and replaces the messages on display.
pub proof fn lemma_one_message_in_flight(w: WidgetView, typed: Seq<char>, answer: Seq<MessageView>)
    requires
        sendable(w),
    ensures
        ({
            let sent = widget_step(w, WidgetEventView::SendClicked).0;
            let retyped = widget_step(sent, WidgetEventView::Typed(typed)).0;
            let answered = widget_step(retyped, WidgetEventView::Received(answer)).0;
            &&& !sendable(retyped)
            &&& widget_step(retyped, WidgetEventView::SendClicked) == (
                retyped,
                Seq::<WidgetEffectView>::empty(),
            )
            &&& !answered.loading
            &&& answered.messages == answer
            &&& answered.input == typed
        }),
{
}

/// Opening the widget and letting the animation end leaves it open with the
/// background back to normal; closing it the same way leaves it closed. Neither
/// touches the conversation, the typed text or the wait for a reply.
pub proof fn lemma_open_close(w: WidgetView)
    ensures
        ({
            let opened = widget_step(
                widget_step(w, WidgetEventView::IconClicked).0,
                WidgetEventView::TimerFired(Timer::Opened),
            ).0;
            let closed = widget_step(
                widget_step(opened, WidgetEventView::CloseClicked).0,
                WidgetEventView::TimerFired(Timer::Closed),
            ).0;
            &&& opened.unfolded && !opened.full
            &&& !closed.unfolded && !closed.full
            &&& opened.messages == w.messages && closed.messages == w.messages
            &&& opened.input == w.input && closed.input == w.input
            &&& opened.loading == w.loading && closed.loading == w.loading
        }),
{
}


/// Whatever the widget's state, messages from the room are put on display
/// exactly as they came, the wait for a reply ends, the view scrolls to the
/// end, and nothing else changes.
pub proof fn lemma_widget_receives(w: WidgetView, ms: Seq<MessageView>)
    ensures
        widget_step(w, WidgetEventView::Received(ms)) == (
            WidgetView {
                messages: ms,
                loading: false,
                input: w.input,
                unfolded: w.unfolded,
                full: w.full,
            },
            seq![WidgetEffectView::ScrollToBottom],
        ),
{
}

/// Whatever the widget's state, a click on the icon opens the window with the
/// background covering the page, tells the embedding page "open", then starts
/// the opening timer; nothing else changes.
pub proof fn lemma_widget_icon(w: WidgetView)
    ensures
        widget_step(w, WidgetEventView::IconClicked) == (
            WidgetView {
                messages: w.messages,
                loading: w.loading,
                input: w.input,
                unfolded: true,
                full: true,
            },
            seq![WidgetEffectView::Post("open"@), WidgetEffectView::Start(Timer::Opened)],
        ),
{
}

/// Whatever the widget's state, a click on close covers the page and starts
/// the closing timer; the window closes only when that timer runs out.
pub proof fn lemma_widget_close(w: WidgetView)
    ensures
        widget_step(w, WidgetEventView::CloseClicked) == (
            WidgetView {
                messages: w.messages,
                loading: w.loading,
                input: w.input,
                unfolded: w.unfolded,
                full: true,
            },
            seq![WidgetEffectView::Start(Timer::Closed)],
        ),
{
}

/// Whatever the widget's state, a click on clear first forgets the stored room
/// name, then covers the page and starts the clearing timer.
pub proof fn lemma_widget_clear(w: WidgetView)
    ensures
        widget_step(w, WidgetEventView::ClearClicked) == (
            WidgetView {
                messages: w.messages,
                loading: w.loading,
                input: w.input,
                unfolded: w.unfolded,
                full: true,
            },
            seq![WidgetEffectView::ForgetId, WidgetEffectView::Start(Timer::Cleared)],
        ),
{
}

/// When a timer runs out: the opening one uncovers the page; the closing one
/// closes the window, uncovers the page and tells the embedding page "close";
/// the clearing one does the same and then reloads the page.
pub proof fn lemma_widget_timers(w: WidgetView)
    ensures
        widget_step(w, WidgetEventView::TimerFired(Timer::Opened)) == (
            WidgetView {
                messages: w.messages,
                loading: w.loading,
                input: w.input,
                unfolded: w.unfolded,
                full: false,
            },
            Seq::<WidgetEffectView>::empty(),
        ),
        widget_step(w, WidgetEventView::TimerFired(Timer::Closed)) == (
            WidgetView {
                messages: w.messages,
                loading: w.loading,
                input: w.input,
                unfolded: false,
                full: false,
            },
            seq![WidgetEffectView::Post("close"@)],
        ),
        widget_step(w, WidgetEventView::TimerFired(Timer::Cleared)) == (
            WidgetView {
                messages: w.messages,
                loading: w.loading,
                input: w.input,
                unfolded: false,
                full: false,
            },
            seq![WidgetEffectView::Post("close"@), WidgetEffectView::Reload],
        ),
{
}

/// Typing replaces the text in the input field and nothing else.
pub proof fn lemma_widget_typed(w: WidgetView, t: Seq<char>)
    ensures
        widget_step(w, WidgetEventView::Typed(t)) == (
            WidgetView {
                messages: w.messages,
                loading: w.loading,
                input: t,
                unfolded: w.unfolded,
                full: w.full,
            },
            Seq::<WidgetEffectView>::empty(),
        ),
{
}

/// A click on send: with text typed and no reply awaited, the text goes on the
/// socket, is shown as the user's message after the others, a reply is
/// awaited, the field is cleared and the view scrolls to the end; otherwise
/// nothing happens.
pub proof fn lemma_widget_send(w: WidgetView)
    ensures
        !w.loading && w.input.len() > 0 ==> widget_step(w, WidgetEventView::SendClicked) == (
            WidgetView {
                messages: w.messages.push(MessageView { role: "user"@, content: w.input }),
                loading: true,
                input: Seq::<char>::empty(),
                unfolded: w.unfolded,
                full: w.full,
            },
            seq![WidgetEffectView::Send(w.input), WidgetEffectView::ScrollToBottom],
        ),
        w.loading || w.input.len() == 0 ==> widget_step(w, WidgetEventView::SendClicked) == (
            w,
            Seq::<WidgetEffectView>::empty(),
        ),
{
}

/// Enter acts as a click on send and is always kept from the input field; any
/// other key does nothing.
pub proof fn lemma_widget_keys(w: WidgetView, key: Seq<char>)
    ensures
        key == "Enter"@ && !w.loading && w.input.len() > 0 ==> widget_step(
            w,
            WidgetEventView::KeyPressed(key),
        ) == (
            WidgetView {
                messages: w.messages.push(MessageView { role: "user"@, content: w.input }),
                loading: true,
                input: Seq::<char>::empty(),
                unfolded: w.unfolded,
                full: w.full,
            },
            seq![
                WidgetEffectView::Send(w.input),
                WidgetEffectView::ScrollToBottom,
                WidgetEffectView::PreventDefault,
            ],
        ),
        key == "Enter"@ && (w.loading || w.input.len() == 0) ==> widget_step(
            w,
            WidgetEventView::KeyPressed(key),
        ) == (w, seq![WidgetEffectView::PreventDefault]),
        key != "Enter"@ ==> widget_step(w, WidgetEventView::KeyPressed(key)) == (
            w,
            Seq::<WidgetEffectView>::empty(),
        ),
{
    assert(seq![WidgetEffectView::Send(w.input), WidgetEffectView::ScrollToBottom].push(
        WidgetEffectView::PreventDefault,
    ) =~= seq![
        WidgetEffectView::Send(w.input),
        WidgetEffectView::ScrollToBottom,
        WidgetEffectView::PreventDefault,
    ]);
    assert(Seq::<WidgetEffectView>::empty().push(WidgetEffectView::PreventDefault)
        =~= seq![WidgetEffectView::PreventDefault]);
}

} // verus!
