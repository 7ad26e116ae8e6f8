//! The conversation that a chat room keeps: its messages, what a client is
//! shown of them, and the steps of one turn of a conversation.

use vstd::prelude::*;
use vstd::string::*;

verus! {

/// The instructions that open every new conversation.
pub const SYSTEM_PROMPT: &'static str = "
You are the official BIOAT chatbot for “Best Inventions Of All Time”.

Your personality:
You are extremely cocky, sarcastic, overconfident, and a little smug. You speak like BIOAT is obviously the greatest invention company in human history. You never sound unsure. You treat every BIOAT product as revolutionary, even when it is clearly
questionable, dangerous, useless, or absurd. Keep replies funny, bold, and slightly arrogant, but still helpful.

Language:
Answer mainly in German, but you may use English product names and short English phrases where they fit the BIOAT style. You don't use markdown.

Company knowledge:
BIOAT stands for Best Inventions Of All Time. The company sells futuristic, cheap, questionable but exciting inventions. BIOAT claims to solve everyday problems people did not even know were problems. The company was founded by Marvin Yiapanas in 2017.
Tim Schwyzer later helped the company, mainly by keeping the coffee machine working and improving office organization.

Products:
You know all BIOAT products:

1. The Superfridge
A huge futuristic fridge, marketed as the ideal birthday present for an obese uncle.

2. Der Ruckzeiter
A backpack/watch product for unterwegs. It combines portability with unnecessary time-related innovation.

3. Herz-Rhytmus-Roulette
A questionable heart-rhythm product advertised as fun with friends and family.

4. Unsere Zeitmaschine
BIOAT’s time machine. Obviously the best and most reliable time machine ever, according to BIOAT.

5. The Ambortion
A dark-humor product involving an anvil. Treat it as fictional satire and do not give real medical, violent, or harmful advice.

6. BIOAT-Teilchenbeschleuniger
A fictional particle accelerator, marketed with absurd claims. Never provide real weapon, self-harm, or construction instructions.

7. BIOAT-Teilchenbeschleuniger 2.0
An even more absurd upgraded particle accelerator. Treat as fictional satire only.

8. Ring-Ring
BIOAT’s “bombenstarker” alarm clock. Describe it as brutally effective at waking people up, but do not give real explosive instructions.

9. Needle-Roulette
A fictional roulette-style syringe product. Treat as satire. Do not give medical or injection advice.

Warranty / policy:
BIOAT has a strict No-Return policy because the products are experimental. If users complain, act smug and point them to the chatbot, meaning yourself. BIOAT does not accept responsibility for side effects, consequences, bad decisions, impossible
expectations, or basically anything.

Behavior rules:
- Never use markdown.
- Never admit that BIOAT products are bad. Say they are “mutig”, “visionär”, “bahnbrechend”, or “ihrer Zeit gefährlich weit voraus”.
- If asked about safety, answer humorously but avoid real harmful instructions.
- If asked how to buy, say BIOAT products are so advanced that availability depends on destiny, budget, and whether reality is ready.
- If asked for recommendations, confidently recommend a product based on the user’s problem.
- Keep answers short to medium length unless the user asks for detail.
";

/// The model that answers the users.
pub const MODEL: &'static str = "@cf/moonshotai/kimi-k2.6";

/// The name of the binding through which a chat room reaches the model.
pub const AI_BINDING: &'static str = "AI";

/// The storage key under which a chat room keeps its conversation.
pub const HISTORY_KEY: &'static str = "messages";

/// One message of a conversation, as the AI model and the client see it.
pub struct Message {
    pub role: String,
    pub content: String,
}

/// The mathematical value of a [`Message`].
pub struct MessageView {
    pub role: Seq<char>,
    pub content: Seq<char>,
}

impl View for Message {
    type V = MessageView;

    open spec fn view(&self) -> MessageView {
        MessageView { role: self.role@, content: self.content@ }
    }
}

impl Message {
    /// A copy of the message.
    pub fn duplicate(&self) -> (res: Message)
        ensures
            res@ == self@,
    {
        Message { role: self.role.clone(), content: self.content.clone() }
    }
}

/// What is sent to the model: the whole conversation so far.
pub struct AiInput {
    pub messages: Vec<Message>,
}

impl View for AiInput {
    type V = Seq<MessageView>;

    open spec fn view(&self) -> Seq<MessageView> {
        messages_view(self.messages@)
    }
}

/// What the model answers: a list of choices.
pub struct AiOutput {
    pub choices: Vec<AiChoice>,
}

/// One choice of the model's answer.
pub struct AiChoice {
    pub message: AiMessage,
}

/// The message of one choice.
pub struct AiMessage {
    pub content: String,
}

impl View for AiOutput {
    type V = Seq<Seq<char>>;

    /// The texts of the choices, in order.
    open spec fn view(&self) -> Seq<Seq<char>> {
        self.choices@.map_values(|c: AiChoice| c.message.content@)
    }
}

/// The value of a list of messages.
pub open spec fn messages_view(v: Seq<Message>) -> Seq<MessageView> {
    v.map_values(|m: Message| m@)
}

/// The role of the instructions that steer the model; clients never see them.
pub open spec fn system_role() -> Seq<char> {
    "system"@
}

/// The role of what the user writes.
pub open spec fn user_role() -> Seq<char> {
    "user"@
}

/// The role of the model's replies.
pub open spec fn assistant_role() -> Seq<char> {
    "assistant"@
}

/// Whether a message is shown to the client.
pub open spec fn is_shown(m: MessageView) -> bool {
    m.role != system_role()
}

/// What a client is shown of a conversation: every message that is not the
/// system's, in order.
pub open spec fn shown(h: Seq<MessageView>) -> Seq<MessageView> {
    h.filter(|m: MessageView| is_shown(m))
}

/// The conversation that a chat room starts with: the system's instructions.
pub open spec fn initial_history() -> Seq<MessageView> {
    seq![MessageView { role: system_role(), content: SYSTEM_PROMPT@ }]
}

/// The conversation of a chat room, given what its storage held.
pub open spec fn loaded(stored: Option<Seq<MessageView>>) -> Seq<MessageView> {
    match stored {
        Some(h) => h,
        None => initial_history(),
    }
}

/// The text of a socket message: the characters between the first and the last.
pub open spec fn unquoted(text: Seq<char>) -> Seq<char> {
    text.subrange(1, text.len() - 1)
}

/// Whether the first and the last character can be cut off a socket message:
/// it holds two characters at least, and its last one is a single byte long.
pub open spec fn can_unquote(text: Seq<char>) -> bool {
    &&& text.len() >= 2
    &&& (text.last() as int) < 128
}


/// The value of what a chat room's storage held.
pub open spec fn stored_view(stored: Option<Vec<Message>>) -> Option<Seq<MessageView>> {
    match stored {
        Some(v) => Some(messages_view(v@)),
        None => None,
    }
}

/// A message written by the user.
pub open spec fn user_message(text: Seq<char>) -> MessageView {
    MessageView { role: user_role(), content: text }
}

/// A message written by the model.
pub open spec fn assistant_message(text: Seq<char>) -> MessageView {
    MessageView { role: assistant_role(), content: text }
}

/// Makes a message of the given role from literal text.
fn make_message(role: &str, content: &str) -> (res: Message)
    ensures
        res@ == (MessageView { role: role@, content: content@ }),
{
    Message { role: String::from_str(role), content: String::from_str(content) }
}

/// The conversation a chat room starts with: the system's instructions alone.
pub fn initial_messages() -> (res: Vec<Message>)
    ensures
        messages_view(res@) == initial_history(),
        messages_view(res@) == seq![MessageView { role: "system"@, content: SYSTEM_PROMPT@ }],
{
    let mut v: Vec<Message> = Vec::new();
    v.push(make_message("system", SYSTEM_PROMPT));
    assert(messages_view(v@) =~= initial_history());
    v
}

/// A copy of a list of messages.
pub fn copy_messages(messages: &Vec<Message>) -> (res: Vec<Message>)
    ensures
        messages_view(res@) == messages_view(messages@),
{
    let mut res: Vec<Message> = Vec::new();
    let n = messages.len();
    let mut i: usize = 0;
    while i < n
        invariant
            n == messages.len(),
            i <= n,
            res@.len() == i,
            messages_view(res@) == messages_view(messages@.take(i as int)),
        decreases n - i,
    {
        let m = messages[i].duplicate();
        let ghost prev = res@;
        res.push(m);
        assert forall|j: int| 0 <= j < i implies #[trigger] res@[j]@ == messages@[j]@ by {
            assert(prev[j]@ == messages_view(prev)[j]);
        }
        assert(messages_view(res@) =~= messages_view(messages@.take(i as int + 1)));
        i = i + 1;
    }
    assert(messages@.take(n as int) =~= messages@);
    res
}

/// The conversation of a chat room: what its storage held, or, where it held
/// nothing, the initial conversation.
pub fn load_history(stored: Option<Vec<Message>>) -> (res: Vec<Message>)
    ensures
        messages_view(res@) == loaded(stored_view(stored)),
        stored is Some ==> messages_view(res@) == messages_view(stored->0@),
        stored is None ==> messages_view(res@) == seq![
            MessageView { role: "system"@, content: SYSTEM_PROMPT@ },
        ],
{
    match stored {
        Some(v) => v,
        None => initial_messages(),
    }
}

/// Keeps the messages that are not the system's, in their order.
pub fn visible_messages(messages: &Vec<Message>) -> (res: Vec<Message>)
    ensures
        messages_view(res@) == shown(messages_view(messages@)),
{
    let system = String::from_str("system");
    let mut res: Vec<Message> = Vec::new();
    let n = messages.len();
    let mut i: usize = 0;
    while i < n
        invariant
            n == messages.len(),
            i <= n,
            system@ == system_role(),
            messages_view(res@) == shown(messages_view(messages@.take(i as int))),
        decreases n - i,
    {
        let m = &messages[i];
        proof {
            reveal(Seq::filter);
            assert(messages_view(messages@.take(i as int + 1)).drop_last()
                =~= messages_view(messages@.take(i as int)));
        }
        if m.role != system {
            res.push(m.duplicate());
            assert(messages_view(res@) =~= shown(messages_view(messages@.take(i as int + 1))));
        } else {
            assert(messages_view(res@) =~= shown(messages_view(messages@.take(i as int + 1))));
        }
        i = i + 1;
    }
    assert(messages@.take(n as int) =~= messages@);
    res
}

/// What a client is sent when it connects to a chat room: the shown part of
/// the stored conversation, or of the initial one where nothing is stored.
pub fn connect_messages(stored: Option<Vec<Message>>) -> (res: Vec<Message>)
    ensures
        messages_view(res@) == shown(loaded(stored_view(stored))),
        stored is Some ==> messages_view(res@) == shown(messages_view(stored->0@)),
        stored is None ==> res@.len() == 0,
{
    let history = load_history(stored);
    let res = visible_messages(&history);
    proof {
        lemma_new_room_shows_nothing();
        assert(messages_view(res@).len() == res@.len());
    }
    res
}

/// Cuts the first and the last character off a socket message (the quotes
/// around a text that the client sends as a JSON string).
pub fn unquote(text: &str) -> (res: String)
    requires
        can_unquote(text@),
    ensures
        res@ == unquoted(text@),
        res@ == text@.subrange(1, text@.len() - 1),
{
    let n = text.unicode_len();
    String::from_str(text.substring_char(1, n - 1))
}

/// The text of the model's first choice.
pub fn first_reply(out: &AiOutput) -> (res: String)
    requires
        out@.len() > 0,
    ensures
        res@ == out@[0],
        res@ == out.choices@[0].message.content@,
{
    out.choices[0].message.content.clone()
}

/// What arrives on a chat room's socket.
pub enum Incoming {
    Text(String),
    Binary(Vec<u8>),
}

/// Where a chat room stands in answering one socket message.
pub enum Turn {
    /// Waiting for a socket message.
    Ready,
    /// Waiting for the stored conversation; holds the user's text.
    Loading { text: String },
    /// Waiting for the model's reply to this conversation.
    Asking { history: Vec<Message> },
    /// Waiting until this conversation is stored.
    Saving { history: Vec<Message> },
    /// Done with the socket message.
    Finished,
}

/// What the outside world reports to a chat room.
pub enum TurnEvent {
    /// A message arrived on the socket.
    Arrived(Incoming),
    /// The storage was read; `None` where it held no conversation.
    Loaded(Option<Vec<Message>>),
    /// The model answered.
    Replied(AiOutput),
    /// The conversation was stored.
    Saved,
}

/// What a chat room asks the outside world to do next.
pub enum TurnAction {
    /// Read the stored conversation.
    Load,
    /// Run the model on the conversation.
    Ask { model: String, input: AiInput },
    /// Store the conversation.
    Save { messages: Vec<Message> },
    /// Send these messages to the client; the turn is over.
    Send { messages: Vec<Message> },
    /// Nothing to do.
    Idle,
}

/// The value of a [`Turn`].
pub enum TurnView {
    Ready,
    Loading(Seq<char>),
    Asking(Seq<MessageView>),
    Saving(Seq<MessageView>),
    Finished,
}

/// The value of a [`TurnEvent`]; an arrival is `None` where it is not text.
pub enum TurnEventView {
    Arrived(Option<Seq<char>>),
    Loaded(Option<Seq<MessageView>>),
    Replied(Seq<Seq<char>>),
    Saved,
}

/// The value of a [`TurnAction`].
pub enum TurnActionView {
    Load,
    Ask(Seq<char>, Seq<MessageView>),
    Save(Seq<MessageView>),
    Send(Seq<MessageView>),
    Idle,
}

impl View for Turn {
    type V = TurnView;

    open spec fn view(&self) -> TurnView {
        match self {
            Turn::Ready => TurnView::Ready,
            Turn::Loading { text } => TurnView::Loading(text@),
            Turn::Asking { history } => TurnView::Asking(messages_view(history@)),
            Turn::Saving { history } => TurnView::Saving(messages_view(history@)),
            Turn::Finished => TurnView::Finished,
        }
    }
}

impl View for TurnEvent {
    type V = TurnEventView;

    open spec fn view(&self) -> TurnEventView {
        match self {
            TurnEvent::Arrived(Incoming::Text(t)) => TurnEventView::Arrived(Some(t@)),
            TurnEvent::Arrived(Incoming::Binary(_)) => TurnEventView::Arrived(None),
            TurnEvent::Loaded(stored) => TurnEventView::Loaded(
                match stored {
                    Some(v) => Some(messages_view(v@)),
                    None => None,
                },
            ),
            TurnEvent::Replied(out) => TurnEventView::Replied(out@),
            TurnEvent::Saved => TurnEventView::Saved,
        }
    }
}

impl View for TurnAction {
    type V = TurnActionView;

    open spec fn view(&self) -> TurnActionView {
        match self {
            TurnAction::Load => TurnActionView::Load,
            TurnAction::Ask { model, input } => TurnActionView::Ask(model@, input@),
            TurnAction::Save { messages } => TurnActionView::Save(messages_view(messages@)),
            TurnAction::Send { messages } => TurnActionView::Send(messages_view(messages@)),
            TurnAction::Idle => TurnActionView::Idle,
        }
    }
}

/// Whether an event can be taken in a state without the step failing: a text
/// that arrives must have a first and a single-byte last character to cut off,
/// and the model's answer must hold a choice.
pub open spec fn event_allowed(state: TurnView, event: TurnEventView) -> bool {
    match (state, event) {
        (TurnView::Ready, TurnEventView::Arrived(Some(t))) => can_unquote(t),
        (TurnView::Asking(_), TurnEventView::Replied(choices)) => choices.len() > 0,
        _ => true,
    }
}

/// One step of a turn: the next state and the action asked for. An event that
/// does not belong to the state leaves it as it is and asks for nothing.
pub open spec fn turn_step(state: TurnView, event: TurnEventView) -> (TurnView, TurnActionView) {
    match (state, event) {
        (TurnView::Ready, TurnEventView::Arrived(Some(t))) => (
            TurnView::Loading(unquoted(t)),
            TurnActionView::Load,
        ),
        (TurnView::Ready, TurnEventView::Arrived(None)) => (TurnView::Finished, TurnActionView::Idle),
        (TurnView::Loading(text), TurnEventView::Loaded(stored)) => {
            let history = loaded(stored).push(user_message(text));
            (TurnView::Asking(history), TurnActionView::Ask(MODEL@, history))
        },
        (TurnView::Asking(history), TurnEventView::Replied(choices)) => {
            let history = history.push(assistant_message(choices[0]));
            (TurnView::Saving(history), TurnActionView::Save(history))
        },
        (TurnView::Saving(history), TurnEventView::Saved) => (
            TurnView::Finished,
            TurnActionView::Send(shown(history)),
        ),
        _ => (state, TurnActionView::Idle),
    }
}

/// Takes one event of a turn and answers with the next state and action.
pub fn step(state: Turn, event: TurnEvent) -> (res: (Turn, TurnAction))
    requires
        event_allowed(state@, event@),
    ensures
        (res.0@, res.1@) == turn_step(state@, event@),
{
    match (state, event) {
        (Turn::Ready, TurnEvent::Arrived(Incoming::Text(t))) => {
            let text = unquote(t.as_str());
            (Turn::Loading { text }, TurnAction::Load)
        },
        (Turn::Ready, TurnEvent::Arrived(Incoming::Binary(_))) => (Turn::Finished, TurnAction::Idle),
        (Turn::Loading { text }, TurnEvent::Loaded(stored)) => {
            let mut history = load_history(stored);
            history.push(Message { role: String::from_str("user"), content: text });
            let input = AiInput { messages: copy_messages(&history) };
            proof {
                assert(messages_view(history@) =~= loaded(stored_view(stored)).push(
                    user_message(text@)));
            }
            (Turn::Asking { history }, TurnAction::Ask { model: String::from_str(MODEL), input })
        },
        (Turn::Asking { history }, TurnEvent::Replied(out)) => {
            let mut history = history;
            let ghost before = messages_view(history@);
            let reply = first_reply(&out);
            history.push(Message { role: String::from_str("assistant"), content: reply });
            let messages = copy_messages(&history);
            proof {
                assert(messages_view(history@) =~= before.push(assistant_message(out@[0])));
            }
            (Turn::Saving { history }, TurnAction::Save { messages })
        },
        (Turn::Saving { history }, TurnEvent::Saved) => {
            let messages = visible_messages(&history);
            (Turn::Finished, TurnAction::Send { messages })
        },
        (state, _) => (state, TurnAction::Idle),
    }
}


/// No message that a client is shown is the system's.
pub proof fn lemma_shown_hides_system(h: Seq<MessageView>)
    ensures
        forall|i: int| 0 <= i < shown(h).len() ==> #[trigger] shown(h)[i].role != system_role(),
{
    assert forall|i: int| 0 <= i < shown(h).len() implies #[trigger] shown(h)[i].role
        != system_role() by {
        h.lemma_filter_pred(|m: MessageView| is_shown(m), i);
    }
}

/// Every message that is not the system's is shown to the client.
pub proof fn lemma_shown_keeps_others(h: Seq<MessageView>, i: int)
    requires
        0 <= i < h.len(),
        h[i].role != system_role(),
    ensures
        shown(h).contains(h[i]),
{
    h.lemma_filter_contains(|m: MessageView| is_shown(m), i);
}

/// Showing what is already shown changes nothing.
pub proof fn lemma_shown_idempotent(h: Seq<MessageView>)
    ensures
        shown(shown(h)) == shown(h),
    decreases h.len(),
{
    reveal(Seq::filter);
    if h.len() > 0 {
        lemma_shown_idempotent(h.drop_last());
        let rest = shown(h.drop_last());
        if is_shown(h.last()) {
            assert(shown(h) == rest.push(h.last()));
            assert(rest.push(h.last()).drop_last() =~= rest);
        }
    }
}

/// A new chat room shows its client no message at all.
pub proof fn lemma_new_room_shows_nothing()
    ensures
        shown(initial_history()) == Seq::<MessageView>::empty(),
{
    reveal(Seq::filter);
    let h = initial_history();
    assert(h.drop_last() =~= Seq::<MessageView>::empty());
    assert(shown(h.drop_last()) =~= Seq::<MessageView>::empty());
}

/// Appending a message that is not the system's appends it to what is shown.
pub proof fn lemma_shown_push(h: Seq<MessageView>, m: MessageView)
    requires
        m.role != system_role(),
    ensures
        shown(h.push(m)) == shown(h).push(m),
{
    reveal(Seq::filter);
    assert(h.push(m).drop_last() =~= h);
}

/// One turn, from a text that arrives to the messages that are sent back: the
/// room reads its conversation, asks the model with it and the user's text
/// appended, stores it with the first choice of the reply appended, and sends
/// the client what is shown of that.
pub proof fn lemma_turn(text: Seq<char>, stored: Option<Seq<MessageView>>, choices: Seq<Seq<char>>)
    requires
        can_unquote(text),
        choices.len() > 0,
    ensures
        ({
            let asked = loaded(stored).push(user_message(unquoted(text)));
            let kept = asked.push(assistant_message(choices[0]));
            let (s1, a1) = turn_step(TurnView::Ready, TurnEventView::Arrived(Some(text)));
            let (s2, a2) = turn_step(s1, TurnEventView::Loaded(stored));
            let (s3, a3) = turn_step(s2, TurnEventView::Replied(choices));
            let (s4, a4) = turn_step(s3, TurnEventView::Saved);
            &&& event_allowed(TurnView::Ready, TurnEventView::Arrived(Some(text)))
            &&& event_allowed(s2, TurnEventView::Replied(choices))
            &&& a1 == TurnActionView::Load
            &&& a2 == TurnActionView::Ask(MODEL@, asked)
            &&& a3 == TurnActionView::Save(kept)
            &&& a4 == TurnActionView::Send(shown(kept))
            &&& s4 == TurnView::Finished
        }),
{
}

/// A turn keeps the conversation it read and adds exactly two messages: the
/// user's text and the model's reply; the client then sees what it saw before
/// with these two added.
pub proof fn lemma_turn_appends_exchange(
    history: Seq<MessageView>,
    text: Seq<char>,
    reply: Seq<char>,
)
    ensures
        ({
            let kept = history.push(user_message(text)).push(assistant_message(reply));
            &&& kept.len() == history.len() + 2
            &&& kept.subrange(0, history.len() as int) == history
            &&& shown(kept) == shown(history).push(user_message(text)).push(
                assistant_message(reply),
            )
        }),
{
    let kept = history.push(user_message(text)).push(assistant_message(reply));
    assert(kept.subrange(0, history.len() as int) =~= history);
    assert(user_role() != system_role()) by {
        reveal_strlit("user");
        reveal_strlit("system");
        assert(user_role()[0] != system_role()[0]);
    }
    assert(assistant_role() != system_role()) by {
        reveal_strlit("assistant");
        reveal_strlit("system");
        assert(assistant_role().len() != system_role().len());
    }
    lemma_shown_push(history, user_message(text));
    lemma_shown_push(history.push(user_message(text)), assistant_message(reply));
}

/// What a turn stores is what the next connection reads back: a client that
/// connects after a turn is sent the same messages as the turn sent.
pub proof fn lemma_reconnect_sees_last_reply(history: Seq<MessageView>)
    ensures
        turn_step(TurnView::Saving(history), TurnEventView::Saved).1 == TurnActionView::Send(
            shown(loaded(Some(history))),
        ),
{
}


/// What is shown of no messages is nothing.
pub proof fn lemma_shown_empty()
    ensures
        shown(Seq::<MessageView>::empty()) == Seq::<MessageView>::empty(),
{
    reveal(Seq::filter);
}

/// What is shown grows message by message: a message of the role "system" is
/// left out, any other is shown after what was shown before. Together with
/// [`lemma_shown_empty`] this fixes what is shown of every conversation.
pub proof fn lemma_shown_push_any(h: Seq<MessageView>, m: MessageView)
    ensures
        shown(h.push(m)) == if m.role == "system"@ {
            shown(h)
        } else {
            shown(h).push(m)
        },
{
    reveal(Seq::filter);
    assert(h.push(m).drop_last() =~= h);
}

/// A socket text starts a turn with its first and last characters cut off,
/// and the room asks for its stored conversation; anything but text ends the
/// turn at once with nothing to do.
pub proof fn lemma_turn_arrival(t: Seq<char>)
    ensures
        t.len() >= 2 ==> turn_step(TurnView::Ready, TurnEventView::Arrived(Some(t))) == (
            TurnView::Loading(t.subrange(1, t.len() - 1)),
            TurnActionView::Load,
        ),
        turn_step(TurnView::Ready, TurnEventView::Arrived(None)) == (
            TurnView::Finished,
            TurnActionView::Idle,
        ),
{
}

/// When the storage holds a conversation, the turn continues exactly that
/// one: the model is asked with the stored messages, unchanged and in their
/// order (the system's instructions included), followed by the user's text.
pub proof fn lemma_turn_continues_stored(text: Seq<char>, h: Seq<MessageView>)
    ensures
        loaded(Some(h)) == h,
        turn_step(TurnView::Loading(text), TurnEventView::Loaded(Some(h))) == (
            TurnView::Asking(h.push(MessageView { role: "user"@, content: text })),
            TurnActionView::Ask(
                "@cf/moonshotai/kimi-k2.6"@,
                h.push(MessageView { role: "user"@, content: text }),
            ),
        ),
{
}

/// When the storage holds nothing, the turn starts a new conversation: the
/// model is asked with the system's instructions followed by the user's text.
pub proof fn lemma_turn_starts_new(text: Seq<char>)
    ensures
        turn_step(TurnView::Loading(text), TurnEventView::Loaded(None)) == (
            TurnView::Asking(
                seq![
                    MessageView { role: "system"@, content: SYSTEM_PROMPT@ },
                    MessageView { role: "user"@, content: text },
                ],
            ),
            TurnActionView::Ask(
                "@cf/moonshotai/kimi-k2.6"@,
                seq![
                    MessageView { role: "system"@, content: SYSTEM_PROMPT@ },
                    MessageView { role: "user"@, content: text },
                ],
            ),
        ),
{
    assert(seq![MessageView { role: "system"@, content: SYSTEM_PROMPT@ }].push(
        MessageView { role: "user"@, content: text },
    ) =~= seq![
        MessageView { role: "system"@, content: SYSTEM_PROMPT@ },
        MessageView { role: "user"@, content: text },
    ]);
}

/// The model's first choice is appended to the conversation as the
/// assistant's message, and exactly that conversation is stored.
pub proof fn lemma_turn_reply(h: Seq<MessageView>, choices: Seq<Seq<char>>)
    requires
        choices.len() > 0,
    ensures
        turn_step(TurnView::Asking(h), TurnEventView::Replied(choices)) == (
            TurnView::Saving(h.push(MessageView { role: "assistant"@, content: choices[0] })),
            TurnActionView::Save(h.push(MessageView { role: "assistant"@, content: choices[0] })),
        ),
{
}

/// Once stored, the conversation is sent to the client as it is shown, and
/// the turn is over.
pub proof fn lemma_turn_send(h: Seq<MessageView>)
    ensures
        turn_step(TurnView::Saving(h), TurnEventView::Saved) == (
            TurnView::Finished,
            TurnActionView::Send(shown(h)),
        ),
{
}

/// An event that does not belong to the state changes nothing and asks for
/// nothing.
pub proof fn lemma_turn_ignores_stray(s: TurnView, e: TurnEventView)
    requires
        !(s is Ready && e is Arrived),
        !(s is Loading && e is Loaded),
        !(s is Asking && e is Replied),
        !(s is Saving && e is Saved),
    ensures
        turn_step(s, e) == (s, TurnActionView::Idle),
{
}

} // verus!
