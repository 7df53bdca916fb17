//! The bot: its identity, its table of subscriptions, and the routing of each incoming update
//! to the queue that subscribed to it.
//!
//! The bot is generic over the handles of its delivery queues: `Q` receives messages, `C`
//! callback queries and `I` inline queries. Routing hands back the queue that an update is
//! for, together with the payload to deliver; delivering it is up to the caller.
use vstd::prelude::*;
use crate::objects::{CallbackQuery, InlineQuery, Message, Update, User};
use crate::poll::{cursor_after, update_ids, UpdateCursor};
use crate::text::{
    chars_equal, chars_of, ends_with, join_from, opt_view, rest_after_first_word, split_words,
    string_of, take_chars, words, words_view,
};

verus! {

/// The marker that starts a command.
pub const COMMAND_MARKER: char = '/';

/// The model of a bot.
pub struct BotView<Q, C, I> {
    pub key: Seq<char>,
    /// The mention that the bot answers to (`@` and its user name), once resolved.
    pub name: Option<Seq<char>>,
    /// Milliseconds between two polls.
    pub update_interval: u64,
    /// Seconds that the service may hold a poll open.
    pub timeout: u64,
    /// The subscriptions by key.
    pub handlers: Map<Seq<char>, Q>,
    pub unknown_cmd: Option<Q>,
    pub unknown_text: Option<Q>,
    pub callback: Option<C>,
    pub inline: Option<I>,
}

/// The bot's configuration and subscriptions.
pub struct Bot<Q, C, I> {
    key: String,
    name: Option<String>,
    update_interval: u64,
    timeout: u64,
    handlers: Vec<(Vec<char>, Q)>,
    unknown_cmd_handler: Option<Q>,
    unknown_text_handler: Option<Q>,
    callback_handler: Option<C>,
    inline_handler: Option<I>,
}

/// The keys of a subscription list are distinct.
pub open spec fn keys_distinct<Q>(hs: Seq<(Vec<char>, Q)>) -> bool {
    forall|i: int, j: int| 0 <= i < hs.len() && 0 <= j < hs.len() && i != j ==> hs[i].0@ != hs[j].0@
}

/// Whether the key `k` is at position `i` of the list.
pub open spec fn key_at<Q>(hs: Seq<(Vec<char>, Q)>, i: int, k: Seq<char>) -> bool {
    0 <= i < hs.len() && hs[i].0@ == k
}

/// The subscription list as a map from key to queue.
pub open spec fn handler_map<Q>(hs: Seq<(Vec<char>, Q)>) -> Map<Seq<char>, Q> {
    Map::new(
        |k: Seq<char>| exists|i: int| key_at(hs, i, k),
        |k: Seq<char>| hs[choose|i: int| key_at(hs, i, k)].1,
    )
}

/// The key under which a command is registered: the command marker is put in front where it
/// is missing.
pub open spec fn command_key(cmd: Seq<char>) -> Seq<char> {
    if cmd.len() > 0 && cmd[0] == COMMAND_MARKER {
        cmd
    } else {
        seq![COMMAND_MARKER] + cmd
    }
}

/// The mention that a user with this user name is addressed by.
pub open spec fn mention(username: Seq<char>) -> Seq<char> {
    seq!['@'] + username
}

impl<Q, C, I> View for Bot<Q, C, I> {
    type V = BotView<Q, C, I>;

    closed spec fn view(&self) -> BotView<Q, C, I> {
        BotView {
            key: self.key@,
            name: opt_view(self.name),
            update_interval: self.update_interval,
            timeout: self.timeout,
            handlers: handler_map(self.handlers@),
            unknown_cmd: self.unknown_cmd_handler,
            unknown_text: self.unknown_text_handler,
            callback: self.callback_handler,
            inline: self.inline_handler,
        }
    }
}

proof fn lemma_handler_map_at<Q>(hs: Seq<(Vec<char>, Q)>, i: int)
    requires
        keys_distinct(hs),
        0 <= i < hs.len(),
    ensures
        handler_map(hs).contains_key(hs[i].0@),
        handler_map(hs)[hs[i].0@] == hs[i].1,
{
    let k = hs[i].0@;
    assert(key_at(hs, i, k));
    let j = choose|j: int| key_at(hs, j, k);
    assert(j == i);
}

proof fn lemma_handler_map_push<Q>(hs: Seq<(Vec<char>, Q)>, e: (Vec<char>, Q))
    requires
        keys_distinct(hs),
        !handler_map(hs).contains_key(e.0@),
    ensures
        keys_distinct(hs.push(e)),
        handler_map(hs.push(e)) == handler_map(hs).insert(e.0@, e.1),
{
    let hs2 = hs.push(e);
    assert forall|i: int| 0 <= i < hs.len() implies hs[i].0@ != e.0@ by {
        if hs[i].0@ == e.0@ {
            assert(key_at(hs, i, e.0@));
        }
    }
    assert(keys_distinct(hs2));
    let m1 = handler_map(hs2);
    let m2 = handler_map(hs).insert(e.0@, e.1);
    assert forall|k: Seq<char>| m1.contains_key(k) <==> m2.contains_key(k) by {
        if m1.contains_key(k) {
            let i = choose|i: int| key_at(hs2, i, k);
            if i < hs.len() {
                assert(key_at(hs, i, k));
            }
        }
        if m2.contains_key(k) {
            if k == e.0@ {
                assert(key_at(hs2, hs.len() as int, k));
            } else {
                let i = choose|i: int| key_at(hs, i, k);
                assert(key_at(hs2, i, k));
            }
        }
    }
    assert forall|k: Seq<char>| #[trigger] m1.contains_key(k) implies m1[k] == m2[k] by {
        let i = choose|i: int| key_at(hs2, i, k);
        lemma_handler_map_at(hs2, i);
        if k != e.0@ {
            assert(i < hs.len());
            lemma_handler_map_at(hs, i);
        }
    }
    assert(m1 =~= m2);
}

proof fn lemma_handler_map_replace<Q>(hs: Seq<(Vec<char>, Q)>, i: int, e: (Vec<char>, Q))
    requires
        keys_distinct(hs),
        0 <= i < hs.len(),
        hs[i].0@ == e.0@,
    ensures
        keys_distinct(hs.update(i, e)),
        handler_map(hs.update(i, e)) == handler_map(hs).insert(e.0@, e.1),
{
    let hs2 = hs.update(i, e);
    assert(keys_distinct(hs2));
    let m1 = handler_map(hs2);
    let m2 = handler_map(hs).insert(e.0@, e.1);
    assert forall|k: Seq<char>| m1.contains_key(k) <==> m2.contains_key(k) by {
        if m1.contains_key(k) {
            let j = choose|j: int| key_at(hs2, j, k);
            if j != i {
                assert(key_at(hs, j, k));
            }
        }
        if m2.contains_key(k) {
            if k == e.0@ {
                assert(key_at(hs2, i, k));
            } else {
                let j = choose|j: int| key_at(hs, j, k);
                assert(key_at(hs2, j, k));
            }
        }
    }
    assert forall|k: Seq<char>| #[trigger] m1.contains_key(k) implies m1[k] == m2[k] by {
        let j = choose|j: int| key_at(hs2, j, k);
        lemma_handler_map_at(hs2, j);
        if j != i {
            lemma_handler_map_at(hs, j);
        }
    }
    assert(m1 =~= m2);
}


/// What routing decides for one update.
pub enum Decision {
    /// To the callback slot.
    Callback,
    /// To the inline slot.
    Inline,
    /// To the subscription of the key, with the message text replaced.
    Handler(Seq<char>, Seq<char>),
    /// To the unknown-command slot, unchanged.
    UnknownCommand,
    /// To the unknown-text slot, with the message text replaced.
    UnknownText(Seq<char>),
    /// Not consumed: handed back to the caller.
    Forward,
}

/// Whether the first entity of the message marks a bot command.
pub open spec fn entity_marks_command(m: Message) -> bool {
    m.entities matches Some(es) && es@.len() > 0 && es@[0].kind@ == "bot_command"@
}

/// The first word of a text, if it has one.
pub open spec fn first_word(t: Seq<char>) -> Option<Seq<char>> {
    if words(t).len() > 0 {
        Some(words(t)[0])
    } else {
        None
    }
}

/// The token with the bot's mention taken off its end, where it ends with it.
pub open spec fn strip_mention(token: Seq<char>, name: Option<Seq<char>>) -> Seq<char> {
    match name {
        Some(n) => if n.len() <= token.len() && token.subrange(
            token.len() - n.len(),
            token.len() as int,
        ) == n {
            token.subrange(0, token.len() - n.len())
        } else {
            token
        },
        None => token,
    }
}

/// Whether a message is a command: its first entity says so, or its first word starts with
/// the command marker.
pub open spec fn is_command(flagged: bool, first: Option<Seq<char>>) -> bool {
    flagged || (first matches Some(f) && f.len() > 0 && f[0] == COMMAND_MARKER)
}

/// Routing of a message text, from its first word and the rest of it. A command is looked up
/// by its token without the bot's mention; when it has no subscription it goes to the
/// unknown-command slot if there is one. Otherwise the first word is looked up as it stands,
/// and a text that finds no subscription goes to the unknown-text slot if there is one.
pub open spec fn decide_words<Q, C, I>(
    b: BotView<Q, C, I>,
    flagged: bool,
    first: Option<Seq<char>>,
    rest: Seq<char>,
) -> Decision {
    if is_command(flagged, first) && first is Some && b.handlers.contains_key(
        strip_mention(first->0, b.name),
    ) {
        Decision::Handler(strip_mention(first->0, b.name), rest)
    } else if is_command(flagged, first) && first is Some && b.unknown_cmd is Some {
        Decision::UnknownCommand
    } else if first is Some && b.handlers.contains_key(first->0) {
        Decision::Handler(first->0, rest)
    } else if b.unknown_text is Some {
        Decision::UnknownText(rest)
    } else {
        Decision::Forward
    }
}

/// Routing of a message: one without text is not consumed.
pub open spec fn decide_message<Q, C, I>(b: BotView<Q, C, I>, m: Message) -> Decision {
    match m.text {
        Some(t) => decide_words(
            b,
            entity_marks_command(m),
            first_word(t@),
            rest_after_first_word(t@),
        ),
        None => Decision::Forward,
    }
}

/// Routing of an update: callback queries and inline queries go to their slots first, then
/// the message is routed.
pub open spec fn decide<Q, C, I>(b: BotView<Q, C, I>, u: Update) -> Decision {
    if u.callback_query is Some && b.callback is Some {
        Decision::Callback
    } else if u.inline_query is Some && b.inline is Some {
        Decision::Inline
    } else {
        match u.message {
            Some(m) => decide_message(b, m),
            None => Decision::Forward,
        }
    }
}

/// Where an update goes: a queue and what to deliver to it, or back to the caller.
pub enum Route<'a, Q, C, I> {
    Callback(&'a C, CallbackQuery),
    Inline(&'a I, InlineQuery),
    Message(&'a Q, Message),
    Forward(Update),
}

/// `m` is `orig` with its text replaced by `text`.
pub open spec fn with_text(m: Message, orig: Message, text: Seq<char>) -> bool {
    m.text matches Some(t) && t@ == text && m == (Message { text: m.text, ..orig })
}

/// `r` carries out what routing decides for `u`.
pub open spec fn routed<'a, Q, C, I>(b: BotView<Q, C, I>, u: Update, r: Route<'a, Q, C, I>) -> bool {
    match decide(b, u) {
        Decision::Callback => r matches Route::Callback(q, cb) && *q == b.callback->0
            && u.callback_query == Some(cb),
        Decision::Inline => r matches Route::Inline(q, iq) && *q == b.inline->0 && u.inline_query
            == Some(iq),
        Decision::Handler(k, t) => r matches Route::Message(q, m) && *q == b.handlers[k]
            && with_text(m, u.message->0, t),
        Decision::UnknownCommand => r matches Route::Message(q, m) && *q == b.unknown_cmd->0
            && u.message == Some(m),
        Decision::UnknownText(t) => r matches Route::Message(q, m) && *q == b.unknown_text->0
            && with_text(m, u.message->0, t),
        Decision::Forward => r == Route::<'a, Q, C, I>::Forward(u),
    }
}

/// Once a command is subscribed, a message whose first word is that command reaches the
/// subscription's queue with the rest of its text, and so never the unknown-command slot.
pub proof fn lemma_command_reaches_subscription<Q, C, I>(
    b: BotView<Q, C, I>,
    cmd: Seq<char>,
    queue: Q,
    m: Message,
)
    requires
        cmd.len() > 0,
        cmd[0] == COMMAND_MARKER,
        strip_mention(cmd, b.name) == cmd,
        m.text matches Some(t) && first_word(t@) == Some(cmd),
    ensures
        ({
            let after = BotView { handlers: b.handlers.insert(command_key(cmd), queue), ..b };
            &&& decide_message(after, m) == Decision::Handler(
                cmd,
                rest_after_first_word(m.text->0@),
            )
            &&& after.handlers[cmd] == queue
        }),
{
}

/// A command that has no subscription goes, unchanged, to the unknown-command slot when
/// there is one.
pub proof fn lemma_unknown_command_unchanged<Q, C, I>(b: BotView<Q, C, I>, u: Update)
    requires
        b.unknown_cmd is Some,
        u.callback_query is None || b.callback is None,
        u.inline_query is None || b.inline is None,
        u.message matches Some(m) && m.text matches Some(t) && first_word(t@) matches Some(tok)
            && tok.len() > 0 && tok[0] == COMMAND_MARKER && !b.handlers.contains_key(
            strip_mention(tok, b.name),
        ),
    ensures
        decide(b, u) == Decision::UnknownCommand,
        forall|r: Route<Q, C, I>|
            routed(b, u, r) ==> (r matches Route::Message(q, m) && *q == b.unknown_cmd->0
                && u.message == Some(m)),
{
}

/// A command token that ends with the bot's mention is routed as the token without it, as
/// long as the token with the mention is not itself the key of a subscription that the plain
/// token lacks.
pub proof fn lemma_mention_suffix_ignored<Q, C, I>(
    b: BotView<Q, C, I>,
    flagged: bool,
    cmd: Seq<char>,
    rest: Seq<char>,
)
    requires
        b.name is Some,
        cmd.len() > 0,
        cmd[0] == COMMAND_MARKER,
        strip_mention(cmd, b.name) == cmd,
        b.handlers.contains_key(cmd) || !b.handlers.contains_key(cmd + b.name->0),
    ensures
        decide_words(b, flagged, Some(cmd + b.name->0), rest) == decide_words(
            b,
            flagged,
            Some(cmd),
            rest,
        ),
{
    let n = b.name->0;
    let full = cmd + n;
    assert(full.subrange(full.len() - n.len(), full.len() as int) =~= n);
    assert(full.subrange(0, full.len() - n.len()) =~= cmd);
    assert(strip_mention(full, b.name) == cmd);
    assert(full[0] == COMMAND_MARKER);
}

/// A callback query goes to the callback slot whenever there is one, whatever else is
/// subscribed; it is never handed back to the caller.
pub proof fn lemma_callback_slot_first<'a, Q, C, I>(
    b: BotView<Q, C, I>,
    u: Update,
    r: Route<'a, Q, C, I>,
)
    requires
        u.callback_query is Some,
        b.callback is Some,
        routed(b, u, r),
    ensures
        r matches Route::Callback(q, cb) && *q == b.callback->0 && u.callback_query == Some(cb),
        !(r is Forward),
{
}

/// The target that a message text was routed to, before the message is moved.
enum Choice {
    Handler(usize, Vec<char>),
    UnknownCommand,
    UnknownText(Vec<char>),
    Nothing,
}

/// Whether the first entity of the message marks a bot command.
fn marks_command(m: &Message) -> (r: bool)
    ensures
        r == entity_marks_command(*m),
{
    match &m.entities {
        Some(es) => {
            if es.len() > 0 {
                let k = chars_of(es[0].kind.as_str());
                let c = chars_of("bot_command");
                chars_equal(k.as_slice(), c.as_slice())
            } else {
                false
            }
        },
        None => false,
    }
}

impl<Q, C, I> Bot<Q, C, I> {
    /// The invariant of the subscription list: its keys are distinct.
    pub closed spec fn wf(&self) -> bool {
        keys_distinct(self.handlers@)
    }

    /// A bot with the given key: name unresolved, polling every 2000 ms with a long-poll
    /// timeout of 3600 s, and no subscriptions.
    pub fn new(key: &str) -> (r: Self)
        ensures
            r.wf(),
            r@.key == key@,
            r@.name is None,
            r@.update_interval == 2000,
            r@.timeout == 3600,
            r@.handlers == Map::<Seq<char>, Q>::empty(),
            r@.unknown_cmd is None,
            r@.unknown_text is None,
            r@.callback is None,
            r@.inline is None,
    {
        let r = Bot {
            key: key.to_owned(),
            name: None,
            update_interval: 2000,
            timeout: 3600,
            handlers: Vec::new(),
            unknown_cmd_handler: None,
            unknown_text_handler: None,
            callback_handler: None,
            inline_handler: None,
        };
        assert(r@.handlers =~= Map::<Seq<char>, Q>::empty());
        r
    }

    /// Sets the time between two polls, in milliseconds.
    pub fn update_interval(self, interval: u64) -> (r: Self)
        ensures
            r.wf() == self.wf(),
            r@ == (BotView { update_interval: interval, ..self@ }),
    {
        let mut b = self;
        b.update_interval = interval;
        b
    }

    /// Sets how long, in seconds, the service may hold a poll open.
    pub fn timeout(self, timeout: u64) -> (r: Self)
        ensures
            r.wf() == self.wf(),
            r@ == (BotView { timeout: timeout, ..self@ }),
    {
        let mut b = self;
        b.timeout = timeout;
        b
    }

    pub fn key(&self) -> (r: &String)
        ensures
            r@ == self@.key,
    {
        &self.key
    }

    pub fn get_update_interval(&self) -> (r: u64)
        ensures
            r == self@.update_interval,
    {
        self.update_interval
    }

    pub fn get_timeout(&self) -> (r: u64)
        ensures
            r == self@.timeout,
    {
        self.timeout
    }

    pub fn name(&self) -> (r: &Option<String>)
        ensures
            opt_view(*r) == self@.name,
    {
        &self.name
    }

    /// Sets the mention that commands may carry as a suffix.
    pub fn set_name(&mut self, name: Option<String>)
        requires
            old(self).wf(),
        ensures
            final(self).wf(),
            final(self)@ == (BotView { name: opt_view(name), ..old(self)@ }),
    {
        self.name = name;
    }

    /// The mention of the bot, from the user record that the service returns for it.
    pub fn resolve_name(&self, me: &User) -> (r: Option<String>)
        ensures
            match me.username {
                Some(u) => r matches Some(s) && s@ == mention(u@),
                None => r is None,
            },
    {
        match &me.username {
            Some(u) => {
                let mut s = String::new();
                s.push('@');
                let cs = chars_of(u.as_str());
                let mut i: usize = 0;
                while i < cs.len()
                    invariant
                        i <= cs@.len(),
                        cs@ == u@,
                        s@ == seq!['@'] + cs@.take(i as int),
                    decreases cs@.len() - i,
                {
                    s.push(cs[i]);
                    i = i + 1;
                    assert(cs@.take(i as int) == cs@.take(i - 1).push(cs@[i - 1]));
                }
                assert(cs@.take(cs@.len() as int) == cs@);
                Some(s)
            },
            None => None,
        }
    }

    /// The position of `key` in the subscription list.
    fn find_handler(&self, key: &[char]) -> (r: Option<usize>)
        requires
            self.wf(),
        ensures
            match r {
                Some(i) => i < self.handlers@.len() && self.handlers@[i as int].0@ == key@,
                None => !self@.handlers.contains_key(key@),
            },
    {
        let mut i: usize = 0;
        while i < self.handlers.len()
            invariant
                i <= self.handlers@.len(),
                forall|j: int| 0 <= j < i ==> self.handlers@[j].0@ != key@,
            decreases self.handlers@.len() - i,
        {
            if chars_equal(self.handlers[i].0.as_slice(), key) {
                return Some(i);
            }
            i = i + 1;
        }
        proof {
            if self@.handlers.contains_key(key@) {
                let j = choose|j: int| key_at(self.handlers@, j, key@);
                assert(self.handlers@[j].0@ == key@);
            }
        }
        None
    }

    /// The token with the bot's mention taken off its end, where it ends with it.
    fn strip_name(&self, token: &Vec<char>) -> (r: Vec<char>)
        ensures
            r@ == strip_mention(token@, self@.name),
    {
        match &self.name {
            Some(n) => {
                let ns = chars_of(n.as_str());
                if ends_with(token.as_slice(), ns.as_slice()) {
                    take_chars(token.as_slice(), token.len() - ns.len())
                } else {
                    take_chars(token.as_slice(), token.len())
                }
            },
            None => take_chars(token.as_slice(), token.len()),
        }
    }

    /// The queue subscribed under `key`, if any.
    pub fn lookup(&self, key: &str) -> (r: Option<&Q>)
        requires
            self.wf(),
        ensures
            match r {
                Some(q) => self@.handlers.contains_key(key@) && *q == self@.handlers[key@],
                None => !self@.handlers.contains_key(key@),
            },
    {
        let k = chars_of(key);
        match self.find_handler(k.as_slice()) {
            Some(i) => {
                proof {
                    lemma_handler_map_at(self.handlers@, i as int);
                }
                Some(&self.handlers[i].1)
            },
            None => None,
        }
    }

    /// Decides where a message goes by its text, without moving it.
    fn choose_target(&self, m: &Message) -> (r: Choice)
        requires
            self.wf(),
        ensures
            match decide_message(self@, *m) {
                Decision::Handler(k, t) => r matches Choice::Handler(i, x) && i
                    < self.handlers@.len() && self.handlers@[i as int].0@ == k && x@ == t,
                Decision::UnknownCommand => r is UnknownCommand,
                Decision::UnknownText(t) => r matches Choice::UnknownText(x) && x@ == t,
                Decision::Forward => r is Nothing,
                _ => false,
            },
    {
        match &m.text {
            None => Choice::Nothing,
            Some(t) => {
                let cs = chars_of(t.as_str());
                let ws = split_words(cs.as_slice());
                let ghost first = first_word(t@);
                let rest = if ws.len() > 0 {
                    join_from(&ws, 1)
                } else {
                    Vec::new()
                };
                proof {
                    assert(words_view(ws@) == words(t@));
                    if ws@.len() > 0 {
                        assert(words(t@).drop_first() =~= words_view(ws@).subrange(
                            1,
                            ws@.len() as int,
                        ));
                        assert(first == Some(ws@[0]@));
                    } else {
                        assert(rest@ =~= rest_after_first_word(t@));
                    }
                }
                let flagged = marks_command(m);
                let command = flagged || (ws.len() > 0 && ws[0].len() > 0 && ws[0][0]
                    == COMMAND_MARKER);
                if command && ws.len() > 0 {
                    let key = self.strip_name(&ws[0]);
                    match self.find_handler(key.as_slice()) {
                        Some(i) => {
                            proof {
                                lemma_handler_map_at(self.handlers@, i as int);
                            }
                            return Choice::Handler(i, rest);
                        },
                        None => {
                            if self.unknown_cmd_handler.is_some() {
                                return Choice::UnknownCommand;
                            }
                        },
                    }
                }
                if ws.len() > 0 {
                    match self.find_handler(ws[0].as_slice()) {
                        Some(i) => {
                            proof {
                                lemma_handler_map_at(self.handlers@, i as int);
                            }
                            return Choice::Handler(i, rest);
                        },
                        None => {},
                    }
                }
                if self.unknown_text_handler.is_some() {
                    Choice::UnknownText(rest)
                } else {
                    Choice::Nothing
                }
            },
        }
    }

    /// Routes one update: to the queue that subscribed to it, with what to deliver, or back
    /// to the caller when no subscription takes it.
    pub fn route<'a>(&'a self, update: Update) -> (r: Route<'a, Q, C, I>)
        requires
            self.wf(),
        ensures
            routed(self@, update, r),
    {
        if let Some(q) = &self.callback_handler {
            if let Some(cb) = update.callback_query {
                return Route::Callback(q, cb);
            }
        }
        if let Some(q) = &self.inline_handler {
            if let Some(iq) = update.inline_query {
                return Route::Inline(q, iq);
            }
        }
        let choice = match &update.message {
            Some(m) => self.choose_target(m),
            None => Choice::Nothing,
        };
        match choice {
            Choice::Nothing => Route::Forward(update),
            Choice::Handler(i, text) => {
                proof {
                    lemma_handler_map_at(self.handlers@, i as int);
                }
                match update.message {
                    Some(mut m) => {
                        m.text = Some(string_of(text.as_slice()));
                        Route::Message(&self.handlers[i].1, m)
                    },
                    None => Route::Forward(update),
                }
            },
            Choice::UnknownCommand => {
                match &self.unknown_cmd_handler {
                    Some(q) => match update.message {
                        Some(m) => Route::Message(q, m),
                        None => Route::Forward(update),
                    },
                    None => Route::Forward(update),
                }
            },
            Choice::UnknownText(text) => {
                match &self.unknown_text_handler {
                    Some(q) => match update.message {
                        Some(mut m) => {
                            m.text = Some(string_of(text.as_slice()));
                            Route::Message(q, m)
                        },
                        None => Route::Forward(update),
                    },
                    None => Route::Forward(update),
                }
            },
        }
    }

    /// Handles one batch of a poll: moves the cursor past the batch, then routes each update
    /// in order.
    pub fn process_updates<'a>(&'a self, cursor: &mut UpdateCursor, batch: Vec<Update>) -> (r: Vec<
        Route<'a, Q, C, I>,
    >)
        requires
            self.wf(),
        ensures
            final(cursor)@ == cursor_after(old(cursor)@, update_ids(batch@)),
            r@.len() == batch@.len(),
            forall|i: int| 0 <= i < batch@.len() ==> routed(self@, batch@[i], #[trigger] r@[i]),
    {
        cursor.observe(&batch);
        let mut out: Vec<Route<'a, Q, C, I>> = Vec::new();
        for u in it: batch.into_iter()
            invariant
                self.wf(),
                it.seq() == batch@,
                out@.len() == it.index(),
                forall|i: int| 0 <= i < it.index() ==> routed(self@, batch@[i], #[trigger] out@[i]),
        {
            out.push(self.route(u));
        }
        out
    }

    /// Handles an update pushed by the service: one that was read is routed and acknowledged
    /// with success, whatever becomes of it; one that could not be read is answered with a
    /// server error, so that the service sends it again.
    pub fn accept_push<'a>(&'a self, update: Option<Update>) -> (r: (u16, Option<Route<'a, Q, C, I>>))
        requires
            self.wf(),
        ensures
            match update {
                Some(u) => r.0 == 200 && (r.1 matches Some(route) && routed(self@, u, route)),
                None => r.0 == 500 && r.1 is None,
            },
    {
        match update {
            Some(u) => (200, Some(self.route(u))),
            None => (500, None),
        }
    }

    /// Subscribes `queue` under `key`, replacing an earlier subscription of that key.
    fn register(&mut self, key: Vec<char>, queue: Q)
        requires
            old(self).wf(),
        ensures
            final(self).wf(),
            final(self)@ == (BotView {
                handlers: old(self)@.handlers.insert(key@, queue),
                ..old(self)@
            }),
    {
        let ghost k = key@;
        match self.find_handler(key.as_slice()) {
            Some(i) => {
                proof {
                    lemma_handler_map_replace(self.handlers@, i as int, (key, queue));
                }
                self.handlers.set(i, (key, queue));
            },
            None => {
                proof {
                    lemma_handler_map_push(self.handlers@, (key, queue));
                }
                self.handlers.push((key, queue));
            },
        }
    }

    /// Subscribes `queue` to the command `cmd`; the command marker is put in front of `cmd`
    /// where it is missing.
    pub fn new_cmd(&mut self, cmd: &str, queue: Q)
        requires
            old(self).wf(),
        ensures
            final(self).wf(),
            final(self)@ == (BotView {
                handlers: old(self)@.handlers.insert(command_key(cmd@), queue),
                ..old(self)@
            }),
    {
        let cs = chars_of(cmd);
        let key = if cs.len() > 0 && cs[0] == COMMAND_MARKER {
            cs
        } else {
            let mut k: Vec<char> = Vec::new();
            k.push(COMMAND_MARKER);
            let mut i: usize = 0;
            while i < cs.len()
                invariant
                    i <= cs@.len(),
                    k@ == seq![COMMAND_MARKER] + cs@.take(i as int),
                decreases cs@.len() - i,
            {
                k.push(cs[i]);
                i = i + 1;
                assert(cs@.take(i as int) == cs@.take(i - 1).push(cs@[i - 1]));
            }
            assert(cs@.take(cs@.len() as int) == cs@);
            k
        };
        self.register(key, queue);
    }

    /// Subscribes `queue` to messages whose first word is `text`.
    pub fn new_text(&mut self, text: &str, queue: Q)
        requires
            old(self).wf(),
        ensures
            final(self).wf(),
            final(self)@ == (BotView {
                handlers: old(self)@.handlers.insert(text@, queue),
                ..old(self)@
            }),
    {
        let key = chars_of(text);
        self.register(key, queue);
    }

    /// Subscribes `queue` to the text messages that no subscription takes.
    pub fn unknown_text(&mut self, queue: Q)
        requires
            old(self).wf(),
        ensures
            final(self).wf(),
            final(self)@ == (BotView { unknown_text: Some(queue), ..old(self)@ }),
    {
        self.unknown_text_handler = Some(queue);
    }

    /// Subscribes `queue` to the commands that no subscription takes.
    pub fn unknown_cmd(&mut self, queue: Q)
        requires
            old(self).wf(),
        ensures
            final(self).wf(),
            final(self)@ == (BotView { unknown_cmd: Some(queue), ..old(self)@ }),
    {
        self.unknown_cmd_handler = Some(queue);
    }

    /// Subscribes `queue` to callback queries.
    pub fn callback(&mut self, queue: C)
        requires
            old(self).wf(),
        ensures
            final(self).wf(),
            final(self)@ == (BotView { callback: Some(queue), ..old(self)@ }),
    {
        self.callback_handler = Some(queue);
    }

    /// Subscribes `queue` to inline queries.
    pub fn inline(&mut self, queue: I)
        requires
            old(self).wf(),
        ensures
            final(self).wf(),
            final(self)@ == (BotView { inline: Some(queue), ..old(self)@ }),
    {
        self.inline_handler = Some(queue);
    }
}

} // verus!
