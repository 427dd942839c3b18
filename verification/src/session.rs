use vstd::prelude::*;

use crate::text::{contains_subrange, join_strings, lemma_join_contains_part, spec_join};
use crate::user::{User, UserModel};

verus! {

/// How a message turn fails: the profile store was unreachable or
/// rejected the record (`PersistenceError`), or the completion service
/// call failed (`CompletionError`).
#[derive(Clone, Copy, Debug, PartialEq, Eq, Structural)]
pub enum TurnError {
    PersistenceError,
    CompletionError,
}

/// An administrative command, as the transport recognizes it.
pub enum Command {
    /// Show the static list of commands.
    Help,
    /// Begin a new conversation: the transcript is cleared.
    Start,
    /// Append an interest to the active profile.
    AddInterest(String),
    /// Append a goal to the active profile.
    AddGoal(String),
}

/// What applying a command decided: the reply to send back, and whether
/// the profile must be persisted afterwards.
pub struct CommandOutcome {
    pub reply: String,
    pub save_user: bool,
}

/// The single in-process session: the profile of the peer currently
/// being served and the conversation transcript, user and assistant
/// turns in chronological order.
pub struct Assistant {
    pub user: User,
    pub conversation_history: Vec<String>,
}

/// The exact context string sent to the completion service: the display
/// name, the interests and goals each joined by a comma separator, and
/// the whole transcript joined by newlines, inside a fixed frame.
pub open spec fn spec_context(user: UserModel, history: Seq<Seq<char>>) -> Seq<char> {
    "Du bist ein persönlicher Assistent für "@ + user.name
        + ". Ihre Interessen sind: "@ + spec_join(user.interests, ", "@)
        + ". Ihre Ziele sind: "@ + spec_join(user.goals, ", "@)
        + ". \n             Bisheriger Gesprächsverlauf: "@ + spec_join(history, "\n"@)
}

pub open spec fn spec_help_text() -> Seq<char> {
    "Verfügbare Befehle:\n/help — Zeigt diese Nachricht an.\n/start — Startet ein neues Gespräch.\n/addinterest — Fügt ein neues Interesse hinzu.\n/addgoal — Fügt ein neues Ziel hinzu."@
}

pub open spec fn spec_started_text() -> Seq<char> {
    "Neues Gespräch gestartet. Wie kann ich Ihnen helfen?"@
}

pub open spec fn spec_interest_added_text() -> Seq<char> {
    "Interesse hinzugefügt."@
}

pub open spec fn spec_goal_added_text() -> Seq<char> {
    "Ziel hinzugefügt."@
}

pub open spec fn spec_unauthorized_text() -> Seq<char> {
    "Sie sind nicht berechtigt, diesen Bot zu verwenden."@
}

pub open spec fn spec_fallback_text() -> Seq<char> {
    "Entschuldigung, ich konnte keine Antwort generieren."@
}

/// The reply drawn from a successful completion call: the generated
/// text when the payload carried one, else the fixed apology.
pub fn reply_or_fallback(content: Option<String>) -> (reply: String)
    ensures
        content matches Some(text) ==> reply == text,
        content is None ==> reply@ == spec_fallback_text(),
{
    match content {
        Some(text) => text,
        None => String::from_str("Entschuldigung, ich konnte keine Antwort generieren."),
    }
}

/// Classifies profile resolution, the first step of a message turn: a
/// resolved record lets the turn go on; a store failure is a
/// `PersistenceError`, fatal to the turn, and no reply is sent.
pub fn resolve_profile(found: Option<User>) -> (resolution: Result<User, TurnError>)
    ensures
        found matches Some(user) ==> (resolution matches Ok(resolved) && resolved == user),
        found is None ==> (resolution matches Err(e) && e == TurnError::PersistenceError),
{
    match found {
        Some(user) => Ok(user),
        None => Err(TurnError::PersistenceError),
    }
}

impl Assistant {
    /// A fresh session for the given profile: the transcript is empty.
    pub fn new(user: User) -> (a: Assistant)
        ensures
            a.user == user,
            a.conversation_history.deep_view() == Seq::<Seq<char>>::empty(),
    {
        let a = Assistant { user, conversation_history: Vec::new() };
        proof {
            assert(a.conversation_history.deep_view() =~= Seq::<Seq<char>>::empty());
        }
        a
    }

    /// Renders the completion context from the session as it stands.
    pub fn build_context(&self) -> (context: String)
        ensures
            context@ == spec_context(self.user@, self.conversation_history.deep_view()),
    {
        let mut context = String::from_str("Du bist ein persönlicher Assistent für ");
        context.append(self.user.name.as_str());
        context.append(". Ihre Interessen sind: ");
        let interests = join_strings(&self.user.interests, ", ");
        context.append(interests.as_str());
        context.append(". Ihre Ziele sind: ");
        let goals = join_strings(&self.user.goals, ", ");
        context.append(goals.as_str());
        context.append(". \n             Bisheriger Gesprächsverlauf: ");
        let history = join_strings(&self.conversation_history, "\n");
        context.append(history.as_str());
        proof {
            assert(context@ =~= spec_context(self.user@, self.conversation_history.deep_view()));
        }
        context
    }

    /// Opens a message turn: the freshly resolved profile of the sender
    /// replaces the active one, the user's text is appended to the
    /// transcript, and the context for the completion call — built over
    /// the transcript with that text already in it — is handed back.
    pub fn begin_message(&mut self, user: User, text: &str) -> (context: String)
        requires
            text@.len() > 0,
        ensures
            final(self).user == user,
            final(self).conversation_history.deep_view()
                == old(self).conversation_history.deep_view().push(text@),
            context@ == spec_context(user@, final(self).conversation_history.deep_view()),
    {
        self.user = user;
        self.conversation_history.push(String::from_str(text));
        proof {
            assert(self.conversation_history.deep_view()
                =~= old(self).conversation_history.deep_view().push(text@));
        }
        self.build_context()
    }

    /// Closes a message turn from whatever the completion service
    /// returned. A reply is appended to the transcript and handed back
    /// for delivery; a failed call leaves the session exactly as it was
    /// — the user's text, already recorded, stays with no reply beside
    /// it — and the turn fails with a `CompletionError`.
    pub fn finish_message(&mut self, completion: Option<String>) -> (turn: Result<
        String,
        TurnError,
    >)
        ensures
            match completion {
                Some(reply) => {
                    &&& final(self).user == old(self).user
                    &&& final(self).conversation_history.deep_view() == old(
                        self,
                    ).conversation_history.deep_view().push(reply@)
                    &&& turn matches Ok(delivered) && delivered == reply
                },
                None => {
                    &&& *final(self) == *old(self)
                    &&& turn matches Err(e) && e == TurnError::CompletionError
                },
            },
    {
        match completion {
            Some(reply) => {
                self.conversation_history.push(reply.clone());
                proof {
                    assert(self.conversation_history.deep_view()
                        =~= old(self).conversation_history.deep_view().push(reply@));
                }
                Ok(reply)
            },
            None => Err(TurnError::CompletionError),
        }
    }

    /// Applies one administrative command, gated on the allow-listed
    /// identity: any other sender gets the rejection reply and the
    /// session is left untouched. Commands never involve the completion
    /// service; the outcome says whether the profile must be persisted.
    pub fn handle_command(&mut self, sender_id: i64, allowed_id: i64, command: Command) -> (out:
        CommandOutcome)
        ensures
            sender_id != allowed_id ==> ({
                &&& *final(self) == *old(self)
                &&& out.reply@ == spec_unauthorized_text()
                &&& !out.save_user
            }),
            sender_id == allowed_id ==> match command {
                Command::Help => {
                    &&& *final(self) == *old(self)
                    &&& out.reply@ == spec_help_text()
                    &&& !out.save_user
                },
                Command::Start => {
                    &&& final(self).user == old(self).user
                    &&& final(self).conversation_history.deep_view() == Seq::<Seq<char>>::empty()
                    &&& out.reply@ == spec_started_text()
                    &&& !out.save_user
                },
                Command::AddInterest(interest) => {
                    &&& final(self).user@.interests == old(self).user@.interests.push(interest@)
                    &&& final(self).user@.goals == old(self).user@.goals
                    &&& final(self).user.name == old(self).user.name
                    &&& final(self).user.id == old(self).user.id
                    &&& final(self).user.telegram_id == old(self).user.telegram_id
                    &&& final(self).conversation_history == old(self).conversation_history
                    &&& out.reply@ == spec_interest_added_text()
                    &&& out.save_user
                },
                Command::AddGoal(goal) => {
                    &&& final(self).user@.goals == old(self).user@.goals.push(goal@)
                    &&& final(self).user@.interests == old(self).user@.interests
                    &&& final(self).user.name == old(self).user.name
                    &&& final(self).user.id == old(self).user.id
                    &&& final(self).user.telegram_id == old(self).user.telegram_id
                    &&& final(self).conversation_history == old(self).conversation_history
                    &&& out.reply@ == spec_goal_added_text()
                    &&& out.save_user
                },
            },
    {
        if sender_id != allowed_id {
            return CommandOutcome {
                reply: String::from_str("Sie sind nicht berechtigt, diesen Bot zu verwenden."),
                save_user: false,
            };
        }
        match command {
            Command::Help => CommandOutcome {
                reply: String::from_str(
                    "Verfügbare Befehle:\n/help — Zeigt diese Nachricht an.\n/start — Startet ein neues Gespräch.\n/addinterest — Fügt ein neues Interesse hinzu.\n/addgoal — Fügt ein neues Ziel hinzu.",
                ),
                save_user: false,
            },
            Command::Start => {
                self.conversation_history.clear();
                proof {
                    assert(self.conversation_history.deep_view() =~= Seq::<Seq<char>>::empty());
                }
                CommandOutcome {
                    reply: String::from_str("Neues Gespräch gestartet. Wie kann ich Ihnen helfen?"),
                    save_user: false,
                }
            },
            Command::AddInterest(interest) => {
                let ghost added = interest@;
                self.user.interests.push(interest);
                proof {
                    assert(self.user.interests.deep_view()
                        =~= old(self).user.interests.deep_view().push(added));
                }
                CommandOutcome {
                    reply: String::from_str("Interesse hinzugefügt."),
                    save_user: true,
                }
            },
            Command::AddGoal(goal) => {
                let ghost added = goal@;
                self.user.goals.push(goal);
                proof {
                    assert(self.user.goals.deep_view()
                        =~= old(self).user.goals.deep_view().push(added));
                }
                CommandOutcome { reply: String::from_str("Ziel hinzugefügt."), save_user: true }
            },
        }
    }
}

/// What to do with a reply whose final save failed: `FailOpen` delivers
/// it anyway (responsiveness over strict consistency), `FailClosed`
/// withholds it.
#[derive(Clone, Copy, Debug, PartialEq, Eq, Structural)]
pub enum SavePolicy {
    FailOpen,
    FailClosed,
}

/// Decides delivery after the final persistence attempt of a turn.
/// A successful save always delivers the reply. After a failed save,
/// `FailOpen` still delivers it — the conversation goes on with stale
/// durable state — while `FailClosed` fails the turn with a
/// `PersistenceError`.
pub fn deliver_after_save(reply: String, saved: bool, policy: SavePolicy) -> (turn: Result<
    String,
    TurnError,
>)
    ensures
        saved || policy == SavePolicy::FailOpen ==> (turn matches Ok(delivered) && delivered
            == reply),
        !saved && policy == SavePolicy::FailClosed ==> (turn matches Err(e) && e
            == TurnError::PersistenceError),
{
    if saved {
        Ok(reply)
    } else {
        match policy {
            SavePolicy::FailOpen => Ok(reply),
            SavePolicy::FailClosed => Err(TurnError::PersistenceError),
        }
    }
}

/// One successful message turn, seen on the transcript: the user's text,
/// then the reply, appended in that order.
pub open spec fn spec_turn(history: Seq<Seq<char>>, text: Seq<char>, reply: Seq<char>) -> Seq<
    Seq<char>,
> {
    history.push(text).push(reply)
}

/// The transcript left by a whole run of successful turns, oldest first.
pub open spec fn spec_apply_turns(
    history: Seq<Seq<char>>,
    turns: Seq<(Seq<char>, Seq<char>)>,
) -> Seq<Seq<char>>
    decreases turns.len(),
{
    if turns.len() == 0 {
        history
    } else {
        spec_apply_turns(spec_turn(history, turns[0].0, turns[0].1), turns.drop_first())
    }
}

/// Law: each successful turn appends exactly two transcript entries —
/// the user text recorded by `begin_message`, then the reply recorded by
/// `finish_message` — so a run of `n` successful turns grows the
/// transcript by `2 * n` entries, in call order.
pub proof fn lemma_transcript_growth(history: Seq<Seq<char>>, turns: Seq<(Seq<char>, Seq<char>)>)
    ensures
        spec_apply_turns(history, turns).len() == history.len() + 2 * turns.len(),
    decreases turns.len(),
{
    if turns.len() > 0 {
        lemma_transcript_growth(spec_turn(history, turns[0].0, turns[0].1), turns.drop_first());
    }
}

/// Law: the rendered context is a function of the profile and the
/// transcript alone — equal inputs give the identical string.
pub proof fn lemma_context_deterministic(
    user1: UserModel,
    history1: Seq<Seq<char>>,
    user2: UserModel,
    history2: Seq<Seq<char>>,
)
    requires
        user1 == user2,
        history1 == history2,
    ensures
        spec_context(user1, history1) == spec_context(user2, history2),
{
}

/// Law (failure isolation): every transcript entry — in particular a
/// user message whose completion call failed, which
/// [`Assistant::finish_message`] leaves in place unanswered — occurs
/// verbatim in every context later built over that transcript.
pub proof fn lemma_context_retains_messages(user: UserModel, history: Seq<Seq<char>>, i: int)
    requires
        0 <= i < history.len(),
    ensures
        contains_subrange(spec_context(user, history), history[i]),
{
    lemma_join_contains_part(history, "\n"@, i);
    let joined = spec_join(history, "\n"@);
    let entry = history[i];
    let j = choose|j: int|
        0 <= j && j + entry.len() <= joined.len() && #[trigger] joined.subrange(
            j,
            j + entry.len(),
        ) == entry;
    let context = spec_context(user, history);
    let offset = context.len() - joined.len();
    assert(context.subrange(offset + j, offset + j + entry.len()) =~= entry);
    assert(contains_subrange(context, entry));
}

} // verus!
