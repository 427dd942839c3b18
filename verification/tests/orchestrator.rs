use assistant::session::{
    deliver_after_save, reply_or_fallback, resolve_profile, Assistant, Command, SavePolicy,
    TurnError,
};
use assistant::user::User;

fn eva() -> User {
    User {
        id: 1,
        telegram_id: 42,
        name: "Eva".to_string(),
        interests: Vec::new(),
        goals: Vec::new(),
    }
}

#[test]
fn first_message_scenario() {
    // Sender "Eva" (externalId 42) with empty interests, goals and
    // transcript sends "Hallo"; the completion service answers.
    let mut a = Assistant::new(User::default());
    let context = a.begin_message(eva(), "Hallo");
    assert_eq!(
        context,
        "Du bist ein persönlicher Assistent für Eva. Ihre Interessen sind: . Ihre Ziele sind: . \n             Bisheriger Gesprächsverlauf: Hallo"
    );
    let turn = a.finish_message(Some("Hallo Eva!".to_string()));
    assert_eq!(turn, Ok("Hallo Eva!".to_string()));
    assert_eq!(
        a.conversation_history,
        vec!["Hallo".to_string(), "Hallo Eva!".to_string()]
    );
    assert_eq!(a.user.telegram_id, 42);
    assert!(a.user.interests.is_empty());
    assert!(a.user.goals.is_empty());
}

#[test]
fn transcript_grows_by_two_per_successful_turn() {
    let mut a = Assistant::new(eva());
    assert_eq!(a.conversation_history.len(), 0);
    a.begin_message(eva(), "Erste Frage");
    a.finish_message(Some("Erste Antwort".to_string())).unwrap();
    assert_eq!(a.conversation_history.len(), 2);
    a.begin_message(eva(), "Zweite Frage");
    a.finish_message(Some("Zweite Antwort".to_string())).unwrap();
    assert_eq!(a.conversation_history.len(), 4);
    assert_eq!(
        a.conversation_history,
        vec![
            "Erste Frage".to_string(),
            "Erste Antwort".to_string(),
            "Zweite Frage".to_string(),
            "Zweite Antwort".to_string(),
        ]
    );
}

#[test]
fn build_context_is_deterministic() {
    let user = User {
        id: 7,
        telegram_id: 9,
        name: "Mia".to_string(),
        interests: vec!["Musik".to_string(), "Kunst".to_string()],
        goals: vec!["Lernen".to_string()],
    };
    let mut a = Assistant::new(user);
    a.finish_message(Some("Gern.".to_string())).unwrap();
    let first = a.build_context();
    let second = a.build_context();
    assert_eq!(first, second);
    assert_eq!(
        first,
        "Du bist ein persönlicher Assistent für Mia. Ihre Interessen sind: Musik, Kunst. Ihre Ziele sind: Lernen. \n             Bisheriger Gesprächsverlauf: Gern."
    );
}

#[test]
fn completion_failure_keeps_user_message_and_reports_error() {
    let mut a = Assistant::new(eva());
    a.begin_message(eva(), "Hallo");
    let turn = a.finish_message(None);
    assert_eq!(turn, Err(TurnError::CompletionError));
    assert_eq!(a.conversation_history, vec!["Hallo".to_string()]);

    // The unanswered message still reaches the next turn's context.
    let context = a.begin_message(eva(), "Noch da?");
    assert!(context.contains("Hallo"));
    assert!(context.contains("Hallo\nNoch da?"));
    let turn = a.finish_message(Some("Ja!".to_string()));
    assert_eq!(turn, Ok("Ja!".to_string()));
    assert_eq!(
        a.conversation_history,
        vec!["Hallo".to_string(), "Noch da?".to_string(), "Ja!".to_string()]
    );
}

#[test]
fn unauthorized_sender_changes_nothing() {
    let mut a = Assistant::new(eva());
    a.begin_message(eva(), "Hallo");
    a.finish_message(Some("Hallo Eva!".to_string())).unwrap();
    let before_history = a.conversation_history.clone();
    let commands = [
        Command::Help,
        Command::Start,
        Command::AddInterest("Musik".to_string()),
        Command::AddGoal("Lernen".to_string()),
    ];
    for command in commands {
        let out = a.handle_command(99, 42, command);
        assert_eq!(out.reply, "Sie sind nicht berechtigt, diesen Bot zu verwenden.");
        assert!(!out.save_user);
        assert_eq!(a.conversation_history, before_history);
        assert!(a.user.interests.is_empty());
        assert!(a.user.goals.is_empty());
        assert_eq!(a.user.name, "Eva");
    }
}

#[test]
fn start_command_clears_transcript_only() {
    let mut a = Assistant::new(eva());
    a.begin_message(eva(), "Hallo");
    a.finish_message(Some("Hallo Eva!".to_string())).unwrap();
    assert_eq!(a.conversation_history.len(), 2);
    let out = a.handle_command(42, 42, Command::Start);
    assert_eq!(out.reply, "Neues Gespräch gestartet. Wie kann ich Ihnen helfen?");
    assert!(!out.save_user);
    assert_eq!(a.conversation_history.len(), 0);
    assert_eq!(a.user.name, "Eva");
    assert_eq!(a.user.telegram_id, 42);
}

#[test]
fn add_interest_appends_and_asks_for_save() {
    let mut a = Assistant::new(eva());
    let out = a.handle_command(42, 42, Command::AddInterest("Musik".to_string()));
    assert_eq!(out.reply, "Interesse hinzugefügt.");
    assert!(out.save_user);
    assert_eq!(a.user.interests, vec!["Musik".to_string()]);
    assert!(a.user.goals.is_empty());
    assert_eq!(a.conversation_history.len(), 0);
}

#[test]
fn add_goal_appends_and_asks_for_save() {
    let mut a = Assistant::new(eva());
    let out = a.handle_command(42, 42, Command::AddGoal("Mehr lesen".to_string()));
    assert_eq!(out.reply, "Ziel hinzugefügt.");
    assert!(out.save_user);
    assert_eq!(a.user.goals, vec!["Mehr lesen".to_string()]);
    assert!(a.user.interests.is_empty());
}

#[test]
fn help_lists_the_commands() {
    let mut a = Assistant::new(eva());
    let out = a.handle_command(42, 42, Command::Help);
    assert!(!out.save_user);
    assert!(out.reply.starts_with("Verfügbare Befehle:"));
    assert!(out.reply.contains("/help"));
    assert!(out.reply.contains("/start"));
    assert!(out.reply.contains("/addinterest"));
    assert!(out.reply.contains("/addgoal"));
}

#[test]
fn failed_resolution_is_a_persistence_error() {
    assert!(matches!(
        resolve_profile(None),
        Err(TurnError::PersistenceError)
    ));
    let resolved = resolve_profile(Some(eva())).unwrap();
    assert_eq!(resolved.telegram_id, 42);
    assert_eq!(resolved.name, "Eva");
}

#[test]
fn missing_completion_text_gets_the_fixed_apology() {
    assert_eq!(
        reply_or_fallback(None),
        "Entschuldigung, ich konnte keine Antwort generieren."
    );
    assert_eq!(
        reply_or_fallback(Some("Hallo!".to_string())),
        "Hallo!"
    );
}

#[test]
fn fail_open_is_the_default_save_policy() {
    // The deployed shell runs fail-open: the reply is delivered even
    // when the final save failed, and a successful save always delivers.
    let delivered = deliver_after_save("Antwort".to_string(), false, SavePolicy::FailOpen);
    assert_eq!(delivered, Ok("Antwort".to_string()));
    let delivered = deliver_after_save("Antwort".to_string(), true, SavePolicy::FailClosed);
    assert_eq!(delivered, Ok("Antwort".to_string()));
}

#[test]
fn fail_closed_withholds_reply_on_save_failure() {
    let delivered = deliver_after_save("Antwort".to_string(), false, SavePolicy::FailClosed);
    assert_eq!(delivered, Err(TurnError::PersistenceError));
}

#[test]
fn context_joins_interests_goals_and_transcript() {
    let user = User {
        id: 3,
        telegram_id: 5,
        name: "Kim".to_string(),
        interests: vec!["Radfahren".to_string()],
        goals: vec!["Sprachen".to_string(), "Reisen".to_string()],
    };
    let mut a = Assistant::new(user.clone());
    a.begin_message(user, "Guten Tag");
    a.finish_message(Some("Guten Tag, Kim.".to_string())).unwrap();
    let context = a.build_context();
    assert_eq!(
        context,
        "Du bist ein persönlicher Assistent für Kim. Ihre Interessen sind: Radfahren. Ihre Ziele sind: Sprachen, Reisen. \n             Bisheriger Gesprächsverlauf: Guten Tag\nGuten Tag, Kim."
    );
}
