use forum_persona::dice_roll::dice_roll;
use forum_persona::flarum::Discussion;
use forum_persona::flarum::DiscussionData;
use forum_persona::flarum::Post;
use forum_persona::llm::LlmError;
use forum_persona::orchestrator::initial_step;
use forum_persona::orchestrator::join_history;
use forum_persona::orchestrator::next_step;
use forum_persona::orchestrator::Event;
use forum_persona::orchestrator::RunError;
use forum_persona::orchestrator::Step;

#[test]
fn forced_create_roll_goes_straight_to_title() {
    let s = next_step(Step::RollCoin, Event::Rolled { create: true });
    assert!(matches!(s, Step::GenTitle));
}

#[test]
fn reply_roll_goes_to_discovery() {
    let s = next_step(Step::RollCoin, Event::Rolled { create: false });
    assert!(matches!(s, Step::Discover));
}

#[test]
fn empty_candidate_list_falls_back_to_create_new() {
    let s = next_step(Step::RollCoin, Event::Rolled { create: false });
    let s = next_step(s, Event::Candidate { found: None });
    assert!(matches!(s, Step::GenTitle));
    let s = next_step(s, Event::Generated { text: "A title".to_string() });
    match &s {
        Step::GenBody { title } => assert_eq!(title, "A title"),
        _ => panic!("expected the new-topic body step"),
    }
    let s = next_step(s, Event::Generated { text: "A body".to_string() });
    match &s {
        Step::CreateDiscussion { title, body } => {
            assert_eq!(title, "A title");
            assert_eq!(body, "A body");
        }
        _ => panic!("expected the creation step"),
    }
    let s = next_step(s, Event::Written);
    assert!(matches!(s, Step::Done));
}

#[test]
fn found_candidate_moves_to_fetch() {
    let d = Discussion { id: 42, title: "T".to_string() };
    let s = next_step(Step::Discover, Event::Candidate { found: Some(d) });
    match s {
        Step::FetchDetail { discussion_id } => assert_eq!(discussion_id, 42),
        _ => panic!("expected the fetch step"),
    }
}

#[test]
fn reply_branch_runs_to_completion() {
    let s = initial_step(false, Some(5));
    match &s {
        Step::FetchDetail { discussion_id } => assert_eq!(*discussion_id, 5),
        _ => panic!("expected the fetch step"),
    }
    let detail = DiscussionData {
        title: "T".to_string(),
        recent_posts: vec![
            Post { content: "a".to_string() },
            Post { content: "b".to_string() },
        ],
    };
    let s = next_step(s, Event::Fetched { detail });
    match &s {
        Step::GenReply { discussion_id, title, history } => {
            assert_eq!(*discussion_id, 5);
            assert_eq!(title, "T");
            assert_eq!(history, "a\n\nb");
        }
        _ => panic!("expected the reply-generation step"),
    }
    let s = next_step(s, Event::Generated { text: "the reply".to_string() });
    match &s {
        Step::WritePost { discussion_id, content } => {
            assert_eq!(*discussion_id, 5);
            assert_eq!(content, "the reply");
        }
        _ => panic!("expected the write step"),
    }
    let s = next_step(s, Event::Written);
    assert!(matches!(s, Step::Done));
}

#[test]
fn body_generation_failure_never_reaches_creation() {
    let s = next_step(Step::GenTitle, Event::Generated { text: "t".to_string() });
    let s = next_step(s, Event::CallFailed { error: RunError::Llm(LlmError::MissingContent) });
    assert!(matches!(s, Step::Failed { .. }));
    let s = next_step(s, Event::Written);
    assert!(matches!(s, Step::Failed { .. }));
}

#[test]
fn initial_step_honours_the_explicit_modes() {
    assert!(matches!(initial_step(true, None), Step::GenTitle));
    assert!(matches!(initial_step(true, Some(3)), Step::GenTitle));
    assert!(matches!(initial_step(false, None), Step::RollCoin));
}

#[test]
fn join_history_interleaves_blank_lines() {
    assert_eq!(join_history(&vec![]), "");
    assert_eq!(join_history(&vec![Post { content: "a".to_string() }]), "a");
    assert_eq!(
        join_history(&vec![
            Post { content: "a".to_string() },
            Post { content: "b".to_string() },
            Post { content: "c".to_string() },
        ]),
        "a\n\nb\n\nc"
    );
}

#[test]
fn mismatched_event_changes_nothing() {
    let s = next_step(Step::Discover, Event::Written);
    assert!(matches!(s, Step::Discover));
    let s = next_step(Step::Done, Event::Generated { text: "x".to_string() });
    assert!(matches!(s, Step::Done));
}

#[test]
fn dice_roll_is_determined_at_the_extremes() {
    assert!(dice_roll(100));
    assert!(dice_roll(150));
    assert!(!dice_roll(0));
    assert!(!dice_roll(-5));
}
