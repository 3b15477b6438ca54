use vstd::prelude::*;
use vstd::string::StringExecFns;
use crate::flarum::Discussion;
use crate::flarum::DiscussionModel;
use crate::flarum::DiscussionData;
use crate::flarum::DiscussionDataModel;
use crate::flarum::ForumError;
use crate::flarum::ForumErrorModel;
use crate::flarum::Post;
use crate::flarum::PostModel;
use crate::llm::LlmError;
use crate::llm::LlmErrorModel;

verus! {

/// A failure of either outside collaborator of one invocation.
pub enum RunError {
    Llm(LlmError),
    Forum(ForumError),
}

pub enum RunErrorModel {
    Llm(LlmErrorModel),
    Forum(ForumErrorModel),
}

impl View for RunError {
    type V = RunErrorModel;

    open spec fn view(&self) -> RunErrorModel {
        match self {
            RunError::Llm(e) => RunErrorModel::Llm(e@),
            RunError::Forum(e) => RunErrorModel::Forum(e@),
        }
    }
}

/// Where one invocation stands: each non-terminal step names the single
/// outside call to make next, carrying everything that call needs.
pub enum Step {
    /// Roll the weighted coin that chooses between replying and
    /// creating a new topic.
    RollCoin,
    /// Ask the forum for a random open discussion.
    Discover,
    /// Ask the generator for a new topic's title.
    GenTitle,
    /// Ask the generator for the new topic's body.
    GenBody { title: String },
    /// Create the discussion with both generated texts in hand.
    CreateDiscussion { title: String, body: String },
    /// Fetch the chosen discussion's recent posts.
    FetchDetail { discussion_id: i32 },
    /// Ask the generator for a reply to the fetched history.
    GenReply { discussion_id: i32, title: String, history: String },
    /// Append the generated reply to the discussion.
    WritePost { discussion_id: i32, content: String },
    /// The invocation succeeded.
    Done,
    /// The invocation failed; the first error encountered is kept.
    Failed { error: RunError },
}

pub enum StepModel {
    RollCoin,
    Discover,
    GenTitle,
    GenBody { title: Seq<char> },
    CreateDiscussion { title: Seq<char>, body: Seq<char> },
    FetchDetail { discussion_id: i32 },
    GenReply { discussion_id: i32, title: Seq<char>, history: Seq<char> },
    WritePost { discussion_id: i32, content: Seq<char> },
    Done,
    Failed { error: RunErrorModel },
}

impl View for Step {
    type V = StepModel;

    open spec fn view(&self) -> StepModel {
        match self {
            Step::RollCoin => StepModel::RollCoin,
            Step::Discover => StepModel::Discover,
            Step::GenTitle => StepModel::GenTitle,
            Step::GenBody { title } => StepModel::GenBody { title: title@ },
            Step::CreateDiscussion { title, body } => StepModel::CreateDiscussion {
                title: title@,
                body: body@,
            },
            Step::FetchDetail { discussion_id } => StepModel::FetchDetail {
                discussion_id: *discussion_id,
            },
            Step::GenReply { discussion_id, title, history } => StepModel::GenReply {
                discussion_id: *discussion_id,
                title: title@,
                history: history@,
            },
            Step::WritePost { discussion_id, content } => StepModel::WritePost {
                discussion_id: *discussion_id,
                content: content@,
            },
            Step::Done => StepModel::Done,
            Step::Failed { error } => StepModel::Failed { error: error@ },
        }
    }
}

/// What the outside call of the current step handed back.
pub enum Event {
    Rolled { create: bool },
    Candidate { found: Option<Discussion> },
    Generated { text: String },
    Fetched { detail: DiscussionData },
    Written,
    CallFailed { error: RunError },
}

pub enum EventModel {
    Rolled { create: bool },
    Candidate { found: Option<DiscussionModel> },
    Generated { text: Seq<char> },
    Fetched { detail: DiscussionDataModel },
    Written,
    CallFailed { error: RunErrorModel },
}

impl View for Event {
    type V = EventModel;

    open spec fn view(&self) -> EventModel {
        match self {
            Event::Rolled { create } => EventModel::Rolled { create: *create },
            Event::Candidate { found } => EventModel::Candidate {
                found: match found {
                    Some(d) => Some(d@),
                    None => None,
                },
            },
            Event::Generated { text } => EventModel::Generated { text: text@ },
            Event::Fetched { detail } => EventModel::Fetched { detail: detail@ },
            Event::Written => EventModel::Written,
            Event::CallFailed { error } => EventModel::CallFailed { error: error@ },
        }
    }
}

/// The fetched posts joined into one history blob, oldest first, with a
/// blank line between neighbours.
pub open spec fn spec_join_history(posts: Seq<PostModel>) -> Seq<char>
    decreases posts.len(),
{
    if posts.len() == 0 {
        Seq::empty()
    } else if posts.len() == 1 {
        posts[0].content
    } else {
        spec_join_history(posts.drop_last()) + "\n\n"@ + posts.last().content
    }
}

/// Joins the fetched posts into one history blob, as
/// `spec_join_history` describes.
pub fn join_history(posts: &Vec<Post>) -> (r: String)
    ensures
        r@ == spec_join_history(posts.deep_view()),
{
    let mut out = String::new();
    let n = posts.len();
    let mut i: usize = 0;
    while i < n
        invariant
            i <= n,
            n == posts.len(),
            out@ =~= spec_join_history(posts.deep_view().take(i as int)),
        decreases n - i,
    {
        if i > 0 {
            out.append("\n\n");
        }
        out.append(posts[i].content.as_str());
        assert(out@ =~= spec_join_history(posts.deep_view().take(i + 1))) by {
            assert(posts.deep_view().take(i + 1).drop_last() =~= posts.deep_view().take(i as int));
            assert(posts.deep_view().take(i + 1).last() == posts.deep_view()[i as int]);
        }
        i = i + 1;
    }
    assert(posts.deep_view().take(n as int) =~= posts.deep_view());
    out
}

/// The step an invocation enters at: straight to the create-new branch
/// when creation is forced, straight to the fetch of an explicitly
/// chosen discussion, and the coin roll otherwise.
pub open spec fn spec_initial_step(create_new_topic: bool, discussion_id: Option<i32>) -> StepModel {
    if create_new_topic {
        StepModel::GenTitle
    } else {
        match discussion_id {
            Some(id) => StepModel::FetchDetail { discussion_id: id },
            None => StepModel::RollCoin,
        }
    }
}

pub fn initial_step(create_new_topic: bool, discussion_id: Option<i32>) -> (r: Step)
    ensures
        r@ == spec_initial_step(create_new_topic, discussion_id),
{
    if create_new_topic {
        Step::GenTitle
    } else {
        match discussion_id {
            Some(id) => Step::FetchDetail { discussion_id: id },
            None => Step::RollCoin,
        }
    }
}

/// The step that follows the current one once its outside call came
/// back: the two terminal steps absorb everything, any failure is
/// terminal at once, the coin and the discovery choose between the two
/// branches — an empty discovery falls back to the create-new branch —
/// and each branch advances through its generation steps to its single
/// write. An event that does not belong to the current step changes
/// nothing.
pub open spec fn spec_next_step(s: StepModel, e: EventModel) -> StepModel {
    match s {
        StepModel::Done => StepModel::Done,
        StepModel::Failed { error } => StepModel::Failed { error },
        _ => match e {
            EventModel::CallFailed { error } => StepModel::Failed { error },
            _ => match (s, e) {
                (StepModel::RollCoin, EventModel::Rolled { create }) => if create {
                    StepModel::GenTitle
                } else {
                    StepModel::Discover
                },
                (StepModel::Discover, EventModel::Candidate { found }) => match found {
                    None => StepModel::GenTitle,
                    Some(d) => StepModel::FetchDetail { discussion_id: d.id },
                },
                (StepModel::GenTitle, EventModel::Generated { text }) => StepModel::GenBody {
                    title: text,
                },
                (
                    StepModel::GenBody { title },
                    EventModel::Generated { text },
                ) => StepModel::CreateDiscussion { title, body: text },
                (StepModel::CreateDiscussion { .. }, EventModel::Written) => StepModel::Done,
                (
                    StepModel::FetchDetail { discussion_id },
                    EventModel::Fetched { detail },
                ) => StepModel::GenReply {
                    discussion_id,
                    title: detail.title,
                    history: spec_join_history(detail.recent_posts),
                },
                (
                    StepModel::GenReply { discussion_id, .. },
                    EventModel::Generated { text },
                ) => StepModel::WritePost { discussion_id, content: text },
                (StepModel::WritePost { .. }, EventModel::Written) => StepModel::Done,
                (s2, _) => s2,
            },
        },
    }
}

/// Advances the invocation by one outside call's outcome, as
/// `spec_next_step` describes.
pub fn next_step(s: Step, e: Event) -> (r: Step)
    ensures
        r@ == spec_next_step(s@, e@),
{
    match s {
        Step::Done => Step::Done,
        Step::Failed { error } => Step::Failed { error },
        s2 => match e {
            Event::CallFailed { error } => Step::Failed { error },
            e2 => match (s2, e2) {
                (Step::RollCoin, Event::Rolled { create }) => if create {
                    Step::GenTitle
                } else {
                    Step::Discover
                },
                (Step::Discover, Event::Candidate { found }) => match found {
                    None => Step::GenTitle,
                    Some(d) => Step::FetchDetail { discussion_id: d.id },
                },
                (Step::GenTitle, Event::Generated { text }) => Step::GenBody { title: text },
                (Step::GenBody { title }, Event::Generated { text }) => Step::CreateDiscussion {
                    title,
                    body: text,
                },
                (Step::CreateDiscussion { .. }, Event::Written) => Step::Done,
                (Step::FetchDetail { discussion_id }, Event::Fetched { detail }) => {
                    let history = join_history(&detail.recent_posts);
                    Step::GenReply { discussion_id, title: detail.title, history }
                },
                (
                    Step::GenReply { discussion_id, .. },
                    Event::Generated { text },
                ) => Step::WritePost { discussion_id, content: text },
                (Step::WritePost { .. }, Event::Written) => Step::Done,
                (s3, _) => s3,
            },
        },
    }
}

/// The steps an invocation passes through from the given one, one per
/// event the outside calls hand back.
pub open spec fn run_steps(s: StepModel, events: Seq<EventModel>) -> Seq<StepModel>
    decreases events.len(),
{
    if events.len() == 0 {
        Seq::empty()
    } else {
        let s1 = spec_next_step(s, events.first());
        seq![s1] + run_steps(s1, events.drop_first())
    }
}

/// An invocation passes through exactly one step per event.
pub proof fn lemma_run_steps_len(s: StepModel, events: Seq<EventModel>)
    ensures
        run_steps(s, events).len() == events.len(),
    decreases events.len(),
{
    if events.len() > 0 {
        lemma_run_steps_len(spec_next_step(s, events.first()), events.drop_first());
    }
}

/// The step belongs to the create-new branch or is terminal: it is
/// neither the discovery step nor either step of the reply branch.
pub open spec fn in_create_branch(s: StepModel) -> bool {
    s is GenTitle || s is GenBody || s is CreateDiscussion || s is Done || s is Failed
}

proof fn lemma_create_branch_step(s: StepModel, e: EventModel)
    requires
        in_create_branch(s),
    ensures
        in_create_branch(spec_next_step(s, e)),
{
}

/// Once the invocation stands in the create-new branch it stays there,
/// whatever the outside calls hand back: no later step discovers a
/// discussion, builds a reply, or writes a post to an existing
/// discussion.
pub proof fn lemma_create_branch_closed(s: StepModel, events: Seq<EventModel>)
    requires
        in_create_branch(s),
    ensures
        forall|i: int|
            0 <= i < events.len() ==> in_create_branch(#[trigger] run_steps(s, events)[i]),
    decreases events.len(),
{
    if events.len() > 0 {
        let s1 = spec_next_step(s, events.first());
        lemma_create_branch_step(s, events.first());
        lemma_create_branch_closed(s1, events.drop_first());
        lemma_run_steps_len(s1, events.drop_first());
        assert forall|i: int|
            0 <= i < events.len() implies in_create_branch(#[trigger] run_steps(s, events)[i]) by {
            if i > 0 {
                assert(run_steps(s, events)[i] == run_steps(s1, events.drop_first())[i - 1]);
            }
        }
    }
}

/// A roll that forces "create" moves straight to the title step, and
/// from there discovery is never invoked and the reply prompt's step is
/// never reached, whatever the outside calls hand back.
pub proof fn lemma_forced_create_skips_discovery(events: Seq<EventModel>)
    ensures
        spec_next_step(StepModel::RollCoin, EventModel::Rolled { create: true })
            == StepModel::GenTitle,
        forall|i: int|
            0 <= i < events.len() ==> {
                let t = #[trigger] run_steps(StepModel::GenTitle, events)[i];
                !(t is Discover) && !(t is FetchDetail) && !(t is GenReply) && !(t is WritePost)
            },
{
    lemma_create_branch_closed(StepModel::GenTitle, events);
}

/// The silent fallback: a "reply" roll whose discovery finds no
/// candidate moves to the create-new branch, so every later generation
/// step asks for the new-topic prompts and the reply prompt's step is
/// never reached.
pub proof fn lemma_empty_candidate_falls_back(events: Seq<EventModel>)
    ensures
        spec_next_step(StepModel::Discover, EventModel::Candidate { found: None })
            == StepModel::GenTitle,
        forall|i: int|
            0 <= i < events.len() ==> {
                let t = #[trigger] run_steps(StepModel::GenTitle, events)[i];
                !(t is Discover) && !(t is FetchDetail) && !(t is GenReply) && !(t is WritePost)
            },
{
    lemma_create_branch_closed(StepModel::GenTitle, events);
}

/// A failure is terminal: every step after a failed one is that same
/// failed step, so no further outside call is acted on — in particular,
/// a generation failure before a creation or a write means that
/// creation or write is never reached.
pub proof fn lemma_failed_is_terminal(error: RunErrorModel, events: Seq<EventModel>)
    ensures
        forall|i: int|
            0 <= i < events.len() ==> #[trigger] run_steps(
                StepModel::Failed { error },
                events,
            )[i] == (StepModel::Failed { error }),
    decreases events.len(),
{
    if events.len() > 0 {
        let s = StepModel::Failed { error };
        lemma_failed_is_terminal(error, events.drop_first());
        lemma_run_steps_len(s, events.drop_first());
        assert forall|i: int|
            0 <= i < events.len() implies #[trigger] run_steps(s, events)[i] == (StepModel::Failed {
            error,
        }) by {
            if i > 0 {
                assert(run_steps(s, events)[i] == run_steps(s, events.drop_first())[i - 1]);
            }
        }
    }
}

} // verus!
