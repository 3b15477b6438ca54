use vstd::prelude::*;
use vstd::seq_lib::*;
use vstd::string::StringExecFns;
use crate::numbers::parse_i32;
use crate::numbers::spec_parse_i32;
use crate::numbers::spec_i32_digits;
use crate::numbers::i32_to_string;
use crate::dice_roll::random_below;

verus! {

broadcast use vstd::seq_lib::group_to_multiset_ensures;

// ---------------------------------------------------------------------------
// Forum-side data as the caller sees it
// ---------------------------------------------------------------------------

/// One forum thread as seen in a listing.
pub struct Discussion {
    pub id: i32,
    pub title: String,
}

pub struct DiscussionModel {
    pub id: i32,
    pub title: Seq<char>,
}

impl View for Discussion {
    type V = DiscussionModel;

    open spec fn view(&self) -> DiscussionModel {
        DiscussionModel { id: self.id, title: self.title@ }
    }
}

impl DeepView for Discussion {
    type V = DiscussionModel;

    open spec fn deep_view(&self) -> DiscussionModel {
        self.view()
    }
}

/// One forum post, its body already converted away from HTML.
pub struct Post {
    pub content: String,
}

pub struct PostModel {
    pub content: Seq<char>,
}

impl View for Post {
    type V = PostModel;

    open spec fn view(&self) -> PostModel {
        PostModel { content: self.content@ }
    }
}

impl DeepView for Post {
    type V = PostModel;

    open spec fn deep_view(&self) -> PostModel {
        self.view()
    }
}

/// The fetched state of one discussion: its title and its posts,
/// oldest first.
pub struct DiscussionData {
    pub title: String,
    pub recent_posts: Vec<Post>,
}

pub struct DiscussionDataModel {
    pub title: Seq<char>,
    pub recent_posts: Seq<PostModel>,
}

impl View for DiscussionData {
    type V = DiscussionDataModel;

    open spec fn view(&self) -> DiscussionDataModel {
        DiscussionDataModel { title: self.title@, recent_posts: self.recent_posts.deep_view() }
    }
}

// ---------------------------------------------------------------------------
// Errors
// ---------------------------------------------------------------------------

/// The forum operation during which a failure arose.
#[derive(Clone, Copy, PartialEq, Eq, Structural, Debug)]
pub enum ForumOperation {
    ListDiscussions,
    FetchDiscussion,
    CreateDiscussion,
    WritePost,
}

/// A failed forum round-trip: either the transport or the remote side
/// failed, or the response did not have the expected shape.
#[derive(Debug)]
pub enum ForumError {
    RemoteCallFailed { operation: ForumOperation, cause: String },
    MalformedResponse { operation: ForumOperation },
}

pub enum ForumErrorModel {
    RemoteCallFailed { operation: ForumOperation, cause: Seq<char> },
    MalformedResponse { operation: ForumOperation },
}

impl View for ForumError {
    type V = ForumErrorModel;

    open spec fn view(&self) -> ForumErrorModel {
        match self {
            ForumError::RemoteCallFailed { operation, cause } => ForumErrorModel::RemoteCallFailed {
                operation: *operation,
                cause: cause@,
            },
            ForumError::MalformedResponse { operation } => ForumErrorModel::MalformedResponse {
                operation: *operation,
            },
        }
    }
}

// ---------------------------------------------------------------------------
// Raw listing input, as decoded from the listing response
// ---------------------------------------------------------------------------

/// One entry of the forum's discussion listing, with every field as the
/// response carried it: absent fields stay absent, and identifiers stay
/// the decimal text the wire format uses.
pub struct ListingEntry {
    pub id: Option<String>,
    pub title: Option<String>,
    pub last_posted_user: Option<String>,
    pub is_locked: Option<bool>,
    pub is_sticky: Option<bool>,
    pub is_hidden: Option<bool>,
    pub can_reply: Option<bool>,
}

pub struct ListingEntryModel {
    pub id: Option<Seq<char>>,
    pub title: Option<Seq<char>>,
    pub last_posted_user: Option<Seq<char>>,
    pub is_locked: Option<bool>,
    pub is_sticky: Option<bool>,
    pub is_hidden: Option<bool>,
    pub can_reply: Option<bool>,
}

pub open spec fn text_view(s: Option<String>) -> Option<Seq<char>> {
    match s {
        Some(t) => Some(t@),
        None => None,
    }
}

impl View for ListingEntry {
    type V = ListingEntryModel;

    open spec fn view(&self) -> ListingEntryModel {
        ListingEntryModel {
            id: text_view(self.id),
            title: text_view(self.title),
            last_posted_user: text_view(self.last_posted_user),
            is_locked: self.is_locked,
            is_sticky: self.is_sticky,
            is_hidden: self.is_hidden,
            can_reply: self.can_reply,
        }
    }
}

impl DeepView for ListingEntry {
    type V = ListingEntryModel;

    open spec fn deep_view(&self) -> ListingEntryModel {
        self.view()
    }
}

/// The decoded body of a listing response; `data` is absent when the
/// response held no listing array at all.
pub struct ListingPayload {
    pub data: Option<Vec<ListingEntry>>,
}

// ---------------------------------------------------------------------------
// The listing filter
// ---------------------------------------------------------------------------

/// The user identifier a piece of wire text denotes, if any.
pub open spec fn parsed_id(s: Option<Seq<char>>) -> Option<i32> {
    match s {
        Some(t) => spec_parse_i32(t),
        None => None,
    }
}

/// The listing entry survives the filter for the given acting persona:
/// its last poster is not that persona, it is not flagged locked, sticky
/// or hidden, it is open to replies, and it carries a usable id and a
/// title.
pub open spec fn entry_kept(e: ListingEntryModel, user_id: i32) -> bool {
    &&& parsed_id(e.last_posted_user) != Some(user_id)
    &&& e.is_locked != Some(true)
    &&& e.is_sticky != Some(true)
    &&& e.is_hidden != Some(true)
    &&& e.can_reply != Some(false)
    &&& parsed_id(e.id) is Some
    &&& e.title is Some
}

/// The discussion a kept listing entry describes.
pub open spec fn discussion_of(e: ListingEntryModel) -> DiscussionModel {
    DiscussionModel { id: parsed_id(e.id)->0, title: e.title->0 }
}

/// The discussions of a listing that are open for the given acting
/// persona, in listing order.
pub open spec fn open_discussions_of(entries: Seq<ListingEntryModel>, user_id: i32) -> Seq<
    DiscussionModel,
>
    decreases entries.len(),
{
    if entries.len() == 0 {
        Seq::empty()
    } else {
        let rest = open_discussions_of(entries.drop_last(), user_id);
        if entry_kept(entries.last(), user_id) {
            rest.push(discussion_of(entries.last()))
        } else {
            rest
        }
    }
}

/// The discussion comes from a listing entry that survives the filter
/// for the acting persona.
pub open spec fn comes_from_kept_entry(
    entries: Seq<ListingEntryModel>,
    user_id: i32,
    d: DiscussionModel,
) -> bool {
    exists|j: int|
        0 <= j < entries.len() && entry_kept(#[trigger] entries[j], user_id) && d == discussion_of(
            entries[j],
        )
}

/// Every discussion of a filtered listing comes from an entry that
/// survives the filter: its last poster differs from the acting persona,
/// none of the locked, sticky or hidden flags is set, and it accepts
/// replies.
pub proof fn lemma_open_discussions_are_open(entries: Seq<ListingEntryModel>, user_id: i32)
    ensures
        forall|i: int|
            0 <= i < open_discussions_of(entries, user_id).len() ==> comes_from_kept_entry(
                entries,
                user_id,
                #[trigger] open_discussions_of(entries, user_id)[i],
            ),
    decreases entries.len(),
{
    if entries.len() > 0 {
        lemma_open_discussions_are_open(entries.drop_last(), user_id);
        let rest = open_discussions_of(entries.drop_last(), user_id);
        assert forall|i: int|
            0 <= i < open_discussions_of(entries, user_id).len() implies comes_from_kept_entry(
            entries,
            user_id,
            #[trigger] open_discussions_of(entries, user_id)[i],
        ) by {
            if i < rest.len() {
                let j = choose|j: int|
                    0 <= j < entries.drop_last().len() && entry_kept(
                        #[trigger] entries.drop_last()[j],
                        user_id,
                    ) && rest[i] == discussion_of(entries.drop_last()[j]);
                assert(entries[j] == entries.drop_last()[j]);
                assert(entry_kept(entries[j], user_id) && open_discussions_of(entries, user_id)[i]
                    == discussion_of(entries[j]));
            } else {
                let j = entries.len() - 1;
                assert(entry_kept(entries[j], user_id) && open_discussions_of(entries, user_id)[i]
                    == discussion_of(entries[j]));
            }
        }
    }
}

/// Whether the entry survives the filter for the acting persona, as
/// `entry_kept` describes.
pub fn entry_is_kept(e: &ListingEntry, user_id: i32) -> (b: bool)
    ensures
        b == entry_kept(e@, user_id),
{
    let last_poster: Option<i32> = match &e.last_posted_user {
        Some(s) => parse_i32(s.as_str()),
        None => None,
    };
    if let Some(u) = last_poster {
        if u == user_id {
            return false;
        }
    }
    if let Some(true) = e.is_locked {
        return false;
    }
    if let Some(true) = e.is_sticky {
        return false;
    }
    if let Some(true) = e.is_hidden {
        return false;
    }
    if let Some(false) = e.can_reply {
        return false;
    }
    let id_ok = match &e.id {
        Some(s) => parse_i32(s.as_str()).is_some(),
        None => false,
    };
    if !id_ok {
        return false;
    }
    if e.title.is_none() {
        return false;
    }
    true
}

/// The discussion a kept entry describes, as `discussion_of` describes.
fn entry_discussion(e: &ListingEntry, user_id: i32) -> (d: Discussion)
    requires
        entry_kept(e@, user_id),
    ensures
        d@ == discussion_of(e@),
{
    let id = match &e.id {
        Some(s) => match parse_i32(s.as_str()) {
            Some(v) => v,
            None => 0,
        },
        None => 0,
    };
    let title = match &e.title {
        Some(t) => t.clone(),
        None => String::new(),
    };
    Discussion { id, title }
}

// ---------------------------------------------------------------------------
// The forum client
// ---------------------------------------------------------------------------

/// The read-once forum credentials: where the forum lives and the shared
/// key every call authenticates with.
pub struct Forum {
    pub base_url: String,
    pub api_key: String,
}

/// The authorization header value of a persona-scoped call: the shared
/// key followed by the acting persona, so the forum attributes the
/// action to that persona.
pub open spec fn spec_persona_auth(api_key: Seq<char>, user_id: i32) -> Seq<char> {
    "Token "@ + api_key + "; userId="@ + spec_i32_digits(user_id as int)
}

/// The authorization header value of a read-only call: the shared key
/// alone, with no persona attribution.
pub open spec fn spec_token_auth(api_key: Seq<char>) -> Seq<char> {
    "Token "@ + api_key
}

impl Forum {
    pub fn new(baseurl: &str, api_key: &str) -> (f: Forum)
        ensures
            f.base_url@ == baseurl@,
            f.api_key@ == api_key@,
    {
        Forum { base_url: String::from_str(baseurl), api_key: String::from_str(api_key) }
    }

    /// Authorization header for a call made as the given persona.
    pub fn persona_auth_header(&self, user_id: i32) -> (r: String)
        ensures
            r@ == spec_persona_auth(self.api_key@, user_id),
    {
        let mut out = String::from_str("Token ");
        out.append(self.api_key.as_str());
        out.append("; userId=");
        let digits = i32_to_string(user_id);
        out.append(digits.as_str());
        assert(out@ =~= spec_persona_auth(self.api_key@, user_id));
        out
    }

    /// Authorization header for a read-only call.
    pub fn read_only_auth_header(&self) -> (r: String)
        ensures
            r@ == spec_token_auth(self.api_key@),
    {
        let mut out = String::from_str("Token ");
        out.append(self.api_key.as_str());
        assert(out@ =~= spec_token_auth(self.api_key@));
        out
    }

    /// Address of the discussion listing, also the creation endpoint.
    pub fn discussions_url(&self) -> (r: String)
        ensures
            r@ == self.base_url@ + "/discussions"@,
    {
        let mut out = self.base_url.clone();
        out.append("/discussions");
        out
    }

    /// Address of one discussion with its included posts.
    pub fn discussion_url(&self, id: i32) -> (r: String)
        ensures
            r@ == self.base_url@ + "/discussions/"@ + spec_i32_digits(id as int),
    {
        let mut out = self.base_url.clone();
        out.append("/discussions/");
        let digits = i32_to_string(id);
        out.append(digits.as_str());
        assert(out@ =~= self.base_url@ + "/discussions/"@ + spec_i32_digits(id as int));
        out
    }

    /// Address where posts are appended.
    pub fn posts_url(&self) -> (r: String)
        ensures
            r@ == self.base_url@ + "/posts"@,
    {
        let mut out = self.base_url.clone();
        out.append("/posts");
        out
    }

    /// Filters a decoded discussion listing down to the discussions the
    /// acting persona may reply to, in listing order; a response without
    /// a listing array is malformed.
    pub fn list_recent_discussions(&self, user_id: i32, payload: &ListingPayload) -> (r: Result<
        Vec<Discussion>,
        ForumError,
    >)
        ensures
            payload.data is None <==> r is Err,
            r matches Err(e) ==> e@ == (ForumErrorModel::MalformedResponse {
                operation: ForumOperation::ListDiscussions,
            }),
            payload.data matches Some(entries) ==> (r matches Ok(out) ==> out.deep_view()
                == open_discussions_of(entries.deep_view(), user_id)),
    {
        let entries = match &payload.data {
            Some(v) => v,
            None => {
                return Err(
                    ForumError::MalformedResponse { operation: ForumOperation::ListDiscussions },
                );
            },
        };
        let mut out: Vec<Discussion> = Vec::new();
        let n = entries.len();
        let mut i: usize = 0;
        while i < n
            invariant
                i <= n,
                n == entries.len(),
                out.deep_view() =~= open_discussions_of(entries.deep_view().take(i as int), user_id),
            decreases n - i,
        {
            let ghost prefix = entries.deep_view().take(i as int);
            assert(entries.deep_view().take(i + 1).drop_last() =~= prefix);
            assert(entries.deep_view().take(i + 1).last() == entries.deep_view()[i as int]);
            if entry_is_kept(&entries[i], user_id) {
                let d = entry_discussion(&entries[i], user_id);
                out.push(d);
            }
            assert(out.deep_view() =~= open_discussions_of(
                entries.deep_view().take(i + 1),
                user_id,
            ));
            i = i + 1;
        }
        assert(entries.deep_view().take(n as int) =~= entries.deep_view());
        Ok(out)
    }

    /// Draws one discussion at random from the filtered listing: nothing
    /// when the listing leaves no candidate, which is a normal outcome,
    /// not a fault; otherwise a member of the filtered listing.
    pub fn get_random_discussion(&self, user_id: i32, payload: &ListingPayload) -> (r: Result<
        Option<Discussion>,
        ForumError,
    >)
        ensures
            payload.data is None <==> r is Err,
            r matches Err(e) ==> e@ == (ForumErrorModel::MalformedResponse {
                operation: ForumOperation::ListDiscussions,
            }),
            payload.data matches Some(entries) ==> (r matches Ok(o) ==> {
                let list = open_discussions_of(entries.deep_view(), user_id);
                &&& (o is None <==> list.len() == 0)
                &&& (o matches Some(d) ==> list.contains(d@))
            }),
    {
        let mut discussions = match self.list_recent_discussions(user_id, payload) {
            Ok(v) => v,
            Err(e) => {
                return Err(e);
            },
        };
        if discussions.len() == 0 {
            return Ok(None);
        }
        let ghost list = discussions.deep_view();
        let k = random_below(discussions.len());
        let d = discussions.remove(k);
        assert(list.contains(d@)) by {
            assert(list[k as int] == d@);
        }
        Ok(Some(d))
    }
}

// ---------------------------------------------------------------------------
// Fetching one discussion: filter the included posts, order them, and
// convert their bodies away from HTML
// ---------------------------------------------------------------------------

/// One object of a detail response's included collection, with every
/// field as the response carried it.
pub struct IncludedObject {
    pub otype: String,
    pub number: Option<i64>,
    pub content_html: Option<String>,
}

pub struct IncludedObjectModel {
    pub otype: Seq<char>,
    pub number: Option<i64>,
    pub content_html: Option<Seq<char>>,
}

impl View for IncludedObject {
    type V = IncludedObjectModel;

    open spec fn view(&self) -> IncludedObjectModel {
        IncludedObjectModel {
            otype: self.otype@,
            number: self.number,
            content_html: text_view(self.content_html),
        }
    }
}

impl DeepView for IncludedObject {
    type V = IncludedObjectModel;

    open spec fn deep_view(&self) -> IncludedObjectModel {
        self.view()
    }
}

/// The decoded body of a detail response; `included` is absent when the
/// response held no included collection at all.
pub struct DetailPayload {
    pub title: Option<String>,
    pub included: Option<Vec<IncludedObject>>,
}

/// A post picked out of the included collection, its absent fields
/// already defaulted: no sequence number reads as zero, no body as the
/// empty text.
pub struct PostSource {
    pub number: i64,
    pub content_html: String,
}

pub struct PostSourceModel {
    pub number: i64,
    pub content_html: Seq<char>,
}

impl View for PostSource {
    type V = PostSourceModel;

    open spec fn view(&self) -> PostSourceModel {
        PostSourceModel { number: self.number, content_html: self.content_html@ }
    }
}

impl DeepView for PostSource {
    type V = PostSourceModel;

    open spec fn deep_view(&self) -> PostSourceModel {
        self.view()
    }
}

/// The post an included object describes, fields defaulted as
/// `PostSource` says.
pub open spec fn post_source_of(o: IncludedObjectModel) -> PostSourceModel {
    PostSourceModel {
        number: match o.number {
            Some(n) => n,
            None => 0,
        },
        content_html: match o.content_html {
            Some(t) => t,
            None => Seq::empty(),
        },
    }
}

/// The posts among an included collection, in response order.
pub open spec fn posts_of(included: Seq<IncludedObjectModel>) -> Seq<PostSourceModel>
    decreases included.len(),
{
    if included.len() == 0 {
        Seq::empty()
    } else {
        let rest = posts_of(included.drop_last());
        if included.last().otype == "posts"@ {
            rest.push(post_source_of(included.last()))
        } else {
            rest
        }
    }
}

/// Picks the posts out of an included collection, as `posts_of`
/// describes.
pub fn collect_post_sources(included: &Vec<IncludedObject>) -> (r: Vec<PostSource>)
    ensures
        r.deep_view() == posts_of(included.deep_view()),
{
    let posts_marker = String::from_str("posts");
    let mut out: Vec<PostSource> = Vec::new();
    let n = included.len();
    let mut i: usize = 0;
    while i < n
        invariant
            i <= n,
            n == included.len(),
            posts_marker@ == "posts"@,
            out.deep_view() =~= posts_of(included.deep_view().take(i as int)),
        decreases n - i,
    {
        assert(included.deep_view().take(i + 1).drop_last() =~= included.deep_view().take(i as int));
        assert(included.deep_view().take(i + 1).last() == included.deep_view()[i as int]);
        let o = &included[i];
        if o.otype == posts_marker {
            let number = match o.number {
                Some(n) => n,
                None => 0,
            };
            let content_html = match &o.content_html {
                Some(t) => t.clone(),
                None => String::new(),
            };
            out.push(PostSource { number, content_html });
        }
        assert(out.deep_view() =~= posts_of(included.deep_view().take(i + 1)));
        i = i + 1;
    }
    assert(included.deep_view().take(n as int) =~= included.deep_view());
    out
}

/// The sequence is ordered non-decreasing by forum-assigned post number.
pub open spec fn sorted_by_number(s: Seq<PostSourceModel>) -> bool {
    forall|a: int, b: int| 0 <= a < b < s.len() ==> #[trigger] s[a].number <= #[trigger] s[b].number
}

/// Orders posts non-decreasing by their forum-assigned number: the
/// result is a rearrangement of the input holding exactly the same
/// posts, so posts fed in out of order come out in order.
pub fn sort_posts(input: Vec<PostSource>) -> (r: Vec<PostSource>)
    ensures
        sorted_by_number(r.deep_view()),
        r.deep_view().to_multiset() == input.deep_view().to_multiset(),
{
    let ghost all = input.deep_view();
    let mut work = input;
    let mut out: Vec<PostSource> = Vec::new();
    while work.len() > 0
        invariant
            sorted_by_number(out.deep_view()),
            forall|a: int, b: int|
                0 <= a < out.len() && 0 <= b < work.len() ==> #[trigger] out.deep_view()[a].number
                    <= #[trigger] work.deep_view()[b].number,
            out.deep_view().to_multiset().add(work.deep_view().to_multiset()) =~= all.to_multiset(),
        decreases work.len(),
    {
        let mut m: usize = 0;
        let mut k: usize = 1;
        while k < work.len()
            invariant
                0 < work.len(),
                m < k <= work.len(),
                forall|j: int|
                    0 <= j < k ==> work.deep_view()[m as int].number
                        <= #[trigger] work.deep_view()[j].number,
            decreases work.len() - k,
        {
            if work[k].number < work[m].number {
                m = k;
            }
            k = k + 1;
        }
        let ghost work_before = work.deep_view();
        let ghost out_before = out.deep_view();
        let x = work.remove(m);
        out.push(x);
        proof {
            assert(work.deep_view() =~= work_before.remove(m as int));
            assert(out.deep_view() =~= out_before.push(x@));
            assert(work_before.remove(m as int).to_multiset() =~= work_before.to_multiset().remove(
                work_before[m as int],
            ));
            assert(out_before.push(x@).to_multiset() =~= out_before.to_multiset().insert(x@));
            assert(work_before.to_multiset().count(x@) >= 1) by {
                assert(work_before.contains(x@)) by {
                    assert(work_before[m as int] == x@);
                }
            }
            assert(out.deep_view().to_multiset().add(work.deep_view().to_multiset())
                =~= all.to_multiset());
        }
    }
    out
}

/// The text the conversion from forum HTML to simplified markup yields.
pub uninterp spec fn markup_of(html: Seq<char>) -> Seq<char>;

/// Relies on `html2md::parse_html`: parses the HTML and renders it as
/// Markdown; the result depends on the input text alone.
#[verifier::external_body]
fn html_to_markup(html: &str) -> (r: String)
    ensures
        r@ == markup_of(html@),
{
    html2md::parse_html(html)
}

/// The post a source yields once its body is converted to markup.
pub open spec fn rendered_post(p: PostSourceModel) -> PostModel {
    PostModel { content: markup_of(p.content_html) }
}

/// Converts each post body from forum HTML to simplified markup,
/// keeping the order.
pub fn render_posts(sources: &Vec<PostSource>) -> (r: Vec<Post>)
    ensures
        r.deep_view() == sources.deep_view().map_values(|p: PostSourceModel| rendered_post(p)),
{
    let mut out: Vec<Post> = Vec::new();
    let n = sources.len();
    let mut i: usize = 0;
    while i < n
        invariant
            i <= n,
            n == sources.len(),
            out.deep_view() =~= sources.deep_view().take(i as int).map_values(
                |p: PostSourceModel| rendered_post(p),
            ),
        decreases n - i,
    {
        let ghost out_before = out.deep_view();
        let content = html_to_markup(sources[i].content_html.as_str());
        out.push(Post { content });
        assert(out.deep_view() =~= sources.deep_view().take(i + 1).map_values(
            |p: PostSourceModel| rendered_post(p),
        )) by {
            assert(out.deep_view() =~= out_before.push(rendered_post(
                sources.deep_view()[i as int],
            )));
            assert(forall|j: int|
                0 <= j <= i ==> #[trigger] sources.deep_view().take(i + 1)[j]
                    == sources.deep_view()[j]);
            assert(forall|j: int|
                0 <= j < i ==> #[trigger] sources.deep_view().take(i as int)[j]
                    == sources.deep_view()[j]);
        }
        i = i + 1;
    }
    assert(sources.deep_view().take(n as int) =~= sources.deep_view());
    out
}

/// The detail result is built from the payload: the carried title, or a
/// placeholder where the response had none, and some ordering of the
/// included posts converted to markup.
pub open spec fn detail_matches(payload_title: Option<Seq<char>>, sources: Seq<PostSourceModel>, d: DiscussionDataModel) -> bool {
    &&& d.title == (match payload_title {
        Some(t) => t,
        None => "No title"@,
    })
    &&& exists|ordered: Seq<PostSourceModel>|
        {
            &&& #[trigger] ordered.to_multiset() == sources.to_multiset()
            &&& sorted_by_number(ordered)
            &&& d.recent_posts == ordered.map_values(|p: PostSourceModel| rendered_post(p))
        }
}

impl Forum {
    /// Builds the fetched state of one discussion from a decoded detail
    /// response: the posts among the included objects, ordered
    /// non-decreasing by their forum-assigned number, their bodies
    /// converted from HTML to simplified markup; a response without an
    /// included collection is malformed.
    pub fn fetch_discussion(&self, payload: DetailPayload) -> (r: Result<
        DiscussionData,
        ForumError,
    >)
        ensures
            payload.included is None <==> r is Err,
            r matches Err(e) ==> e@ == (ForumErrorModel::MalformedResponse {
                operation: ForumOperation::FetchDiscussion,
            }),
            payload.included matches Some(inc) ==> (r matches Ok(d) ==> detail_matches(
                text_view(payload.title),
                posts_of(inc.deep_view()),
                d@,
            )),
    {
        let included = match payload.included {
            Some(v) => v,
            None => {
                return Err(
                    ForumError::MalformedResponse { operation: ForumOperation::FetchDiscussion },
                );
            },
        };
        let title = match payload.title {
            Some(t) => t,
            None => String::from_str("No title"),
        };
        let sources = collect_post_sources(&included);
        let ordered = sort_posts(sources);
        let recent_posts = render_posts(&ordered);
        Ok(DiscussionData { title, recent_posts })
    }
}

// ---------------------------------------------------------------------------
// Writing to the forum: the two creation requests
// ---------------------------------------------------------------------------

/// Everything a discussion-creation round-trip sends: where, as whom,
/// and the new discussion's content, tagged under the fixed default tag.
pub struct CreateDiscussionRequest {
    pub url: String,
    pub authorization: String,
    pub title: String,
    pub content: String,
    pub tag_id: String,
}

/// Everything a post-creation round-trip sends: where, as whom, the
/// post's content, and the discussion it lands in, as the wire format's
/// decimal text.
pub struct WritePostRequest {
    pub url: String,
    pub authorization: String,
    pub content: String,
    pub discussion_id: String,
}

impl Forum {
    /// Describes the request that creates a new discussion with the
    /// given title and content as the given persona, under the fixed
    /// default tag.
    pub fn create_new_discussion(&self, user_id: i32, title: &str, content: &str) -> (r:
        CreateDiscussionRequest)
        ensures
            r.url@ == self.base_url@ + "/discussions"@,
            r.authorization@ == spec_persona_auth(self.api_key@, user_id),
            r.title@ == title@,
            r.content@ == content@,
            r.tag_id@ == "1"@,
    {
        CreateDiscussionRequest {
            url: self.discussions_url(),
            authorization: self.persona_auth_header(user_id),
            title: String::from_str(title),
            content: String::from_str(content),
            tag_id: String::from_str("1"),
        }
    }

    /// Describes the request that appends a post with the given content
    /// to the given discussion as the given persona.
    pub fn write_post(&self, user_id: i32, discussion_id: i32, content: &str) -> (r:
        WritePostRequest)
        ensures
            r.url@ == self.base_url@ + "/posts"@,
            r.authorization@ == spec_persona_auth(self.api_key@, user_id),
            r.content@ == content@,
            r.discussion_id@ == spec_i32_digits(discussion_id as int),
    {
        WritePostRequest {
            url: self.posts_url(),
            authorization: self.persona_auth_header(user_id),
            content: String::from_str(content),
            discussion_id: i32_to_string(discussion_id),
        }
    }
}

} // verus!
