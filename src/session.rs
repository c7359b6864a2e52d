use vstd::prelude::*;
use crate::types::{SyncAction, SyncRequest, SyncResponse, SyncStoryPreview};
use crate::preview::{extracts, parse_story_preview, preview_matches};

verus! {

/// A story that a server offers: its preview and its full, opaque data.
#[derive(Debug, Clone)]
pub struct StoriesData {
    pub preview: SyncStoryPreview,
    pub full_data: String,
}

/// One sync session: its token, the stories it offers, and the stories that
/// peers pushed to it, in arrival order. The offered stories are fixed when
/// the session is built.
#[derive(Debug, Clone)]
pub struct ServerState {
    token: String,
    stories: Vec<StoriesData>,
    received_stories: Vec<String>,
}

/// The message of a response to a request with the wrong token.
pub open spec fn auth_error_text() -> Seq<char> {
    "Invalid authentication token"@
}

/// The message of a response to a pull of an id that is not offered.
pub open spec fn not_found_text(story_id: Seq<char>) -> Seq<char> {
    "Story not found: "@ + story_id
}

/// The message of a response to an accepted push.
pub open spec fn received_text() -> Seq<char> {
    "Story received successfully"@
}

/// The data of the first offered story whose preview id is `story_id`.
pub open spec fn found_payload(offered: Seq<StoriesData>, story_id: Seq<char>) -> Option<String>
    decreases offered.len(),
{
    if offered.len() == 0 {
        None
    } else {
        let earlier = found_payload(offered.drop_last(), story_id);
        if earlier is Some {
            earlier
        } else if offered.last().preview.id@ == story_id {
            Some(offered.last().full_data)
        } else {
            None
        }
    }
}

/// The previews of the offered stories, in order.
pub open spec fn previews_of(offered: Seq<StoriesData>) -> Seq<SyncStoryPreview> {
    offered.map_values(|s: StoriesData| s.preview)
}

/// The stories a session offers when built from `inputs`, each a story's
/// full data and, when extraction succeeded, its preview: the inputs with a
/// preview, in order.
pub open spec fn kept_stories(inputs: Seq<(String, Option<SyncStoryPreview>)>) -> Seq<StoriesData>
    decreases inputs.len(),
{
    if inputs.len() == 0 {
        Seq::empty()
    } else {
        let earlier = kept_stories(inputs.drop_last());
        match inputs.last().1 {
            Some(p) => earlier.push(StoriesData { preview: p, full_data: inputs.last().0 }),
            None => earlier,
        }
    }
}

/// Whether `ex` pairs each of `inputs`, in order, with what extraction gives
/// for it: a preview exactly when one can be extracted, and then that one.
pub open spec fn extraction_of(inputs: Seq<String>, ex: Seq<(String, Option<SyncStoryPreview>)>) -> bool {
    &&& ex.len() == inputs.len()
    &&& forall|i: int| 0 <= i < ex.len() ==> {
        &&& (#[trigger] ex[i]).0 == inputs[i]
        &&& (ex[i].1 is Some <==> extracts(inputs[i]@))
        &&& (ex[i].1 matches Some(p) ==> preview_matches(inputs[i]@, p))
    }
}

/// How many of some exports have an extractable preview.
pub open spec fn count_extractable(inputs: Seq<String>) -> nat
    decreases inputs.len(),
{
    if inputs.len() == 0 {
        0
    } else {
        count_extractable(inputs.drop_last()) + if extracts(inputs.last()@) { 1nat } else { 0nat }
    }
}

/// How many inputs had a preview.
pub open spec fn count_valid(inputs: Seq<(String, Option<SyncStoryPreview>)>) -> nat
    decreases inputs.len(),
{
    if inputs.len() == 0 {
        0
    } else {
        count_valid(inputs.drop_last()) + if inputs.last().1 is Some { 1nat } else { 0nat }
    }
}

/// How many inputs had none.
pub open spec fn count_invalid(inputs: Seq<(String, Option<SyncStoryPreview>)>) -> nat
    decreases inputs.len(),
{
    if inputs.len() == 0 {
        0
    } else {
        count_invalid(inputs.drop_last()) + if inputs.last().1 is None { 1nat } else { 0nat }
    }
}

/// What handling `request` on session `pre` does: the session afterwards is
/// `post`, and the answer is `r`. A wrong token is answered with an error and
/// nothing else; otherwise each action reads the offered stories or appends
/// to the received ones.
pub open spec fn handled(pre: ServerState, request: SyncRequest, post: ServerState, r: SyncResponse) -> bool {
    if request.token@ != pre.token()@ {
        &&& post == pre
        &&& r matches SyncResponse::Error { message } && message@ == auth_error_text()
    } else {
        match request.action {
            SyncAction::ListStories => {
                &&& post == pre
                &&& r matches SyncResponse::StoriesList { stories } && stories@ == previews_of(pre.offered())
            },
            SyncAction::PullStory { story_id } => {
                &&& post == pre
                &&& match found_payload(pre.offered(), story_id@) {
                    Some(data) => r == (SyncResponse::StoryData { data }),
                    None => r matches SyncResponse::Error { message }
                        && message@ == not_found_text(story_id@),
                }
            },
            SyncAction::PushStory { story_data } => {
                &&& post.token() == pre.token()
                &&& post.offered() == pre.offered()
                &&& post.received() == pre.received().push(story_data)
                &&& r matches SyncResponse::Success { message } && message@ == received_text()
            },
        }
    }
}

impl ServerState {
    /// The session's token.
    pub closed spec fn token(self) -> String {
        self.token
    }

    /// The stories on offer, in order.
    pub closed spec fn offered(self) -> Seq<StoriesData> {
        self.stories@
    }

    /// The stories pushed to this session, in arrival order.
    pub closed spec fn received(self) -> Seq<String> {
        self.received_stories@
    }

    /// A session with `token`, offering nothing and having received nothing.
    pub fn new(token: String) -> (r: ServerState)
        ensures
            r.token() == token,
            r.offered() == Seq::<StoriesData>::empty(),
            r.received() == Seq::<String>::empty(),
    {
        ServerState { token, stories: Vec::new(), received_stories: Vec::new() }
    }

    /// A session with `token` that offers, in order, each input whose
    /// preview was extracted; inputs without one are dropped.
    pub fn from_extracted(token: String, inputs: Vec<(String, Option<SyncStoryPreview>)>) -> (r: ServerState)
        ensures
            r.token() == token,
            r.offered() == kept_stories(inputs@),
            r.received() == Seq::<String>::empty(),
    {
        let mut stories: Vec<StoriesData> = Vec::new();
        let mut i: usize = 0;
        while i < inputs.len()
            invariant
                i <= inputs@.len(),
                stories@ == kept_stories(inputs@.take(i as int)),
            decreases inputs@.len() - i,
        {
            let (data, preview) = &inputs[i];
            proof {
                assert(inputs@.take(i as int + 1).drop_last() == inputs@.take(i as int));
            }
            match preview {
                Some(p) => {
                    stories.push(StoriesData { preview: p.duplicate(), full_data: data.clone() });
                },
                None => {},
            }
            i = i + 1;
        }
        proof {
            assert(inputs@.take(inputs@.len() as int) == inputs@);
        }
        ServerState { token, stories, received_stories: Vec::new() }
    }

    /// A session with `token` offering the given story exports, in order.
    /// Each export is kept exactly when its preview can be extracted, with
    /// that preview; the others are dropped, and building never fails.
    pub fn create(token: String, stories_json: Option<Vec<String>>) -> (r: ServerState)
        ensures
            r.token() == token,
            r.received() == Seq::<String>::empty(),
            stories_json is None ==> r.offered() == Seq::<StoriesData>::empty(),
            stories_json matches Some(v) ==> exists|ex: Seq<(String, Option<SyncStoryPreview>)>| {
                &&& extraction_of(v@, ex)
                &&& r.offered() == kept_stories(ex)
            },
    {
        let mut extracted: Vec<(String, Option<SyncStoryPreview>)> = Vec::new();
        match stories_json {
            Some(v) => {
                let mut i: usize = 0;
                while i < v.len()
                    invariant
                        i <= v@.len(),
                        extraction_of(v@.take(i as int), extracted@),
                    decreases v@.len() - i,
                {
                    let story_json = v[i].clone();
                    let preview = match parse_story_preview(story_json.as_str()) {
                        Ok(p) => Some(p),
                        Err(_) => None,
                    };
                    extracted.push((story_json, preview));
                    i = i + 1;
                    assert(extraction_of(v@.take(i as int), extracted@)) by {
                        assert forall|j: int| 0 <= j < i implies v@.take(i as int)[j] == v@[j] by {}
                    }
                }
                assert(v@.take(v@.len() as int) == v@);
                ServerState::from_extracted(token, extracted)
            },
            None => ServerState::new(token),
        }
    }

    /// The session's token.
    pub fn token_text(&self) -> (r: &String)
        ensures
            *r == self.token(),
    {
        &self.token
    }

    /// A snapshot of the offered previews, in order.
    pub fn list_previews(&self) -> (r: Vec<SyncStoryPreview>)
        ensures
            r@ == previews_of(self.offered()),
    {
        let mut r: Vec<SyncStoryPreview> = Vec::new();
        let mut i: usize = 0;
        while i < self.stories.len()
            invariant
                i <= self.stories@.len(),
                r@ == previews_of(self.stories@.take(i as int)),
            decreases self.stories@.len() - i,
        {
            r.push(self.stories[i].preview.duplicate());
            proof {
                assert(previews_of(self.stories@.take(i as int + 1)) =~= previews_of(self.stories@.take(i as int)).push(self.stories@[i as int].preview));
            }
            i = i + 1;
        }
        proof {
            assert(self.stories@.take(self.stories@.len() as int) == self.stories@);
        }
        r
    }

    /// The data of the first offered story whose id is `story_id`, if any.
    pub fn find_payload(&self, story_id: &String) -> (r: Option<String>)
        ensures
            r == found_payload(self.offered(), story_id@),
    {
        let mut i: usize = 0;
        while i < self.stories.len()
            invariant
                i <= self.stories@.len(),
                found_payload(self.stories@.take(i as int), story_id@) is None,
            decreases self.stories@.len() - i,
        {
            proof {
                assert(self.stories@.take(i as int + 1).drop_last() == self.stories@.take(i as int));
            }
            if self.stories[i].preview.id == *story_id {
                proof {
                    lemma_found_extends(self.stories@, i as int + 1, story_id@);
                }
                return Some(self.stories[i].full_data.clone());
            }
            i = i + 1;
        }
        proof {
            assert(self.stories@.take(self.stories@.len() as int) == self.stories@);
        }
        None
    }

    /// Appends a pushed story; nothing about it is checked.
    pub fn record_received(&mut self, payload: String)
        ensures
            final(self).token() == old(self).token(),
            final(self).offered() == old(self).offered(),
            final(self).received() == old(self).received().push(payload),
    {
        self.received_stories.push(payload);
    }

    /// A copy of the received stories, in arrival order.
    pub fn peek_received(&self) -> (r: Vec<String>)
        ensures
            r@ == self.received(),
    {
        self.received_stories.clone()
    }

    /// Hands out the received stories and empties the collection.
    pub fn drain_received(&mut self) -> (r: Vec<String>)
        ensures
            r@ == old(self).received(),
            final(self).token() == old(self).token(),
            final(self).offered() == old(self).offered(),
            final(self).received() == Seq::<String>::empty(),
    {
        let r = self.received_stories.clone();
        self.received_stories.clear();
        r
    }
}

/// Once the data of a story with `story_id` is found in a prefix, the whole
/// sequence gives the same data.
proof fn lemma_found_extends(offered: Seq<StoriesData>, n: int, story_id: Seq<char>)
    requires
        0 <= n <= offered.len(),
        found_payload(offered.take(n), story_id) is Some,
    ensures
        found_payload(offered, story_id) == found_payload(offered.take(n), story_id),
    decreases offered.len() - n,
{
    if n < offered.len() {
        assert(offered.take(n + 1).drop_last() == offered.take(n));
        lemma_found_extends(offered, n + 1, story_id);
    } else {
        assert(offered.take(n) == offered);
    }
}

/// Answers one request against `state`: the token is checked first, for every
/// action, and only then is the action carried out.
pub fn handle_sync(state: &mut ServerState, request: SyncRequest) -> (r: SyncResponse)
    ensures
        handled(*old(state), request, *final(state), r),
{
    if request.token != state.token {
        return SyncResponse::Error { message: String::from_str("Invalid authentication token") };
    }
    match request.action {
        SyncAction::ListStories => {
            SyncResponse::StoriesList { stories: state.list_previews() }
        },
        SyncAction::PullStory { story_id } => {
            match state.find_payload(&story_id) {
                Some(data) => SyncResponse::StoryData { data },
                None => {
                    let message = String::from_str("Story not found: ").concat(story_id.as_str());
                    SyncResponse::Error { message }
                },
            }
        },
        SyncAction::PushStory { story_data } => {
            state.record_received(story_data);
            SyncResponse::Success { message: String::from_str("Story received successfully") }
        },
    }
}


/// A request whose token is not the session's is answered with an error,
/// whatever its action, and leaves the session as it was.
pub proof fn lemma_wrong_token_never_dispatches(
    pre: ServerState,
    request: SyncRequest,
    post: ServerState,
    r: SyncResponse,
)
    requires
        handled(pre, request, post, r),
        request.token@ != pre.token()@,
    ensures
        r is Error,
        post == pre,
{
}

/// A session built by `create` from exports of which N have an extractable
/// preview lists exactly N previews, one per such export, however many
/// exports could not be read.
pub proof fn lemma_create_lists_extractable(
    s: ServerState,
    inputs: Seq<String>,
    ex: Seq<(String, Option<SyncStoryPreview>)>,
)
    requires
        extraction_of(inputs, ex),
        s.offered() == kept_stories(ex),
    ensures
        previews_of(s.offered()).len() == count_extractable(inputs),
        forall|i: int| 0 <= i < s.offered().len() ==> exists|j: int| 0 <= j < inputs.len()
            && extracts(inputs[j]@) && (#[trigger] s.offered()[i]).full_data == inputs[j]
            && preview_matches(inputs[j]@, s.offered()[i].preview),
{
    lemma_kept_len(ex);
    lemma_count_extractable(inputs, ex);
    lemma_kept_from_inputs(inputs, ex);
}

proof fn lemma_count_extractable(inputs: Seq<String>, ex: Seq<(String, Option<SyncStoryPreview>)>)
    requires
        extraction_of(inputs, ex),
    ensures
        count_valid(ex) == count_extractable(inputs),
    decreases inputs.len(),
{
    if inputs.len() > 0 {
        let n = inputs.len() - 1;
        assert(extraction_of(inputs.drop_last(), ex.drop_last())) by {
            assert forall|i: int| 0 <= i < n implies #[trigger] ex.drop_last()[i] == ex[i] by {}
        }
        lemma_count_extractable(inputs.drop_last(), ex.drop_last());
        assert(ex[n as int] == ex.last());
    }
}

proof fn lemma_kept_from_inputs(inputs: Seq<String>, ex: Seq<(String, Option<SyncStoryPreview>)>)
    requires
        extraction_of(inputs, ex),
    ensures
        forall|i: int| 0 <= i < kept_stories(ex).len() ==> exists|j: int| 0 <= j < inputs.len()
            && extracts(inputs[j]@) && (#[trigger] kept_stories(ex)[i]).full_data == inputs[j]
            && preview_matches(inputs[j]@, kept_stories(ex)[i].preview),
    decreases inputs.len(),
{
    if inputs.len() > 0 {
        let n = inputs.len() - 1;
        assert(extraction_of(inputs.drop_last(), ex.drop_last())) by {
            assert forall|i: int| 0 <= i < n implies #[trigger] ex.drop_last()[i] == ex[i] by {}
        }
        lemma_kept_from_inputs(inputs.drop_last(), ex.drop_last());
        assert(ex[n as int] == ex.last());
        let k = kept_stories(ex);
        let kp = kept_stories(ex.drop_last());
        assert forall|i: int| 0 <= i < k.len() implies exists|j: int| 0 <= j < inputs.len()
            && extracts(inputs[j]@) && (#[trigger] k[i]).full_data == inputs[j]
            && preview_matches(inputs[j]@, k[i].preview) by {
            if i < kp.len() {
                assert(k[i] == kp[i]);
                let j = choose|j: int| 0 <= j < inputs.drop_last().len()
                    && extracts(inputs.drop_last()[j]@) && (#[trigger] kp[i]).full_data == inputs.drop_last()[j]
                    && preview_matches(inputs.drop_last()[j]@, kp[i].preview);
                assert(inputs.drop_last()[j] == inputs[j]);
            } else {
                assert(inputs[n as int] == inputs.last());
            }
        }
    }
}

/// A session built from inputs of which `count_valid` have a preview and
/// `count_invalid` have none lists exactly `count_valid` previews.
pub proof fn lemma_lists_only_valid(s: ServerState, inputs: Seq<(String, Option<SyncStoryPreview>)>)
    requires
        s.offered() == kept_stories(inputs),
    ensures
        previews_of(s.offered()).len() == count_valid(inputs),
        count_valid(inputs) + count_invalid(inputs) == inputs.len(),
{
    lemma_kept_len(inputs);
}

proof fn lemma_kept_len(inputs: Seq<(String, Option<SyncStoryPreview>)>)
    ensures
        kept_stories(inputs).len() == count_valid(inputs),
        count_valid(inputs) + count_invalid(inputs) == inputs.len(),
    decreases inputs.len(),
{
    if inputs.len() > 0 {
        lemma_kept_len(inputs.drop_last());
    }
}

proof fn lemma_found_first(offered: Seq<StoriesData>, story_id: Seq<char>, i: int)
    requires
        0 <= i < offered.len(),
        offered[i].preview.id@ == story_id,
        forall|j: int| 0 <= j < i ==> (#[trigger] offered[j]).preview.id@ != story_id,
    ensures
        found_payload(offered, story_id) == Some(offered[i].full_data),
    decreases offered.len(),
{
    if i < offered.len() - 1 {
        lemma_found_first(offered.drop_last(), story_id, i);
    } else {
        lemma_found_absent(offered.drop_last(), story_id);
    }
}

proof fn lemma_found_absent(offered: Seq<StoriesData>, story_id: Seq<char>)
    requires
        forall|j: int| 0 <= j < offered.len() ==> (#[trigger] offered[j]).preview.id@ != story_id,
    ensures
        found_payload(offered, story_id) is None,
    decreases offered.len(),
{
    if offered.len() > 0 {
        lemma_found_absent(offered.drop_last(), story_id);
    }
}

/// A pull with the right token of an id that is offered answers with the
/// data of the first story offered under that id, unchanged; a pull of an id
/// that is not offered answers with an error whose message ends with the id.
pub proof fn lemma_pull_answers(
    pre: ServerState,
    request: SyncRequest,
    post: ServerState,
    r: SyncResponse,
    story_id: String,
)
    requires
        handled(pre, request, post, r),
        request.token@ == pre.token()@,
        request.action == (SyncAction::PullStory { story_id }),
    ensures
        forall|i: int| 0 <= i < pre.offered().len() && (#[trigger] pre.offered()[i]).preview.id@ == story_id@
            && (forall|j: int| 0 <= j < i ==> (#[trigger] pre.offered()[j]).preview.id@ != story_id@)
            ==> r == (SyncResponse::StoryData { data: pre.offered()[i].full_data }),
        (forall|j: int| 0 <= j < pre.offered().len() ==> (#[trigger] pre.offered()[j]).preview.id@ != story_id@)
            ==> (r matches SyncResponse::Error { message } && message@.len() >= story_id@.len()
            && message@.subrange(message@.len() - story_id@.len(), message@.len() as int) == story_id@),
{
    assert forall|i: int| 0 <= i < pre.offered().len() && (#[trigger] pre.offered()[i]).preview.id@ == story_id@
        && (forall|j: int| 0 <= j < i ==> (#[trigger] pre.offered()[j]).preview.id@ != story_id@)
        implies r == (SyncResponse::StoryData { data: pre.offered()[i].full_data }) by {
        lemma_found_first(pre.offered(), story_id@, i);
    }
    if forall|j: int| 0 <= j < pre.offered().len() ==> (#[trigger] pre.offered()[j]).preview.id@ != story_id@ {
        lemma_found_absent(pre.offered(), story_id@);
        let message = r->Error_message;
        assert(message@.subrange(message@.len() - story_id@.len(), message@.len() as int) =~= story_id@);
    }
}

/// Pushes with the right token, one after another, leave the received
/// stories as before followed by the pushed payloads in call order; each
/// payload is the last one right after its push.
pub proof fn lemma_pushes_in_order(
    states: Seq<ServerState>,
    requests: Seq<SyncRequest>,
    responses: Seq<SyncResponse>,
    payloads: Seq<String>,
)
    requires
        states.len() == payloads.len() + 1,
        requests.len() == payloads.len(),
        responses.len() == payloads.len(),
        forall|k: int| 0 <= k < payloads.len() ==> {
            &&& (#[trigger] requests[k]).token@ == states[k].token()@
            &&& requests[k].action == (SyncAction::PushStory { story_data: payloads[k] })
            &&& handled(states[k], requests[k], states[k + 1], responses[k])
        },
    ensures
        states.last().received() == states[0].received() + payloads,
        states.last().token() == states[0].token(),
        states.last().offered() == states[0].offered(),
        forall|k: int| 0 <= k < payloads.len() ==> (#[trigger] states[k + 1]).received().last() == payloads[k],
    decreases payloads.len(),
{
    if payloads.len() > 0 {
        let n = payloads.len() - 1;
        lemma_pushes_in_order(states.drop_last(), requests.drop_last(), responses.drop_last(), payloads.drop_last());
        assert(requests[n as int].token@ == states[n as int].token()@);
        assert(states.drop_last().last() == states[n as int]);
        assert(states[0].received() + payloads =~= (states[0].received() + payloads.drop_last()).push(payloads[n as int]));
        assert forall|k: int| 0 <= k < payloads.len() implies (#[trigger] states[k + 1]).received().last() == payloads[k] by {
            assert(requests[k].token@ == states[k].token()@);
        }
    }
}

/// The kind of an answer fits the action asked for: a listing gets a list
/// or an error, a pull gets story data or an error, a push gets a success
/// or an error.
pub proof fn lemma_response_fits_action(
    pre: ServerState,
    request: SyncRequest,
    post: ServerState,
    r: SyncResponse,
)
    requires
        handled(pre, request, post, r),
    ensures
        request.action is ListStories ==> (r is StoriesList || r is Error),
        request.action is PullStory ==> (r is StoryData || r is Error),
        request.action is PushStory ==> (r is Success || r is Error),
{
}

/// A client that holds the token of an earlier session cannot authenticate
/// to a session with another token: it gets an error and changes nothing.
pub proof fn lemma_stale_token_rejected(
    earlier: ServerState,
    current: ServerState,
    request: SyncRequest,
    post: ServerState,
    r: SyncResponse,
)
    requires
        request.token@ == earlier.token()@,
        earlier.token()@ != current.token()@,
        handled(current, request, post, r),
    ensures
        r matches SyncResponse::Error { message } && message@ == auth_error_text(),
        post == current,
{
}

} // verus!
