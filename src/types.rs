use vstd::prelude::*;

verus! {

/// What a server hands back when it starts: where to reach it, the token that
/// authenticates a client, and the pairing code as a base64 PNG.
#[derive(Debug, Clone)]
pub struct SyncServerInfo {
    pub ip: String,
    pub port: u16,
    pub token: String,
    pub qr_code_base64: String,
}

/// Summary of a story that a server offers.
#[derive(Debug, Clone)]
pub struct SyncStoryPreview {
    pub id: String,
    pub title: String,
    pub genre: Option<String>,
    pub updated_at: i64,
    pub entry_count: usize,
}

/// One request to the sync endpoint: the pairing token and what to do.
#[derive(Debug, Clone)]
pub struct SyncRequest {
    pub token: String,
    pub action: SyncAction,
}

/// The closed set of actions a client can ask for.
#[derive(Debug, Clone)]
pub enum SyncAction {
    /// List all available stories on the server
    ListStories,
    /// Pull a specific story by id
    PullStory { story_id: String },
    /// Push a story to the server
    PushStory { story_data: String },
}

/// The closed set of answers; exactly one is returned per request.
#[derive(Debug, Clone)]
pub enum SyncResponse {
    /// Previews of the stories on offer
    StoriesList { stories: Vec<SyncStoryPreview> },
    /// Full story data, exactly as it was offered
    StoryData { data: String },
    /// The operation succeeded
    Success { message: String },
    /// The operation failed
    Error { message: String },
}

/// What a pairing code carries: enough for a client to reach and
/// authenticate to one server session.
#[derive(Debug, Clone)]
pub struct QrCodeData {
    pub ip: String,
    pub port: u16,
    pub token: String,
}

/// Copies an optional string, keeping it equal to the original.
pub fn copy_opt_string(s: &Option<String>) -> (r: Option<String>)
    ensures
        r == *s,
{
    match s {
        Some(t) => Some(t.clone()),
        None => None,
    }
}

impl SyncStoryPreview {
    /// A field-by-field copy, equal to the original.
    pub fn duplicate(&self) -> (r: SyncStoryPreview)
        ensures
            r == *self,
    {
        SyncStoryPreview {
            id: self.id.clone(),
            title: self.title.clone(),
            genre: copy_opt_string(&self.genre),
            updated_at: self.updated_at,
            entry_count: self.entry_count,
        }
    }
}

impl SyncRequest {
    /// A request that lists the stories on offer.
    pub fn list_stories(token: String) -> (r: SyncRequest)
        ensures
            r.token == token,
            r.action is ListStories,
    {
        SyncRequest { token, action: SyncAction::ListStories }
    }

    /// A request that pulls the story with the given id.
    pub fn pull_story(token: String, story_id: String) -> (r: SyncRequest)
        ensures
            r.token == token,
            r.action == (SyncAction::PullStory { story_id }),
    {
        SyncRequest { token, action: SyncAction::PullStory { story_id } }
    }

    /// A request that pushes a story's full data.
    pub fn push_story(token: String, story_data: String) -> (r: SyncRequest)
        ensures
            r.token == token,
            r.action == (SyncAction::PushStory { story_data }),
    {
        SyncRequest { token, action: SyncAction::PushStory { story_data } }
    }
}

impl QrCodeData {
    /// The pairing data for a server reachable at `ip:port` with `token`.
    pub fn new(ip: String, port: u16, token: String) -> (r: QrCodeData)
        ensures
            r.ip == ip,
            r.port == port,
            r.token == token,
    {
        QrCodeData { ip, port, token }
    }
}

} // verus!
