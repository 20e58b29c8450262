//! The plain records that the HTTP layer and the background jobs exchange
//! with the synchronisation engine.
use vstd::prelude::*;
use vstd::string::StringExecFns;
use crate::decimal::{int_digits, push_i32};
use crate::json::{json_string_literal, quote_json};

verus! {

pub struct LoginRequest {
    pub username: String,
    pub password: String,
}

pub struct RegisterRequest {
    pub username: String,
    pub email: String,
    pub password: String,
}

/// The body of a request to post a comment at a playback position.
pub struct CommentRequest {
    pub text: String,
    pub video_time: i32,
}

/// What a bearer token asserts: the user and the expiry time, in seconds since the epoch.
pub struct Claims {
    pub user_id: i32,
    pub exp: usize,
}

/// A request to read the duration of a stored video in the background.
pub struct DurationExtractionJob {
    pub video_id: i32,
    pub s3_key: String,
    pub bucket: String,
}

/// A request to import a video from a public URL.
pub struct ScrapeRequest {
    pub youtube_url: String,
    pub title: Option<String>,
    pub description: Option<String>,
    pub tags: Option<Vec<String>>,
    pub user_id: Option<i32>,
}

/// A request to search for videos to import.
pub struct SearchRequest {
    pub query: String,
    pub max_results: Option<i32>,
    pub user_id: Option<i32>,
}

/// The import jobs that a search started.
pub struct SearchResponse {
    pub job_ids: Vec<String>,
}

/// What the import of a video produced.
pub struct ScrapeResponse {
    pub video_id: i32,
    pub title: String,
    pub s3_key: String,
    pub thumbnail_url: Option<String>,
}

/// The state of an import job.
pub enum JobStatus {
    Queued,
    Processing,
    Completed(ScrapeResponse),
    Failed(String),
}

/// An import job and where it stands.
pub struct Job {
    pub id: String,
    pub request: ScrapeRequest,
    pub status: JobStatus,
}

/// A persisted comment. `created_at` is the creation time as the store
/// renders it (ISO 8601, without a zone).
pub struct Comment {
    pub id: i32,
    pub video_id: i32,
    pub user_id: i32,
    pub content: String,
    pub video_time: i32,
    pub created_at: String,
}

/// The JSON object of a comment, members in the order of its fields.
pub open spec fn comment_json(c: Comment) -> Seq<char> {
    "{\"id\":"@ + int_digits(c.id as int) + ",\"video_id\":"@ + int_digits(c.video_id as int)
        + ",\"user_id\":"@ + int_digits(c.user_id as int) + ",\"content\":"@
        + json_string_literal(c.content@) + ",\"video_time\":"@ + int_digits(c.video_time as int)
        + ",\"created_at\":"@ + json_string_literal(c.created_at@) + "}"@
}

impl Comment {
    /// Renders the comment as the JSON object that viewers receive.
    pub fn to_json(&self) -> (r: String)
        ensures
            r@ == comment_json(*self),
    {
        let mut out = String::from_str("{\"id\":");
        push_i32(&mut out, self.id);
        out.append(",\"video_id\":");
        push_i32(&mut out, self.video_id);
        out.append(",\"user_id\":");
        push_i32(&mut out, self.user_id);
        out.append(",\"content\":");
        out.append(quote_json(self.content.as_str()).as_str());
        out.append(",\"video_time\":");
        push_i32(&mut out, self.video_time);
        out.append(",\"created_at\":");
        out.append(quote_json(self.created_at.as_str()).as_str());
        out.append("}");
        out
    }
}

} // verus!
