use vstd::prelude::*;

verus! {

/// A failure outcome of a request, each with its HTTP status.
#[derive(Clone, Copy, Debug, PartialEq, Eq, Structural)]
pub enum Status {
    /// 400: the client sent a malformed header.
    BadRequest,
    /// 403: the corpus denied access.
    Forbidden,
    /// 404: no such page.
    NotFound,
    /// 500: any other failure.
    Internal,
}

impl Status {
    pub open spec fn spec_code(self) -> u16 {
        match self {
            Status::BadRequest => 400,
            Status::Forbidden => 403,
            Status::NotFound => 404,
            Status::Internal => 500,
        }
    }

    /// The HTTP status code of this failure.
    pub fn code(&self) -> (r: u16)
        ensures
            r == self.spec_code(),
    {
        match self {
            Status::BadRequest => 400,
            Status::Forbidden => 403,
            Status::NotFound => 404,
            Status::Internal => 500,
        }
    }
}

/// How an access to the corpus or to the formatter failed.
#[derive(Clone, Copy, Debug, PartialEq, Eq, Structural)]
pub enum IoFailure {
    NotFound,
    PermissionDenied,
    Other,
}

pub open spec fn failure_status(e: IoFailure) -> Status {
    match e {
        IoFailure::NotFound => Status::NotFound,
        IoFailure::PermissionDenied => Status::Forbidden,
        IoFailure::Other => Status::Internal,
    }
}

/// Maps a storage failure into the status the client sees.
pub fn conv_ioe(e: IoFailure) -> (r: Status)
    ensures
        r == failure_status(e),
{
    match e {
        IoFailure::NotFound => Status::NotFound,
        IoFailure::PermissionDenied => Status::Forbidden,
        IoFailure::Other => Status::Internal,
    }
}

/// The answer to a request. `modified` is the backing document's modification
/// time in seconds since the Unix epoch, sent back as the `Date` header.
#[derive(Debug, PartialEq, Eq)]
#[allow(inconsistent_fields)]
pub enum Reply {
    /// 307 to `location`.
    Redirect { location: String, modified: Option<u64> },
    /// 304 with an empty body.
    NotModified,
    /// 200 with the rendered document.
    Page { html: String, modified: u64 },
    /// An error status.
    Failed(Status),
}

/// The mathematical value of a [`Reply`].
#[allow(inconsistent_fields)]
pub ghost enum ReplyModel {
    Redirect { location: Seq<char>, modified: Option<u64> },
    NotModified,
    Page { html: Seq<char>, modified: u64 },
    Failed(Status),
}

impl View for Reply {
    type V = ReplyModel;

    open spec fn view(&self) -> ReplyModel {
        match self {
            Reply::Redirect { location, modified } => ReplyModel::Redirect {
                location: location@,
                modified: *modified,
            },
            Reply::NotModified => ReplyModel::NotModified,
            Reply::Page { html, modified } => ReplyModel::Page { html: html@, modified: *modified },
            Reply::Failed(s) => ReplyModel::Failed(*s),
        }
    }
}

impl Reply {
    /// The HTTP status code of this reply.
    pub fn status_code(&self) -> (r: u16)
        ensures
            r == match self@ {
                ReplyModel::Redirect { .. } => 307u16,
                ReplyModel::NotModified => 304u16,
                ReplyModel::Page { .. } => 200u16,
                ReplyModel::Failed(s) => s.spec_code(),
            },
    {
        match self {
            Reply::Redirect { .. } => 307,
            Reply::NotModified => 304,
            Reply::Page { .. } => 200,
            Reply::Failed(s) => s.code(),
        }
    }
}

} // verus!
