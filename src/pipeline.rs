use vstd::prelude::*;

verus! {

/// The status of a successful response.
pub const OK: u16 = 200;

/// The generic failure: a transport error without a status, or a body that
/// could not be read (or, without diagnostics, could not be decoded).
pub const BAD_REQUEST: u16 = 400;

/// A body that was read as text but does not decode into the wanted type
/// (with diagnostics only).
pub const INTERNAL_SERVER_ERROR: u16 = 500;

/// What the GET handed back.
#[derive(Clone, Copy, Debug, PartialEq, Eq, Structural)]
pub enum Reply {
    /// A response came, with this status.
    Received { status: u16 },
    /// No response came; the transport error may still carry a status.
    Unreached { status: Option<u16> },
}

/// The step of reading the body of a successful response.
#[derive(Clone, Copy, Debug, PartialEq, Eq, Structural)]
pub enum BodyStage {
    /// Diagnostics: read the whole body as text.
    ReadText,
    /// Diagnostics: decode the text that was read.
    ParseText,
    /// No diagnostics: read and decode the body in one step.
    DecodeBody,
}

/// What reading the body of a response with status 200 came to.
#[derive(Clone, Copy, Debug, PartialEq, Eq)]
pub enum BodyReport<T> {
    /// The body could not be read.
    Unreadable,
    /// The body was read, but it does not decode into `T`.
    Malformed,
    /// The body decodes into this value.
    Conforming(T),
}

/// How a request's outcome is classified. With `strict_diagnostics` the body is
/// kept as text, so that a body that does not decode is told apart from one that
/// could not be read.
#[derive(Clone, Copy, Debug, PartialEq, Eq, Structural)]
pub struct Pipeline {
    pub strict_diagnostics: bool,
}

/// The failure a reply stands for, or the step that reads the body.
pub open spec fn reply_outcome(strict_diagnostics: bool, reply: Reply) -> Result<BodyStage, u16> {
    match reply {
        Reply::Received { status } => if status == OK {
            Ok(if strict_diagnostics { BodyStage::ReadText } else { BodyStage::DecodeBody })
        } else {
            Err(status)
        },
        Reply::Unreached { status } => match status {
            Some(s) => Err(s),
            None => Err(BAD_REQUEST),
        },
    }
}

impl<T> BodyReport<T> {
    /// Reading the body as text, which fails only on an unreadable body.
    pub open spec fn text_step(self) -> Result<(), ()> {
        match self {
            BodyReport::Unreadable => Err(()),
            _ => Ok(()),
        }
    }

    /// Decoding the body, which yields a value only where it conforms.
    pub open spec fn decode_step(self) -> Result<T, ()> {
        match self {
            BodyReport::Conforming(v) => Ok(v),
            _ => Err(()),
        }
    }
}

/// The outcome of one fetch: `classify_reply` on the reply, then `settle` on
/// each body step in turn (text, then its decoding, with diagnostics; the
/// combined read and decode without), stopping at the first failure.
pub open spec fn fetch_outcome<T>(strict_diagnostics: bool, reply: Reply, body: BodyReport<T>) -> Result<T, u16> {
    match reply_outcome(strict_diagnostics, reply) {
        Err(code) => Err(code),
        Ok(BodyStage::ReadText) => match BodyStage::ReadText.settle_spec(body.text_step()) {
            Err(code) => Err(code),
            Ok(_) => BodyStage::ParseText.settle_spec(body.decode_step()),
        },
        Ok(stage) => stage.settle_spec(body.decode_step()),
    }
}

impl BodyStage {
    /// The failure that a failed step stands for.
    pub open spec fn fault_spec(self) -> u16 {
        match self {
            BodyStage::ParseText => INTERNAL_SERVER_ERROR,
            _ => BAD_REQUEST,
        }
    }

    /// What `settle` makes of a step's result.
    pub open spec fn settle_spec<V, E>(self, step: Result<V, E>) -> Result<V, u16> {
        match step {
            Ok(v) => Ok(v),
            Err(_) => Err(self.fault_spec()),
        }
    }

    pub fn fault(self) -> (r: u16)
        ensures
            r == self.fault_spec(),
    {
        match self {
            BodyStage::ParseText => INTERNAL_SERVER_ERROR,
            _ => BAD_REQUEST,
        }
    }

    /// Classifies what the step gave: its value passes through unchanged, and
    /// any error becomes this step's failure.
    pub fn settle<T, E>(self, step: Result<T, E>) -> (r: Result<T, u16>)
        ensures
            r == self.settle_spec(step),
    {
        match step {
            Ok(v) => Ok(v),
            Err(_) => Err(self.fault()),
        }
    }
}

impl Pipeline {
    pub fn new(strict_diagnostics: bool) -> (r: Pipeline)
        ensures
            r.strict_diagnostics == strict_diagnostics,
    {
        Pipeline { strict_diagnostics }
    }

    /// Classifies what the GET handed back: a failure, or the first step of
    /// reading the body of a response with status 200.
    pub fn classify_reply(&self, reply: Reply) -> (r: Result<BodyStage, u16>)
        ensures
            r == reply_outcome(self.strict_diagnostics, reply),
    {
        match reply {
            Reply::Received { status } => if status == OK {
                if self.strict_diagnostics {
                    Ok(BodyStage::ReadText)
                } else {
                    Ok(BodyStage::DecodeBody)
                }
            } else {
                Err(status)
            },
            Reply::Unreached { status } => match status {
                Some(s) => Err(s),
                None => Err(BAD_REQUEST),
            },
        }
    }
}

/// A response with status 200 whose body decodes yields the decoded value, in
/// either mode.
pub proof fn conforming_body_is_delivered<T>(p: Pipeline, value: T)
    ensures
        fetch_outcome(p.strict_diagnostics, Reply::Received { status: OK }, BodyReport::Conforming(value))
            == Ok::<T, u16>(value),
{
}

/// A response with any status other than 200 fails with exactly that status,
/// whatever its body holds.
pub proof fn other_status_is_the_failure<T>(p: Pipeline, status: u16, body: BodyReport<T>)
    requires
        status != OK,
    ensures
        fetch_outcome(p.strict_diagnostics, Reply::Received { status }, body) == Err::<T, u16>(status),
{
}

/// A transport error that carries no status is a bad request; one that carries
/// a status fails with that status.
pub proof fn transport_error_is_classified<T>(p: Pipeline, status: Option<u16>, body: BodyReport<T>)
    ensures
        status is None ==> fetch_outcome(p.strict_diagnostics, Reply::Unreached { status }, body)
            == Err::<T, u16>(BAD_REQUEST),
        status is Some ==> fetch_outcome(p.strict_diagnostics, Reply::Unreached { status }, body)
            == Err::<T, u16>(status->Some_0),
{
}

/// The mode decides how a body that does not decode is classified: an internal
/// error with diagnostics, a bad request without.
pub proof fn malformed_body_depends_on_mode<T>()
    ensures
        fetch_outcome(true, Reply::Received { status: OK }, BodyReport::<T>::Malformed)
            == Err::<T, u16>(INTERNAL_SERVER_ERROR),
        fetch_outcome(false, Reply::Received { status: OK }, BodyReport::<T>::Malformed)
            == Err::<T, u16>(BAD_REQUEST),
        INTERNAL_SERVER_ERROR != BAD_REQUEST,
{
}

/// A fetch's outcome depends only on the pipeline's mode, the reply and the
/// body: two fetches that meet the same reply and body have the same outcome.
pub proof fn same_reply_same_outcome<T>(p: Pipeline, q: Pipeline, reply: Reply, body: BodyReport<T>)
    requires
        p == q,
    ensures
        fetch_outcome(p.strict_diagnostics, reply, body) == fetch_outcome(q.strict_diagnostics, reply, body),
{
}

} // verus!
