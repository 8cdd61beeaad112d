//! Failures that the decision logic tells apart.

use vstd::prelude::*;

use crate::bc::Message;

verus! {

/// A failure of the camera protocol. `B` is the body of a message.
#[derive(Debug, Clone, PartialEq, Eq)]
pub enum Error<B> {
    /// The stream has ended and no more data will come.
    StreamFinished,
    /// The camera rejected the login credentials.
    CameraLoginFail,
    /// The camera answered with something that the request does not allow.
    UnintelligibleReply {
        /// The reply.
        reply: Message<B>,
        /// What was wrong with it.
        why: &'static str,
    },
    /// The camera refused a request.
    CameraServiceUnavailable {
        /// The message id of the refusal.
        id: u32,
        /// Its response code.
        code: u16,
    },
    /// Any other failure, by its description.
    Other {
        /// The description.
        detail: String,
    },
}

/// A failure as the connection loop sees it: a readable report, and the
/// protocol error that caused it where there is one.
#[derive(Debug, Clone, PartialEq, Eq)]
pub struct Failure<B> {
    /// The protocol error behind the failure.
    pub cause: Option<Error<B>>,
    /// The report that is shown to people.
    pub text: String,
}

impl<B> Failure<B> {
    /// Whether the camera rejected the login credentials, which no retry mends.
    pub open spec fn rejects_login(self) -> bool {
        self.cause == Some(Error::<B>::CameraLoginFail)
    }

    /// Whether the cause is a reply that could not be understood.
    pub open spec fn is_unintelligible(self) -> bool {
        self.cause is Some && self.cause->0 is UnintelligibleReply
    }

    /// Tells whether the camera rejected the login credentials.
    pub fn is_login_rejection(&self) -> (r: bool)
        ensures
            r == self.rejects_login(),
    {
        match &self.cause {
            Some(Error::CameraLoginFail) => true,
            _ => false,
        }
    }

    /// Tells whether the cause is a reply that could not be understood.
    pub fn is_unintelligible_reply(&self) -> (r: bool)
        ensures
            r == self.is_unintelligible(),
    {
        match &self.cause {
            Some(Error::UnintelligibleReply { .. }) => true,
            _ => false,
        }
    }
}

/// A failure is a rejected login just when its cause is that very error, and it
/// is unintelligible just when its cause is such a reply, whatever the reply and
/// the report say.
pub proof fn law_failures_told_apart<B>(failure: Failure<B>)
    ensures
        failure.rejects_login() <==> failure.cause == Some(Error::<B>::CameraLoginFail),
        failure.is_unintelligible() <==> exists|reply: Message<B>, why: &'static str|
            failure.cause == Some(Error::UnintelligibleReply { reply, why }),
        !(failure.rejects_login() && failure.is_unintelligible()),
{
    if failure.is_unintelligible() {
        if let Some(Error::UnintelligibleReply { reply, why }) = failure.cause {
            assert(failure.cause == Some(Error::UnintelligibleReply { reply, why }));
        }
    }
}

} // verus!
