use vstd::prelude::*;

verus! {

/// The text that lossy UTF-8 decoding makes of `bytes`: each sequence that
/// is not valid UTF-8 stands replaced by U+FFFD.
pub uninterp spec fn lossy_utf8(bytes: Seq<u8>) -> Seq<char>;

/// Relies on `String::from_utf8_lossy`: it never fails, and its result
/// depends on the bytes alone.
#[verifier::external_body]
fn decode_lossy(bytes: &[u8]) -> (r: String)
    ensures
        r@ == lossy_utf8(bytes@),
{
    String::from_utf8_lossy(bytes).into_owned()
}

/// Why a submission was turned away before any work was scheduled.
#[derive(Debug, Clone, Copy, PartialEq, Eq, Structural)]
pub enum Rejection {
    /// No argument string was given.
    NullArgument,
    /// No completion callback was given.
    NullCallback,
    /// The shared scheduler has not been built.
    SchedulerNotReady,
}

/// One accepted submission: the argument, copied out of the caller's memory,
/// the parameter for the unit of work, and the caller's completion token.
///
/// The token is an address that belongs to the caller. It is carried as a
/// plain number and handed back unchanged; it is never read through.
#[derive(Debug)]
pub struct Request {
    pub who: String,
    pub samples: u32,
    pub token: usize,
}

/// The decision on a submission: `Ok` with the argument text that the
/// request carries, or the first reason, in the order argument, callback,
/// scheduler, to turn it away.
pub open spec fn accept_outcome(
    argument: Option<Seq<u8>>,
    has_callback: bool,
    scheduler_ready: bool,
) -> Result<Seq<char>, Rejection> {
    match argument {
        None => Err(Rejection::NullArgument),
        Some(bytes) => if !has_callback {
            Err(Rejection::NullCallback)
        } else if !scheduler_ready {
            Err(Rejection::SchedulerNotReady)
        } else {
            Ok(lossy_utf8(bytes))
        },
    }
}

impl Request {
    /// Validates a submission. `argument` is the caller's string as bytes
    /// without its terminator, or `None` for a null pointer; `has_callback`
    /// says whether a callback was given; `scheduler_ready` whether the
    /// shared scheduler stands. Malformed UTF-8 in the argument is replaced,
    /// never rejected. The token is taken as it is.
    pub fn accept(
        argument: Option<&[u8]>,
        samples: u32,
        has_callback: bool,
        scheduler_ready: bool,
        token: usize,
    ) -> (r: Result<Request, Rejection>)
        ensures
            match (r, accept_outcome(
                match argument {
                    Some(bytes) => Some(bytes@),
                    None => None,
                },
                has_callback,
                scheduler_ready,
            )) {
                (Ok(request), Ok(who)) => request.who@ == who && request.samples == samples
                    && request.token == token,
                (Err(e), Err(f)) => e == f,
                _ => false,
            },
    {
        match argument {
            None => Err(Rejection::NullArgument),
            Some(bytes) => {
                if !has_callback {
                    Err(Rejection::NullCallback)
                } else if !scheduler_ready {
                    Err(Rejection::SchedulerNotReady)
                } else {
                    let who = decode_lossy(bytes);
                    Ok(Request { who, samples, token })
                }
            },
        }
    }
}

} // verus!
