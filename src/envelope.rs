use vstd::prelude::*;
use vstd::utf8::encode_utf8;
use crate::error::Error;

verus! {

/// The bytes of a string as the caller reads it across the boundary: the
/// content followed by one terminating NUL. Content that holds a NUL byte of
/// its own has no such form, since the caller would see it cut short.
pub open spec fn nul_terminated_of(content: Seq<u8>) -> Option<Seq<u8>> {
    if content.contains(0u8) {
        None
    } else {
        Some(content.push(0u8))
    }
}

/// Why a finished unit of work delivers no text to the caller.
#[derive(Debug)]
pub enum Fault {
    /// The unit of work itself failed.
    Operation(Error),
    /// The unit of work answered with text that holds a NUL byte.
    InteriorNul,
}

/// What a finished unit of work hands over the boundary: either the answer,
/// NUL-terminated and ready to be passed to the caller, or a fault.
#[derive(Debug)]
pub enum Envelope {
    Success(Vec<u8>),
    Failure(Fault),
}

impl View for Envelope {
    /// The bytes handed over, or the fault.
    type V = Result<Seq<u8>, Fault>;

    open spec fn view(&self) -> Result<Seq<u8>, Fault> {
        match self {
            Envelope::Success(bytes) => Ok(bytes@),
            Envelope::Failure(fault) => Err(*fault),
        }
    }
}

/// What the outcome `outcome` of a unit of work turns into at the boundary.
pub open spec fn envelope_of(outcome: Result<String, Error>) -> Result<Seq<u8>, Fault> {
    match outcome {
        Ok(message) => match nul_terminated_of(encode_utf8(message@)) {
            Some(bytes) => Ok(bytes),
            None => Err(Fault::InteriorNul),
        },
        Err(e) => Err(Fault::Operation(e)),
    }
}

/// The content `content` followed by a terminating NUL, or `None` where the
/// content holds a NUL byte of its own.
pub fn nul_terminated(content: &[u8]) -> (r: Option<Vec<u8>>)
    ensures
        match r {
            Some(bytes) => nul_terminated_of(content@) == Some(bytes@),
            None => nul_terminated_of(content@) is None,
        },
{
    let mut bytes: Vec<u8> = Vec::new();
    let mut i: usize = 0;
    while i < content.len()
        invariant
            i <= content@.len(),
            bytes@ == content@.subrange(0, i as int),
            forall|j: int| 0 <= j < i ==> content@[j] != 0u8,
        decreases content@.len() - i,
    {
        if content[i] == 0u8 {
            proof {
                assert(content@.contains(0u8)) by {
                    assert(content@[i as int] == 0u8);
                }
            }
            return None;
        }
        bytes.push(content[i]);
        i = i + 1;
        proof {
            assert(bytes@ =~= content@.subrange(0, i as int));
        }
    }
    proof {
        assert(bytes@ =~= content@);
        assert(!content@.contains(0u8));
    }
    bytes.push(0u8);
    Some(bytes)
}

impl Envelope {
    /// The envelope for the outcome of a unit of work: its answer as
    /// NUL-terminated bytes, or the fault that keeps it from crossing.
    pub fn from_outcome(outcome: Result<String, Error>) -> (r: Envelope)
        ensures
            r@ == envelope_of(outcome),
    {
        match outcome {
            Ok(message) => {
                let content = message.as_str().as_bytes();
                match nul_terminated(content) {
                    Some(bytes) => Envelope::Success(bytes),
                    None => Envelope::Failure(Fault::InteriorNul),
                }
            },
            Err(e) => Envelope::Failure(Fault::Operation(e)),
        }
    }

    /// Whether the envelope carries an answer.
    pub fn is_success(&self) -> (r: bool)
        ensures
            r == self@ is Ok,
    {
        match self {
            Envelope::Success(_) => true,
            Envelope::Failure(_) => false,
        }
    }
}

} // verus!
