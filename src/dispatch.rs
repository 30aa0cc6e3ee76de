//! What the model provider's reply amounts to, before its text is read.
use vstd::prelude::*;
use vstd::string::*;
use crate::model::ProofreadError;
use crate::decode::Failure;

verus! {

/// The text that a reply yields: `Some` with the first candidate's text,
/// `None` where the call failed or no candidate carries text.
pub open spec fn reply_text(reply: Result<Seq<Option<String>>, Seq<char>>) -> Option<Seq<char>> {
    match reply {
        Ok(candidates) => if candidates.len() > 0 && candidates[0] is Some {
            Some(candidates[0]->0@)
        } else {
            None
        },
        Err(_) => None,
    }
}

/// Takes the text of the first candidate of a reply. `reply` holds the texts
/// of the candidates, in the order the provider sent them (`None` for one
/// without text), or the message of a failed call. A failed call, a reply
/// without candidates and a first candidate without text are upstream
/// failures; a failed call keeps its message.
pub fn candidate_text(reply: Result<Vec<Option<String>>, String>) -> (r: Result<String, ProofreadError>)
    ensures
        match reply_text(
            match reply {
                Ok(c) => Ok(c@),
                Err(m) => Err(m@),
            },
        ) {
            Some(t) => r matches Ok(s) && s@ == t,
            None => r matches Err(e) && e is Upstream,
        },
        reply matches Err(m) ==> r matches Err(e) && e@ == Failure::Upstream(m@),
{
    match reply {
        Err(message) => Err(ProofreadError::Upstream(message)),
        Ok(candidates) => {
            if candidates.len() == 0 {
                return Err(ProofreadError::Upstream(String::from_str("the reply has no candidate")));
            }
            match &candidates[0] {
                Some(text) => Ok(text.clone()),
                None => Err(ProofreadError::Upstream(String::from_str("the first candidate has no text"))),
            }
        },
    }
}

} // verus!
