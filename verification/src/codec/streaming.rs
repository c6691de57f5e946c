//! The streaming protocol between this layer and an opened codec, seen from
//! the side of the outputs: what a caller receives who drains them.
use crate::util::error::outcome;
use vstd::prelude::*;

verus! {

/// One answer of the engine to a request for output: its return code, and
/// the unit of output, a frame or a packet, that it left behind.
pub struct Answer<T> {
    pub code: i32,
    pub unit: T,
}

/// The units that a caller receives who asks for output until a request
/// fails for the first time, where the engine answers as `answers` say. The
/// failure is the engine's way to say "no more for now", or "no more".
pub open spec fn delivered<T>(answers: Seq<Answer<T>>) -> Seq<T>
    decreases answers.len(),
{
    if answers.len() == 0 {
        Seq::empty()
    } else if outcome(answers[0].code) is Err {
        Seq::empty()
    } else {
        seq![answers[0].unit] + delivered(answers.skip(1))
    }
}

/// The number of units that the engine put out before its first failure.
pub open spec fn produced<T>(answers: Seq<Answer<T>>) -> nat
    decreases answers.len(),
{
    if answers.len() == 0 {
        0
    } else if answers[0].code < 0 {
        0
    } else {
        1 + produced(answers.skip(1))
    }
}

/// The units received over a whole stream: one drain after each input, and
/// one more after the end of the stream was signalled.
pub open spec fn delivered_in_all<T>(drains: Seq<Seq<Answer<T>>>) -> Seq<T>
    decreases drains.len(),
{
    if drains.len() == 0 {
        Seq::empty()
    } else {
        delivered(drains[0]) + delivered_in_all(drains.skip(1))
    }
}

/// The number of units that the engine put out over a whole stream.
pub open spec fn produced_in_all<T>(drains: Seq<Seq<Answer<T>>>) -> nat
    decreases drains.len(),
{
    if drains.len() == 0 {
        0
    } else {
        produced(drains[0]) + produced_in_all(drains.skip(1))
    }
}

/// A drain delivers one unit for each answer before the engine's first
/// failure, in the engine's order and as the engine left it: none is
/// dropped, none comes twice, and nothing follows the failure.
pub proof fn lemma_drain_delivers_what_was_produced<T>(answers: Seq<Answer<T>>)
    ensures
        delivered(answers).len() == produced(answers),
        produced(answers) <= answers.len(),
        forall|i: int|
            0 <= i < produced(answers) ==> (#[trigger] answers[i]).code >= 0 && delivered(
                answers,
            )[i] == answers[i].unit,
        produced(answers) < answers.len() ==> answers[produced(answers) as int].code < 0,
    decreases answers.len(),
{
    if answers.len() != 0 && answers[0].code >= 0 {
        let rest = answers.skip(1);
        lemma_drain_delivers_what_was_produced(rest);
        assert forall|i: int| 0 <= i < produced(answers) implies (#[trigger] answers[i]).code >= 0
            && delivered(answers)[i] == answers[i].unit by {
            if i > 0 {
                assert(rest[i - 1] == answers[i]);
            }
        }
        if produced(answers) < answers.len() {
            assert(rest[produced(rest) as int] == answers[produced(answers) as int]);
        }
    }
}

/// Over a whole stream, drained after each input and once more after its
/// end, as many units are received as the engine put out.
pub proof fn lemma_stream_delivers_what_was_produced<T>(drains: Seq<Seq<Answer<T>>>)
    ensures
        delivered_in_all(drains).len() == produced_in_all(drains),
    decreases drains.len(),
{
    if drains.len() != 0 {
        lemma_drain_delivers_what_was_produced(drains[0]);
        lemma_stream_delivers_what_was_produced(drains.skip(1));
    }
}

} // verus!
