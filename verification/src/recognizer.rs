//! Attaching and detaching gesture recognizers.
//!
//! A view has room for one recognizer of each kind. What kind of object a recognizer is does not
//! matter here: `R` stands for it.

use vstd::prelude::*;

verus! {

/// How a new recognizer is set up.
#[derive(Clone, Copy, Debug, PartialEq, Eq, Structural)]
pub enum RecognizerSetup {
    Pinch,
    Pan { minimum_number_of_touches: u8, maximum_number_of_touches: u8 },
    Tap { number_of_taps_required: u8, number_of_touches_required: u8 },
    Rotation,
}

/// What to do so that a view recognizes a gesture, or stops doing so.
#[derive(Debug, PartialEq, Eq)]
pub enum RecognizerChange<R> {
    Nothing,
    /// Make a recognizer, attach it and store it.
    Attach(RecognizerSetup),
    /// Detach this recognizer. It is no longer stored.
    Detach(R),
}

/// What to do with a recognizer, stored or not, on a request to recognize its gesture or to stop.
pub open spec fn change<R>(
    stored: Option<R>,
    should_recognize: bool,
    setup: RecognizerSetup,
) -> RecognizerChange<R> {
    match stored {
        None => if should_recognize {
            RecognizerChange::Attach(setup)
        } else {
            RecognizerChange::Nothing
        },
        Some(recognizer) => if should_recognize {
            RecognizerChange::Nothing
        } else {
            RecognizerChange::Detach(recognizer)
        },
    }
}

/// What is stored once a request is answered, before a new recognizer is.
pub open spec fn kept<R>(stored: Option<R>, should_recognize: bool) -> Option<R> {
    if should_recognize {
        stored
    } else {
        None
    }
}

/// Answers a request to recognize a gesture or to stop.
pub(crate) fn request<R>(
    stored: &mut Option<R>,
    should_recognize: bool,
    setup: RecognizerSetup,
) -> (answer: RecognizerChange<R>)
    ensures
        answer == change(*old(stored), should_recognize, setup),
        *final(stored) == kept(*old(stored), should_recognize),
        should_recognize && *old(stored) is None ==> (answer matches RecognizerChange::Attach(used)
            && used == setup),
        should_recognize && *old(stored) is Some ==> answer is Nothing,
        !should_recognize ==> (*old(stored) matches Some(recognizer) ==> answer
            == RecognizerChange::Detach(recognizer)),
        !should_recognize && *old(stored) is None ==> answer is Nothing,
        should_recognize ==> *final(stored) == *old(stored),
        !should_recognize ==> *final(stored) is None,
{
    if should_recognize {
        if stored.is_none() {
            RecognizerChange::Attach(setup)
        } else {
            RecognizerChange::Nothing
        }
    } else {
        match stored.take() {
            Some(recognizer) => RecognizerChange::Detach(recognizer),
            None => RecognizerChange::Nothing,
        }
    }
}

/// What is stored after a request has been carried out, `made` being the recognizer that is made if
/// one is.
pub open spec fn carried_out<R>(
    stored: Option<R>,
    should_recognize: bool,
    setup: RecognizerSetup,
    made: R,
) -> Option<R> {
    if change(stored, should_recognize, setup) is Attach {
        Some(made)
    } else {
        kept(stored, should_recognize)
    }
}

/// The recognizers that are attached after a request has been carried out.
pub open spec fn attached_after<R>(
    attached: Set<R>,
    change: RecognizerChange<R>,
    made: R,
) -> Set<R> {
    match change {
        RecognizerChange::Nothing => attached,
        RecognizerChange::Attach(_) => attached.insert(made),
        RecognizerChange::Detach(recognizer) => attached.remove(recognizer),
    }
}

/// The recognizer that is stored, if any, and nothing else.
pub open spec fn just<R>(stored: Option<R>) -> Set<R> {
    match stored {
        None => Set::empty(),
        Some(recognizer) => set![recognizer],
    }
}

/// A request to recognize a gesture or to stop, with the recognizer that is made if one is.
pub struct Request<R> {
    pub should_recognize: bool,
    pub setup: RecognizerSetup,
    pub made: R,
}

/// What a new view stores after some requests have been carried out.
pub open spec fn stored_after_all<R>(requests: Seq<Request<R>>) -> Option<R>
    decreases requests.len(),
{
    if requests.len() == 0 {
        None
    } else {
        let last = requests.last();
        carried_out(
            stored_after_all(requests.drop_last()),
            last.should_recognize,
            last.setup,
            last.made,
        )
    }
}

/// The recognizers that a new view has attached after some requests have been carried out.
pub open spec fn attached_after_all<R>(requests: Seq<Request<R>>) -> Set<R>
    decreases requests.len(),
{
    if requests.len() == 0 {
        Set::empty()
    } else {
        let last = requests.last();
        attached_after(
            attached_after_all(requests.drop_last()),
            change(
                stored_after_all(requests.drop_last()),
                last.should_recognize,
                last.setup,
            ),
            last.made,
        )
    }
}

/// Whatever is asked of a view, what is attached is what is stored. So at most one recognizer of a
/// kind is ever attached, and none is forgotten.
pub proof fn law_attached_is_stored<R>(requests: Seq<Request<R>>)
    ensures
        attached_after_all(requests) == just(stored_after_all(requests)),
    decreases requests.len(),
{
    if requests.len() > 0 {
        law_attached_is_stored(requests.drop_last());
        assert(attached_after_all(requests) =~= just(stored_after_all(requests)));
    }
}

/// A recognizer is attached exactly where one is asked for and none is stored, and it is set up as
/// the request says, limits and all.
pub proof fn law_attached_as_asked<R>(
    stored: Option<R>,
    should_recognize: bool,
    setup: RecognizerSetup,
    made: R,
)
    ensures
        change(stored, should_recognize, setup) is Attach <==> should_recognize && stored is None,
        change(stored, should_recognize, setup) matches RecognizerChange::Attach(used) ==> used
            == setup,
        change(stored, should_recognize, setup) is Attach ==> carried_out(
            stored,
            should_recognize,
            setup,
            made,
        ) == Some(made),
{
}

/// Two requests for a pan with different limits do not get the same answer from a view without a
/// pan recognizer; each gets its own limits back.
pub proof fn law_pan_limits_are_kept<R>(minimum: u8, maximum: u8)
    ensures
        change::<R>(
            None,
            true,
            (RecognizerSetup::Pan {
                minimum_number_of_touches: minimum,
                maximum_number_of_touches: maximum,
            }),
        ) matches RecognizerChange::Attach(
            RecognizerSetup::Pan { minimum_number_of_touches, maximum_number_of_touches },
        ) && minimum_number_of_touches == minimum && maximum_number_of_touches == maximum,
{
}

/// A recognizer is detached exactly where it is stored and its gesture is to be recognized no
/// more; it is the one that was stored. One that is still wanted stays.
pub proof fn law_detached_as_stored<R>(
    stored: Option<R>,
    should_recognize: bool,
    setup: RecognizerSetup,
    made: R,
)
    ensures
        change(stored, should_recognize, setup) is Detach <==> !should_recognize && stored is Some,
        change(stored, should_recognize, setup) matches RecognizerChange::Detach(recognizer)
            ==> stored == Some(recognizer),
        should_recognize && stored is Some ==> carried_out(stored, should_recognize, setup, made)
            == stored,
        should_recognize ==> kept(stored, should_recognize) == stored,
        !should_recognize ==> kept(stored, should_recognize) is None,
{
}

/// Once a request has been carried out, a recognizer is stored exactly if the gesture is to be
/// recognized.
pub proof fn law_request_is_met<R>(
    stored: Option<R>,
    should_recognize: bool,
    setup: RecognizerSetup,
    made: R,
)
    ensures
        carried_out(stored, should_recognize, setup, made) is Some <==> should_recognize,
{
}

/// A request that is repeated changes nothing, even with another setup: the recognizer that is
/// attached keeps the one it was made with.
pub proof fn law_repeated_request<R>(
    stored: Option<R>,
    should_recognize: bool,
    setup: RecognizerSetup,
    made: R,
    other_setup: RecognizerSetup,
)
    ensures
        change(
            carried_out(stored, should_recognize, setup, made),
            should_recognize,
            other_setup,
        ) is Nothing,
{
}

/// Asking a view to recognize a gesture and then to stop detaches the recognizer that was made for
/// it.
pub proof fn law_attached_then_detached<R>(
    setup: RecognizerSetup,
    made: R,
    other_setup: RecognizerSetup,
    other: R,
)
    ensures
        change(carried_out(None, true, setup, made), false, other_setup)
            == RecognizerChange::Detach(made),
        carried_out(carried_out(None, true, setup, made), false, other_setup, other) is None,
{
}

} // verus!
